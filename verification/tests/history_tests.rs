use gjallarhorn::history::{HistoryBuffer, ZERO_SAMPLE};

fn bits(values: &[f32]) -> Vec<u32> {
    values.iter().map(|v| v.to_bits()).collect()
}

#[test]
fn fresh_window_is_all_zero() {
    for n in [1usize, 2, 3, 60, 120] {
        let h = HistoryBuffer::new(n);
        assert_eq!(h.capacity(), n);
        assert_eq!(h.snapshot(), vec![0.0f32.to_bits(); n]);
    }
}

#[test]
fn zero_sample_is_positive_zero() {
    assert_eq!(f32::from_bits(ZERO_SAMPLE), 0.0);
    assert!(f32::from_bits(ZERO_SAMPLE).is_sign_positive());
}

#[test]
fn push_drops_oldest_and_appends_newest() {
    let mut h = HistoryBuffer::new(3);
    h.push(1.0f32.to_bits());
    assert_eq!(h.snapshot(), bits(&[0.0, 0.0, 1.0]));
    h.push(2.5f32.to_bits());
    assert_eq!(h.snapshot(), bits(&[0.0, 1.0, 2.5]));
    h.push(3.0f32.to_bits());
    h.push(4.0f32.to_bits());
    assert_eq!(h.snapshot(), bits(&[2.5, 3.0, 4.0]));
    assert_eq!(h.capacity(), 3);
}

#[test]
fn after_many_pushes_window_holds_the_last_ones_in_order() {
    let mut h = HistoryBuffer::new(5);
    for k in 0..23u32 {
        h.push((k as f32).to_bits());
        assert_eq!(h.capacity(), 5);
    }
    assert_eq!(h.snapshot(), bits(&[18.0, 19.0, 20.0, 21.0, 22.0]));
}

#[test]
fn latest_is_newest_sample() {
    let mut h = HistoryBuffer::new(2);
    assert_eq!(h.latest(), Some(0));
    h.push(7.25f32.to_bits());
    assert_eq!(h.latest(), Some(7.25f32.to_bits()));
}

#[test]
fn window_without_room_stays_empty() {
    let mut h = HistoryBuffer::new(0);
    h.push(1.0f32.to_bits());
    assert_eq!(h.capacity(), 0);
    assert_eq!(h.snapshot(), Vec::<u32>::new());
    assert_eq!(h.latest(), None);
}

#[test]
fn resize_growth_pads_zeros_in_front() {
    let mut h = HistoryBuffer::new(3);
    h.push(1.0f32.to_bits());
    h.push(2.0f32.to_bits());
    h.push(3.0f32.to_bits());
    h.resize(5);
    assert_eq!(h.snapshot(), bits(&[0.0, 0.0, 1.0, 2.0, 3.0]));
}

#[test]
fn resize_shrink_keeps_the_newest() {
    let mut h = HistoryBuffer::new(4);
    for v in [1.0f32, 2.0, 3.0, 4.0] {
        h.push(v.to_bits());
    }
    h.resize(2);
    assert_eq!(h.snapshot(), bits(&[3.0, 4.0]));
    h.resize(2);
    assert_eq!(h.snapshot(), bits(&[3.0, 4.0]));
    h.resize(0);
    assert_eq!(h.snapshot(), Vec::<u32>::new());
}

#[test]
fn resize_then_push_keeps_new_length() {
    let mut h = HistoryBuffer::new(2);
    h.push(9.0f32.to_bits());
    h.resize(4);
    h.push(10.0f32.to_bits());
    assert_eq!(h.snapshot(), bits(&[0.0, 0.0, 9.0, 10.0]));
}
