use gjallarhorn::stable_index::{name_comes_first, sorted_positions, stable_index};
use gjallarhorn::text::chars_of;

fn names(list: &[&str]) -> Vec<String> {
    list.iter().map(|s| s.to_string()).collect()
}

#[test]
fn index_does_not_depend_on_listing_order() {
    let a = stable_index(&names(&["eth0", "wlan0"]));
    let b = stable_index(&names(&["wlan0", "eth0"]));
    assert_eq!(a, b);
    assert_eq!(a, names(&["eth0", "wlan0"]));
}

#[test]
fn index_agrees_with_std_sort() {
    let lists: Vec<Vec<&str>> = vec![
        vec![],
        vec!["lo"],
        vec!["wlan0", "lo", "eth1", "eth0", "docker0", "br-12ab"],
        vec!["b", "a", "B", "A", "ab", "aB", ""],
        vec!["eth10", "eth2", "eth1"],
        vec!["é", "e", "z", "ß", "日本", "a"],
        vec!["x", "x", "a", "x"],
    ];
    for list in lists {
        let mut expected = names(&list);
        expected.sort();
        assert_eq!(stable_index(&names(&list)), expected);
        let mut reversed = names(&list);
        reversed.reverse();
        assert_eq!(stable_index(&reversed), expected);
    }
}

#[test]
fn order_of_names_agrees_with_std() {
    let all = ["", "a", "ab", "b", "B", "é", "e", "eth0", "eth1", "eth10", "z", "\u{10ffff}"];
    for a in all {
        for b in all {
            assert_eq!(name_comes_first(&chars_of(a), &chars_of(b)), a <= b, "{:?} <= {:?}", a, b);
        }
    }
}

#[test]
fn positions_are_stable_for_equal_keys() {
    let keys: Vec<Vec<char>> = ["b", "a", "b", "a", "c"].iter().map(|s| chars_of(s)).collect();
    assert_eq!(sorted_positions(&keys), vec![1, 3, 0, 2, 4]);
}
