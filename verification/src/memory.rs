//! The installed memory in detail, read from the output of the tool that
//! lists the memory devices of the board.
//!
//! The output has one section per device, each after the words
//! `Memory Device`. A section of an empty slot is passed over. The kind and
//! the speed are those of the first section that names them.

use crate::details::{MemoryDetailedInfo, MemoryDetailedInfoView};
use crate::monitor::SystemMonitor;
use crate::text::{
    chars_of, contains_chars, contains_text, lines, nth_piece, pieces, same_chars, split_chars,
    split_lines, starts_with_chars, string_of, trim_chars, trimmed, views,
};
use vstd::prelude::*;
use vstd::string::*;

verus! {

/// How a run of the tool that lists the memory devices ended.
#[derive(Debug)]
pub enum DmiRun {
    /// The tool could not be started.
    NotStarted,
    /// The tool ran: whether it reported success, and what it wrote.
    Finished { success: bool, stdout: String },
}

/// The plain content of a [`DmiRun`].
pub enum DmiRunView {
    NotStarted,
    Finished { success: bool, stdout: Seq<char> },
}

impl View for DmiRun {
    type V = DmiRunView;

    open spec fn view(&self) -> DmiRunView {
        match self {
            DmiRun::NotStarted => DmiRunView::NotStarted,
            DmiRun::Finished { success, stdout } => DmiRunView::Finished {
                success: *success,
                stdout: stdout@,
            },
        }
    }
}

/// What is known of the memory after some sections were read.
pub struct MemoryScan {
    pub memory_type: Seq<char>,
    pub speed: Seq<char>,
    pub module_count: nat,
}

/// The first line that starts with `key` once the whitespace around it is
/// taken away.
pub open spec fn first_with_trimmed_prefix(lines: Seq<Seq<char>>, key: Seq<char>) -> Option<
    Seq<char>,
>
    decreases lines.len(),
{
    if lines.len() == 0 {
        None
    } else if key.is_prefix_of(trimmed(lines[0])) {
        Some(lines[0])
    } else {
        first_with_trimmed_prefix(lines.drop_first(), key)
    }
}

/// What stands between the first colon of a line and its second, without
/// the whitespace around it; empty where the line has no colon.
pub open spec fn after_colon(line: Seq<char>) -> Seq<char> {
    trimmed(
        match nth_piece(line, ":"@, 1) {
            Some(v) => v,
            None => Seq::empty(),
        },
    )
}

/// What is known after one more section was read.
pub open spec fn scan_device(scan: MemoryScan, device: Seq<char>) -> MemoryScan {
    if contains_text(device, "Size: No Module Installed"@) {
        scan
    } else {
        MemoryScan {
            memory_type: if scan.memory_type == "Unknown"@ {
                match first_with_trimmed_prefix(lines(device), "Type:"@) {
                    Some(line) => after_colon(line),
                    None => scan.memory_type,
                }
            } else {
                scan.memory_type
            },
            speed: if scan.speed == "Unknown"@ {
                match first_with_trimmed_prefix(lines(device), "Speed:"@) {
                    Some(line) => if after_colon(line) != "Unknown"@ {
                        after_colon(line)
                    } else {
                        scan.speed
                    },
                    None => scan.speed,
                }
            } else {
                scan.speed
            },
            module_count: scan.module_count + 1,
        }
    }
}

/// What is known before any section was read.
pub open spec fn empty_scan() -> MemoryScan {
    MemoryScan { memory_type: "Unknown"@, speed: "Unknown"@, module_count: 0 }
}

/// What is known after the sections `sections[1..count]` were read, in
/// order. The piece before the first section is no section.
pub open spec fn scan_sections(sections: Seq<Seq<char>>, count: nat) -> MemoryScan
    decreases count,
{
    if count <= 1 {
        empty_scan()
    } else {
        scan_device(scan_sections(sections, (count - 1) as nat), sections[count - 1])
    }
}

/// What a run of the tool tells of the memory. A run that reported failure
/// tells that elevation is required.
pub open spec fn scan_of_run(run: DmiRunView) -> MemoryScan {
    match run {
        DmiRunView::NotStarted => empty_scan(),
        DmiRunView::Finished { success, stdout } => if success {
            scan_sections(pieces(stdout, "Memory Device"@), pieces(stdout, "Memory Device"@).len())
        } else {
            MemoryScan { memory_type: "Root required"@, speed: "Root required"@, module_count: 0 }
        },
    }
}

/// A count of modules as the record holds it: the count, or the largest
/// number that the record can hold.
pub open spec fn count_held(count: nat) -> u32 {
    if count <= u32::MAX {
        count as u32
    } else {
        u32::MAX
    }
}

/// The record of the memory. The number of channels is taken to be the
/// number of modules.
pub open spec fn memory_detail_of(
    total_capacity: Seq<char>,
    used_capacity: Seq<char>,
    run: DmiRunView,
) -> MemoryDetailedInfoView {
    let scan = scan_of_run(run);
    MemoryDetailedInfoView {
        total_capacity,
        used_capacity,
        memory_type: scan.memory_type,
        speed: scan.speed,
        channels: count_held(scan.module_count),
        module_count: count_held(scan.module_count),
    }
}

fn find_trimmed_prefix(lines: &Vec<Vec<char>>, key: &Vec<char>) -> (r: Option<usize>)
    ensures
        match r {
            Some(i) => i < lines.len() && first_with_trimmed_prefix(views(lines@), key@) == Some(
                lines@[i as int]@,
            ),
            None => first_with_trimmed_prefix(views(lines@), key@) is None,
        },
{
    let ghost all = views(lines@);
    let mut i: usize = 0;
    assert(all.subrange(0, all.len() as int) == all);
    while i < lines.len()
        invariant
            i <= lines.len(),
            all == views(lines@),
            first_with_trimmed_prefix(all, key@) == first_with_trimmed_prefix(
                all.subrange(i as int, all.len() as int),
                key@,
            ),
        decreases lines.len() - i,
    {
        let ghost rest = all.subrange(i as int, all.len() as int);
        assert(rest[0] == lines@[i as int]@);
        assert(rest.drop_first() == all.subrange(i + 1, all.len() as int));
        if starts_with_chars(&trim_chars(&lines[i]), key) {
            return Some(i);
        }
        i = i + 1;
    }
    None
}

fn value_after_colon(line: &Vec<char>) -> (value: Vec<char>)
    ensures
        value@ == after_colon(line@),
{
    let colon = chars_of(":");
    let mut parts = split_chars(line, &colon);
    if parts.len() >= 2 {
        assert(views(parts@)[1] == parts@[1]@);
        trim_chars(&parts.swap_remove(1))
    } else {
        let none: Vec<char> = Vec::new();
        assert(none@ == Seq::<char>::empty());
        trim_chars(&none)
    }
}

/// Reads the sections of the tool's output: the kind of the memory, its
/// speed, and the number of modules.
pub fn scan_memory_devices(stdout: &str) -> (found: (String, String, u32))
    ensures
        ({
            let sections = pieces(stdout@, "Memory Device"@);
            let scan = scan_sections(sections, sections.len());
            &&& found.0@ == scan.memory_type
            &&& found.1@ == scan.speed
            &&& found.2 == count_held(scan.module_count)
        }),
{
    let text = chars_of(stdout);
    let marker = chars_of("Memory Device");
    let empty_slot = chars_of("Size: No Module Installed");
    let type_key = chars_of("Type:");
    let speed_key = chars_of("Speed:");
    let unknown = chars_of("Unknown");
    let sections = split_chars(&text, &marker);
    let mut memory_type: Vec<char> = chars_of("Unknown");
    let mut speed: Vec<char> = chars_of("Unknown");
    let mut count: u32 = 0;
    let ghost all = views(sections@);
    let mut i: usize = 1;
    assert(all.len() >= 1);
    assert(sections.len() == all.len());
    while i < sections.len()
        invariant
            1 <= i <= sections.len(),
            all == views(sections@),
            all == pieces(stdout@, "Memory Device"@),
            empty_slot@ == "Size: No Module Installed"@,
            type_key@ == "Type:"@,
            speed_key@ == "Speed:"@,
            unknown@ == "Unknown"@,
            memory_type@ == scan_sections(all, i as nat).memory_type,
            speed@ == scan_sections(all, i as nat).speed,
            count == count_held(scan_sections(all, i as nat).module_count),
        decreases sections.len() - i,
    {
        let device = &sections[i];
        assert(all[i as int] == device@);
        if !contains_chars(device, &empty_slot) {
            let table = split_lines(device);
            if same_chars(&memory_type, &unknown) {
                match find_trimmed_prefix(&table, &type_key) {
                    Some(k) => {
                        memory_type = value_after_colon(&table[k]);
                    },
                    None => {},
                }
            }
            if same_chars(&speed, &unknown) {
                match find_trimmed_prefix(&table, &speed_key) {
                    Some(k) => {
                        let value = value_after_colon(&table[k]);
                        if !same_chars(&value, &unknown) {
                            speed = value;
                        }
                    },
                    None => {},
                }
            }
            if count < u32::MAX {
                count = count + 1;
            }
        }
        i = i + 1;
    }
    (string_of(&memory_type), string_of(&speed), count)
}

/// The record of the memory, from the capacities as shown and from the run
/// of the tool.
pub fn memory_detail(total_capacity: String, used_capacity: String, run: &DmiRun) -> (detail:
    MemoryDetailedInfo)
    ensures
        detail@ == memory_detail_of(total_capacity@, used_capacity@, run@),
{
    let (memory_type, speed, module_count) = match run {
        DmiRun::NotStarted => (String::from_str("Unknown"), String::from_str("Unknown"), 0),
        DmiRun::Finished { success, stdout } => {
            if *success {
                scan_memory_devices(stdout.as_str())
            } else {
                (String::from_str("Root required"), String::from_str("Root required"), 0)
            }
        },
    };
    MemoryDetailedInfo {
        total_capacity,
        used_capacity,
        memory_type,
        speed,
        channels: module_count,
        module_count,
    }
}

impl SystemMonitor {
    /// The record of the memory, from the capacities as shown and from the
    /// run of the tool.
    pub fn get_memory_detailed_info(
        &self,
        total_capacity: String,
        used_capacity: String,
        run: &DmiRun,
    ) -> (detail: MemoryDetailedInfo)
        ensures
            detail@ == memory_detail_of(total_capacity@, used_capacity@, run@),
    {
        memory_detail(total_capacity, used_capacity, run)
    }
}

} // verus!
