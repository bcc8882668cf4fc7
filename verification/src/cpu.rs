//! The processor in detail, read from the text of the processor table.
//!
//! The table has one `key : value` line per property. The first line that
//! starts with a key counts; its value is what stands between the first
//! colon and the second.

use crate::details::{CpuDetailedInfo, CpuDetailedInfoView};
use crate::history::Sample;
use crate::monitor::SystemMonitor;
use crate::text::{
    chars_of, contains_chars, contains_text, copy_opt_text, decimal_text, find_line_with_prefix,
    first_with_prefix, first_word, first_word_chars, join_chars, joined, lines, nth_piece,
    opt_text, parse_unsigned, parsed_unsigned, push_decimal, push_str, split_chars, split_lines,
    string_of, trim, trim_chars, trimmed, views,
};
use vstd::prelude::*;
use vstd::string::*;

verus! {

/// What was read about the processor: the text of the processor table,
/// clock rates in GHz, the sizes of three caches as
/// read, and the architecture. A cache size is `None` where the read failed.
#[derive(Debug)]
pub struct CpuFacts {
    pub cpuinfo: String,
    pub frequency_current: Sample,
    pub frequency_max: Sample,
    pub frequency_min: Sample,
    pub cache_l1d: Option<String>,
    pub cache_l1i: Option<String>,
    pub cache_l2: Option<String>,
    pub architecture: String,
}

/// The plain content of a [`CpuFacts`].
pub struct CpuFactsView {
    pub cpuinfo: Seq<char>,
    pub frequency_current: Sample,
    pub frequency_max: Sample,
    pub frequency_min: Sample,
    pub cache_l1d: Option<Seq<char>>,
    pub cache_l1i: Option<Seq<char>>,
    pub cache_l2: Option<Seq<char>>,
    pub architecture: Seq<char>,
}

impl View for CpuFacts {
    type V = CpuFactsView;

    open spec fn view(&self) -> CpuFactsView {
        CpuFactsView {
            cpuinfo: self.cpuinfo@,
            frequency_current: self.frequency_current,
            frequency_max: self.frequency_max,
            frequency_min: self.frequency_min,
            cache_l1d: opt_text(self.cache_l1d),
            cache_l1i: opt_text(self.cache_l1i),
            cache_l2: opt_text(self.cache_l2),
            architecture: self.architecture@,
        }
    }
}

impl Clone for CpuFacts {
    fn clone(&self) -> (copy: Self)
        ensures
            copy@ == self@,
    {
        CpuFacts {
            cpuinfo: self.cpuinfo.clone(),
            frequency_current: self.frequency_current,
            frequency_max: self.frequency_max,
            frequency_min: self.frequency_min,
            cache_l1d: copy_opt_text(&self.cache_l1d),
            cache_l1i: copy_opt_text(&self.cache_l1i),
            cache_l2: copy_opt_text(&self.cache_l2),
            architecture: self.architecture.clone(),
        }
    }
}

/// The value of the first line of the table that starts with `key`: what
/// stands between its first colon and its second. `None` where no line
/// starts with `key` or that line has no colon.
pub open spec fn table_value(table: Seq<Seq<char>>, key: Seq<char>) -> Option<Seq<char>> {
    match first_with_prefix(table, key) {
        Some(line) => nth_piece(line, ":"@, 1),
        None => None,
    }
}

/// A value of the table without the whitespace around it, or `fallback`
/// where the table has none.
pub open spec fn table_text(table: Seq<Seq<char>>, key: Seq<char>, fallback: Seq<char>) -> Seq<
    char,
> {
    match table_value(table, key) {
        Some(v) => trimmed(v),
        None => fallback,
    }
}

/// The number of physical cores: what the table says, or the number of
/// logical cores where it says nothing that is a number.
pub open spec fn physical_cores_of(table: Seq<Seq<char>>, logical: usize) -> usize {
    match table_value(table, "cpu cores"@) {
        Some(v) => match parsed_unsigned(trimmed(v), usize::MAX as nat) {
            Some(n) => n as usize,
            None => logical,
        },
        None => logical,
    }
}

/// The cache size in KB that the table gives: the first word of the value,
/// or zero where that is no number.
pub open spec fn cache_kb_of(table: Seq<Seq<char>>) -> usize {
    match table_value(table, "cache size"@) {
        Some(v) => match first_word(v) {
            Some(w) => match parsed_unsigned(w, usize::MAX as nat) {
                Some(n) => n as usize,
                None => 0,
            },
            None => 0,
        },
        None => 0,
    }
}

/// The size of the last-level cache as shown.
pub open spec fn cache_l3_of(table: Seq<Seq<char>>) -> Seq<char> {
    if cache_kb_of(table) > 0 {
        decimal_text(cache_kb_of(table) as nat) + " KB"@
    } else {
        "N/A"@
    }
}

/// The line of capability flags, or the empty text where there is none.
pub open spec fn flags_line_of(table: Seq<Seq<char>>) -> Seq<char> {
    match first_with_prefix(table, "flags"@) {
        Some(line) => line,
        None => Seq::empty(),
    }
}

/// The virtualisation support that the flags tell.
pub open spec fn virtualization_of(flags: Seq<char>) -> Seq<char> {
    if contains_text(flags, "vmx"@) {
        "VT-x (Intel)"@
    } else if contains_text(flags, "svm"@) {
        "AMD-V (AMD)"@
    } else {
        "Not detected"@
    }
}

/// One name of an instruction set, where the flags hold its flag.
pub open spec fn flag_shown(flags: Seq<char>, flag: Seq<char>, shown: Seq<char>) -> Seq<
    Seq<char>,
> {
    if contains_text(flags, flag) {
        seq![shown]
    } else {
        Seq::empty()
    }
}

/// The names of the instruction sets that the flags hold, of the six that
/// are shown, in a fixed order.
pub open spec fn instruction_sets_of(flags: Seq<char>) -> Seq<Seq<char>> {
    flag_shown(flags, "sse4_2"@, "SSE4_2"@) + flag_shown(flags, "avx"@, "AVX"@) + flag_shown(
        flags,
        "avx2"@,
        "AVX2"@,
    ) + flag_shown(flags, "avx512f"@, "AVX512F"@) + flag_shown(flags, "aes"@, "AES"@)
        + flag_shown(flags, "sha_ni"@, "SHA_NI"@)
}

/// The instruction sets as shown: their names with commas between, or
/// `Standard` where there is none.
pub open spec fn flags_shown_of(flags: Seq<char>) -> Seq<char> {
    if instruction_sets_of(flags).len() == 0 {
        "Standard"@
    } else {
        joined(instruction_sets_of(flags), ", "@)
    }
}

/// A cache size as read, without the whitespace around it, or `N/A` where
/// the read failed.
pub open spec fn cache_or_na(text: Option<Seq<char>>) -> Seq<char> {
    match text {
        Some(t) => trimmed(t),
        None => "N/A"@,
    }
}

/// The record of the processor.
pub open spec fn cpu_detail_of(facts: CpuFactsView, cores_logical: usize) -> CpuDetailedInfoView {
    let table = lines(facts.cpuinfo);
    CpuDetailedInfoView {
        name: table_text(table, "model name"@, "Unknown Processor"@),
        vendor: table_text(table, "vendor_id"@, "Unknown"@),
        architecture: facts.architecture,
        cores_physical: physical_cores_of(table, cores_logical),
        cores_logical,
        frequency_current: facts.frequency_current,
        frequency_max: facts.frequency_max,
        frequency_min: facts.frequency_min,
        cache_l1d: cache_or_na(facts.cache_l1d),
        cache_l1i: cache_or_na(facts.cache_l1i),
        cache_l2: cache_or_na(facts.cache_l2),
        cache_l3: cache_l3_of(table),
        virtualization: virtualization_of(flags_line_of(table)),
        flags: flags_shown_of(flags_line_of(table)),
    }
}

fn value_in_table(table: &Vec<Vec<char>>, key: &str) -> (value: Option<Vec<char>>)
    ensures
        match value {
            Some(v) => table_value(views(table@), key@) == Some(v@),
            None => table_value(views(table@), key@) is None,
        },
{
    let k = chars_of(key);
    match find_line_with_prefix(table, &k) {
        Some(i) => {
            let colon = chars_of(":");
            let mut parts = split_chars(&table[i], &colon);
            if parts.len() >= 2 {
                assert(views(parts@)[1] == parts@[1]@);
                Some(parts.swap_remove(1))
            } else {
                None
            }
        },
        None => None,
    }
}

fn text_in_table(table: &Vec<Vec<char>>, key: &str, fallback: &str) -> (text: String)
    ensures
        text@ == table_text(views(table@), key@, fallback@),
{
    match value_in_table(table, key) {
        Some(v) => string_of(&trim_chars(&v)),
        None => String::from_str(fallback),
    }
}

fn physical_cores(table: &Vec<Vec<char>>, logical: usize) -> (cores: usize)
    ensures
        cores == physical_cores_of(views(table@), logical),
{
    match value_in_table(table, "cpu cores") {
        Some(v) => match parse_unsigned(&trim_chars(&v), usize::MAX as u64) {
            Some(n) => n as usize,
            None => logical,
        },
        None => logical,
    }
}

fn cache_kb(table: &Vec<Vec<char>>) -> (kb: usize)
    ensures
        kb == cache_kb_of(views(table@)),
{
    match value_in_table(table, "cache size") {
        Some(v) => match first_word_chars(&v) {
            Some(w) => match parse_unsigned(&w, usize::MAX as u64) {
                Some(n) => n as usize,
                None => 0,
            },
            None => 0,
        },
        None => 0,
    }
}

fn cache_l3(table: &Vec<Vec<char>>) -> (text: String)
    ensures
        text@ == cache_l3_of(views(table@)),
{
    let kb = cache_kb(table);
    if kb > 0 {
        let mut out: Vec<char> = Vec::new();
        push_decimal(&mut out, kb as u64);
        push_str(&mut out, " KB");
        string_of(&out)
    } else {
        String::from_str("N/A")
    }
}

fn flags_line(table: &Vec<Vec<char>>) -> (line: Vec<char>)
    ensures
        line@ == flags_line_of(views(table@)),
{
    let k = chars_of("flags");
    match find_line_with_prefix(table, &k) {
        Some(i) => table[i].clone(),
        None => Vec::new(),
    }
}

fn has_flag(flags: &Vec<char>, flag: &str) -> (r: bool)
    ensures
        r == contains_text(flags@, flag@),
{
    let f = chars_of(flag);
    contains_chars(flags, &f)
}

/// The virtualisation support that the flags tell.
fn virtualization(flags: &Vec<char>) -> (text: String)
    ensures
        text@ == virtualization_of(flags@),
{
    if has_flag(flags, "vmx") {
        String::from_str("VT-x (Intel)")
    } else if has_flag(flags, "svm") {
        String::from_str("AMD-V (AMD)")
    } else {
        String::from_str("Not detected")
    }
}

fn show_flag(shown_sets: &mut Vec<Vec<char>>, flags: &Vec<char>, flag: &str, shown: &str)
    ensures
        views(final(shown_sets)@) == views(old(shown_sets)@) + flag_shown(flags@, flag@, shown@),
{
    if has_flag(flags, flag) {
        shown_sets.push(chars_of(shown));
        assert(views(shown_sets@) =~= views(old(shown_sets)@) + seq![shown@]);
    } else {
        assert(views(shown_sets@) =~= views(old(shown_sets)@) + Seq::<Seq<char>>::empty());
    }
}

fn flags_shown(flags: &Vec<char>) -> (text: String)
    ensures
        text@ == flags_shown_of(flags@),
{
    let mut sets: Vec<Vec<char>> = Vec::new();
    assert(views(sets@) =~= Seq::<Seq<char>>::empty());
    show_flag(&mut sets, flags, "sse4_2", "SSE4_2");
    show_flag(&mut sets, flags, "avx", "AVX");
    show_flag(&mut sets, flags, "avx2", "AVX2");
    show_flag(&mut sets, flags, "avx512f", "AVX512F");
    show_flag(&mut sets, flags, "aes", "AES");
    show_flag(&mut sets, flags, "sha_ni", "SHA_NI");
    assert(views(sets@) =~= instruction_sets_of(flags@));
    if sets.len() == 0 {
        String::from_str("Standard")
    } else {
        let comma = chars_of(", ");
        string_of(&join_chars(&sets, &comma))
    }
}

fn cache_text(text: &Option<String>) -> (out: String)
    ensures
        out@ == cache_or_na(opt_text(*text)),
{
    match text {
        Some(t) => trim(t.as_str()),
        None => String::from_str("N/A"),
    }
}

/// The record of a processor of `cores_logical` logical cores, from what was
/// read about it.
pub fn cpu_detail(facts: &CpuFacts, cores_logical: usize) -> (detail: CpuDetailedInfo)
    ensures
        detail@ == cpu_detail_of(facts@, cores_logical),
{
    let text = chars_of(facts.cpuinfo.as_str());
    let table = split_lines(&text);
    let flags = flags_line(&table);
    CpuDetailedInfo {
        name: text_in_table(&table, "model name", "Unknown Processor"),
        vendor: text_in_table(&table, "vendor_id", "Unknown"),
        architecture: facts.architecture.clone(),
        cores_physical: physical_cores(&table, cores_logical),
        cores_logical,
        frequency_current: facts.frequency_current,
        frequency_max: facts.frequency_max,
        frequency_min: facts.frequency_min,
        cache_l1d: cache_text(&facts.cache_l1d),
        cache_l1i: cache_text(&facts.cache_l1i),
        cache_l2: cache_text(&facts.cache_l2),
        cache_l3: cache_l3(&table),
        virtualization: virtualization(&flags),
        flags: flags_shown(&flags),
    }
}

impl SystemMonitor {
    /// The record of the processor, from what was read about it. The number
    /// of logical cores is that of the latest reading.
    pub fn get_cpu_detailed_info(&self, facts: &CpuFacts) -> (detail: CpuDetailedInfo)
        ensures
            detail@ == cpu_detail_of(facts@, self@.latest.cpu_usage.len() as usize),
    {
        cpu_detail(facts, self.get_cpu_count())
    }
}

} // verus!
