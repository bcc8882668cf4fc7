//! Text primitives over sequences of characters: trimming, searching,
//! splitting, and reading and writing decimal numbers.
//!
//! Every function is specified over `Seq<char>`, the view of a string. The
//! executable versions work on `Vec<char>` so that positions are character
//! positions.

use vstd::prelude::*;

verus! {

/// `String::push` appends one character.
pub assume_specification[ String::push ](s: &mut String, c: char)
    ensures
        final(s)@ == old(s)@.push(c),
;

/// The characters of `s`, in order.
pub fn chars_of(s: &str) -> (out: Vec<char>)
    ensures
        out@ == s@,
{
    let mut out: Vec<char> = Vec::new();
    for c in it: s.chars()
        invariant
            out@ == it.seq().subrange(0, it.index() as int),
            it.seq() == s@,
    {
        out.push(c);
    }
    out
}

/// The string made of `chars[from..to]`.
pub fn string_of_range(chars: &Vec<char>, from: usize, to: usize) -> (out: String)
    requires
        from <= to <= chars.len(),
    ensures
        out@ == chars@.subrange(from as int, to as int),
{
    let mut out = String::new();
    let mut i: usize = from;
    while i < to
        invariant
            from <= i <= to <= chars.len(),
            out@ == chars@.subrange(from as int, i as int),
        decreases to - i,
    {
        out.push(chars[i]);
        i = i + 1;
    }
    out
}

/// The string made of `chars`.
pub fn string_of(chars: &Vec<char>) -> (out: String)
    ensures
        out@ == chars@,
{
    let out = string_of_range(chars, 0, chars.len());
    assert(chars@.subrange(0, chars@.len() as int) == chars@);
    out
}

/// A copy of `chars[from..to]`.
pub fn copy_range(chars: &Vec<char>, from: usize, to: usize) -> (out: Vec<char>)
    requires
        from <= to <= chars.len(),
    ensures
        out@ == chars@.subrange(from as int, to as int),
{
    let mut out: Vec<char> = Vec::new();
    let mut i: usize = from;
    while i < to
        invariant
            from <= i <= to <= chars.len(),
            out@ == chars@.subrange(from as int, i as int),
        decreases to - i,
    {
        out.push(chars[i]);
        i = i + 1;
    }
    out
}

/// Whether `a` and `b` hold the same characters.
pub fn same_chars(a: &Vec<char>, b: &Vec<char>) -> (same: bool)
    ensures
        same == (a@ == b@),
{
    if a.len() != b.len() {
        return false;
    }
    let mut i: usize = 0;
    while i < a.len()
        invariant
            i <= a.len(),
            a.len() == b.len(),
            a@.subrange(0, i as int) == b@.subrange(0, i as int),
        decreases a.len() - i,
    {
        if a[i] != b[i] {
            return false;
        }
        assert(a@.subrange(0, i + 1) == a@.subrange(0, i as int).push(a@[i as int]));
        assert(b@.subrange(0, i + 1) == b@.subrange(0, i as int).push(b@[i as int]));
        i = i + 1;
    }
    assert(a@.subrange(0, a@.len() as int) == a@);
    assert(b@.subrange(0, b@.len() as int) == b@);
    true
}

// ---------------------------------------------------------------------------
// Whitespace

/// The characters with the Unicode property `White_Space`.
pub open spec fn is_space(c: char) -> bool {
    let u = c as u32;
    ||| 0x09 <= u <= 0x0D
    ||| u == 0x20
    ||| u == 0x85
    ||| u == 0xA0
    ||| u == 0x1680
    ||| 0x2000 <= u <= 0x200A
    ||| u == 0x2028
    ||| u == 0x2029
    ||| u == 0x202F
    ||| u == 0x205F
    ||| u == 0x3000
}

/// Number of whitespace characters at the start of `s[from..]`.
pub open spec fn leading_spaces(s: Seq<char>, from: int) -> int
    decreases s.len() - from,
{
    if 0 <= from < s.len() && is_space(s[from]) {
        1 + leading_spaces(s, from + 1)
    } else {
        0
    }
}

/// Number of whitespace characters at the end of `s[..to]`.
pub open spec fn trailing_spaces(s: Seq<char>, to: int) -> int
    decreases to,
{
    if 0 < to <= s.len() && is_space(s[to - 1]) {
        1 + trailing_spaces(s, to - 1)
    } else {
        0
    }
}

/// `s` without the whitespace at its start.
pub open spec fn trimmed_start(s: Seq<char>) -> Seq<char> {
    s.subrange(leading_spaces(s, 0), s.len() as int)
}

/// `s` without the whitespace at its start and at its end.
pub open spec fn trimmed(s: Seq<char>) -> Seq<char> {
    let t = trimmed_start(s);
    t.subrange(0, t.len() - trailing_spaces(t, t.len() as int))
}

/// Whether `c` is whitespace.
pub fn is_space_char(c: char) -> (r: bool)
    ensures
        r == is_space(c),
{
    let u: u32 = c as u32;
    (0x09 <= u && u <= 0x0D) || u == 0x20 || u == 0x85 || u == 0xA0 || u == 0x1680 || (0x2000 <= u
        && u <= 0x200A) || u == 0x2028 || u == 0x2029 || u == 0x202F || u == 0x205F || u == 0x3000
}

/// First position at or after `from` that holds no whitespace.
pub fn skip_spaces(s: &Vec<char>, from: usize) -> (pos: usize)
    requires
        from <= s.len(),
    ensures
        pos == from + leading_spaces(s@, from as int),
        from <= pos <= s.len(),
{
    let mut pos: usize = from;
    while pos < s.len() && is_space_char(s[pos])
        invariant
            from <= pos <= s.len(),
            from + leading_spaces(s@, from as int) == pos + leading_spaces(s@, pos as int),
        decreases s.len() - pos,
    {
        pos = pos + 1;
    }
    pos
}

/// `s` without the whitespace at both ends.
pub fn trim_chars(s: &Vec<char>) -> (out: Vec<char>)
    ensures
        out@ == trimmed(s@),
{
    let start = skip_spaces(s, 0);
    let mut end: usize = s.len();
    let ghost t = trimmed_start(s@);
    while end > start && is_space_char(s[end - 1])
        invariant
            start <= end <= s.len(),
            t == s@.subrange(start as int, s.len() as int),
            trailing_spaces(t, t.len() as int) == (s.len() - end) + trailing_spaces(
                t,
                end - start,
            ),
        decreases end,
    {
        assert(t[end - start - 1] == s@[end - 1]);
        end = end - 1;
    }
    proof {
        if end > start {
            assert(t[end - start - 1] == s@[end - 1]);
        }
        assert(trailing_spaces(t, end - start) == 0);
        assert(t.subrange(0, end - start) == s@.subrange(start as int, end as int));
    }
    copy_range(s, start, end)
}

/// `s` without the whitespace at both ends, as `str::trim` gives it.
pub fn trim(s: &str) -> (out: String)
    ensures
        out@ == trimmed(s@),
{
    let chars = chars_of(s);
    let kept = trim_chars(&chars);
    string_of(&kept)
}

// ---------------------------------------------------------------------------
// Searching

/// Whether `pat` stands in `s` at position `i`.
pub open spec fn occurs_at(s: Seq<char>, pat: Seq<char>, i: int) -> bool {
    0 <= i && i + pat.len() <= s.len() && s.subrange(i, i + pat.len()) == pat
}

/// The first position at or after `from` where `pat` stands in `s`.
pub open spec fn first_from(s: Seq<char>, pat: Seq<char>, from: int) -> Option<int>
    decreases s.len() - from,
{
    if from < 0 || from + pat.len() > s.len() {
        None
    } else if occurs_at(s, pat, from) {
        Some(from)
    } else if from < s.len() {
        first_from(s, pat, from + 1)
    } else {
        None
    }
}

/// Whether `pat` stands somewhere in `s`.
pub open spec fn contains_text(s: Seq<char>, pat: Seq<char>) -> bool {
    first_from(s, pat, 0) is Some
}

/// What `first_from` finds is an occurrence, and none starts between `from`
/// and it; where it finds nothing there is none at or after `from`.
pub proof fn lemma_first_from(s: Seq<char>, pat: Seq<char>, from: int)
    requires
        0 <= from,
    ensures
        match first_from(s, pat, from) {
            Some(i) => from <= i && occurs_at(s, pat, i) && forall|j: int|
                from <= j < i ==> !occurs_at(s, pat, j),
            None => forall|j: int| from <= j ==> !occurs_at(s, pat, j),
        },
    decreases s.len() - from,
{
    if from + pat.len() > s.len() {
    } else if occurs_at(s, pat, from) {
    } else if from < s.len() {
        lemma_first_from(s, pat, from + 1);
    }
}

/// Whether `pat` stands in `s` at position `i`.
pub fn matches_at(s: &Vec<char>, pat: &Vec<char>, i: usize) -> (r: bool)
    ensures
        r == occurs_at(s@, pat@, i as int),
{
    if pat.len() > s.len() || i > s.len() - pat.len() {
        return false;
    }
    let mut k: usize = 0;
    while k < pat.len()
        invariant
            k <= pat.len(),
            i + pat.len() <= s.len(),
            forall|j: int| 0 <= j < k ==> s@[i + j] == pat@[j],
        decreases pat.len() - k,
    {
        if s[i + k] != pat[k] {
            assert(s@.subrange(i as int, i + pat.len())[k as int] == s@[i + k]);
            return false;
        }
        k = k + 1;
    }
    assert(s@.subrange(i as int, i + pat.len()) =~= pat@);
    true
}

/// Whether `s` starts with `pat`.
pub fn starts_with_chars(s: &Vec<char>, pat: &Vec<char>) -> (r: bool)
    ensures
        r == pat@.is_prefix_of(s@),
{
    matches_at(s, pat, 0)
}

/// The first position at or after `from` where `pat` stands in `s`.
pub fn find_from(s: &Vec<char>, pat: &Vec<char>, from: usize) -> (r: Option<usize>)
    ensures
        match r {
            Some(i) => first_from(s@, pat@, from as int) == Some(i as int),
            None => first_from(s@, pat@, from as int) is None,
        },
{
    if pat.len() > s.len() || from > s.len() - pat.len() {
        return None;
    }
    let last: usize = s.len() - pat.len();
    let mut i: usize = from;
    loop
        invariant
            from <= i <= last,
            last == s.len() - pat.len(),
            first_from(s@, pat@, from as int) == first_from(s@, pat@, i as int),
        decreases last - i,
    {
        if matches_at(s, pat, i) {
            return Some(i);
        }
        if i == last {
            assert(first_from(s@, pat@, i + 1) is None);
            return None;
        }
        i = i + 1;
    }
}

/// Whether `pat` stands somewhere in `s`.
pub fn contains_chars(s: &Vec<char>, pat: &Vec<char>) -> (r: bool)
    ensures
        r == contains_text(s@, pat@),
{
    find_from(s, pat, 0).is_some()
}

/// Whether `s` starts with `pat`, as `str::starts_with` tells.
pub fn starts_with(s: &str, pat: &str) -> (r: bool)
    ensures
        r == pat@.is_prefix_of(s@),
{
    let text = chars_of(s);
    let p = chars_of(pat);
    starts_with_chars(&text, &p)
}

/// Whether `pat` stands somewhere in `s`, as `str::contains` tells.
pub fn contains(s: &str, pat: &str) -> (r: bool)
    ensures
        r == contains_text(s@, pat@),
{
    let text = chars_of(s);
    let p = chars_of(pat);
    contains_chars(&text, &p)
}

// ---------------------------------------------------------------------------
// Splitting

/// The views of a list of character vectors.
pub open spec fn views(v: Seq<Vec<char>>) -> Seq<Seq<char>> {
    v.map_values(|x: Vec<char>| x@)
}

/// The views of a list of strings.
pub open spec fn string_views(v: Seq<String>) -> Seq<Seq<char>> {
    v.map_values(|x: String| x@)
}

/// The pieces of `s[from..]` that lie between the occurrences of `pat`, found
/// from left to right without overlap. With an empty `pat` nothing is split.
pub open spec fn pieces_from(s: Seq<char>, pat: Seq<char>, from: int) -> Seq<Seq<char>>
    decreases s.len() - from,
{
    match first_from(s, pat, from) {
        Some(i) => if pat.len() > 0 && from <= i && i + pat.len() <= s.len() {
            seq![s.subrange(from, i)] + pieces_from(s, pat, i + pat.len())
        } else {
            seq![s.subrange(from, s.len() as int)]
        },
        None => seq![s.subrange(from, s.len() as int)],
    }
}

/// The pieces of `s` between the occurrences of `pat`, as `str::split` yields
/// them for a separator that is not empty.
pub open spec fn pieces(s: Seq<char>, pat: Seq<char>) -> Seq<Seq<char>> {
    pieces_from(s, pat, 0)
}

/// The piece of `s` with number `n`, counted from zero, if there are that many.
pub open spec fn nth_piece(s: Seq<char>, pat: Seq<char>, n: int) -> Option<Seq<char>> {
    if 0 <= n < pieces(s, pat).len() {
        Some(pieces(s, pat)[n])
    } else {
        None
    }
}

/// `s` without one carriage return at its end.
pub open spec fn without_cr(s: Seq<char>) -> Seq<char> {
    if s.len() > 0 && s.last() == '\r' {
        s.drop_last()
    } else {
        s
    }
}

/// The lines of `s[from..]`. A line ends at a line feed; the line feed, and a
/// carriage return just before it, are not part of the line. Text after the
/// last line feed is a line of its own unless it is empty.
pub open spec fn lines_from(s: Seq<char>, from: int) -> Seq<Seq<char>>
    decreases s.len() - from,
{
    if from < 0 || from >= s.len() {
        Seq::empty()
    } else {
        match first_from(s, seq!['\n'], from) {
            Some(i) => if from <= i < s.len() {
                seq![without_cr(s.subrange(from, i))] + lines_from(s, i + 1)
            } else {
                seq![s.subrange(from, s.len() as int)]
            },
            None => seq![s.subrange(from, s.len() as int)],
        }
    }
}

/// The lines of `s`, as `str::lines` yields them.
pub open spec fn lines(s: Seq<char>) -> Seq<Seq<char>> {
    lines_from(s, 0)
}

/// The pieces of `s` between the occurrences of `pat`.
pub fn split_chars(s: &Vec<char>, pat: &Vec<char>) -> (out: Vec<Vec<char>>)
    ensures
        views(out@) == pieces(s@, pat@),
{
    let mut out: Vec<Vec<char>> = Vec::new();
    let mut pos: usize = 0;
    if pat.len() == 0 {
        out.push(copy_range(s, 0, s.len()));
        assert(views(out@) =~= pieces(s@, pat@));
        return out;
    }
    loop
        invariant
            pos <= s.len(),
            pat.len() > 0,
            pieces(s@, pat@) == views(out@) + pieces_from(s@, pat@, pos as int),
        decreases s.len() - pos,
    {
        proof {
            lemma_first_from(s@, pat@, pos as int);
        }
        let ghost before = views(out@);
        match find_from(s, pat, pos) {
            Some(i) => {
                out.push(copy_range(s, pos, i));
                assert(views(out@) =~= before + seq![s@.subrange(pos as int, i as int)]);
                pos = i + pat.len();
            },
            None => {
                out.push(copy_range(s, pos, s.len()));
                assert(views(out@) =~= before + seq![s@.subrange(pos as int, s.len() as int)]);
                return out;
            },
        }
    }
}

/// The lines of `s`.
pub fn split_lines(s: &Vec<char>) -> (out: Vec<Vec<char>>)
    ensures
        views(out@) == lines(s@),
{
    let mut out: Vec<Vec<char>> = Vec::new();
    let mut pos: usize = 0;
    let mut newline: Vec<char> = Vec::new();
    newline.push('\n');
    assert(newline@ == seq!['\n']);
    while pos < s.len()
        invariant
            pos <= s.len(),
            newline@ == seq!['\n'],
            lines(s@) == views(out@) + lines_from(s@, pos as int),
        decreases s.len() - pos,
    {
        proof {
            lemma_first_from(s@, newline@, pos as int);
        }
        let ghost before = views(out@);
        match find_from(s, &newline, pos) {
            Some(i) => {
                let end: usize = if i > pos && s[i - 1] == '\r' {
                    i - 1
                } else {
                    i
                };
                out.push(copy_range(s, pos, end));
                proof {
                    let piece = s@.subrange(pos as int, i as int);
                    if i > pos {
                        assert(piece.last() == s@[i - 1]);
                    }
                    assert(without_cr(piece) == s@.subrange(pos as int, end as int));
                    assert(views(out@) =~= before + seq![without_cr(piece)]);
                }
                pos = i + 1;
            },
            None => {
                out.push(copy_range(s, pos, s.len()));
                assert(views(out@) =~= before + seq![s@.subrange(pos as int, s.len() as int)]);
                pos = s.len();
            },
        }
    }
    out
}

/// The first line of `lines` that starts with `key`.
pub open spec fn first_with_prefix(lines: Seq<Seq<char>>, key: Seq<char>) -> Option<Seq<char>>
    decreases lines.len(),
{
    if lines.len() == 0 {
        None
    } else if key.is_prefix_of(lines[0]) {
        Some(lines[0])
    } else {
        first_with_prefix(lines.drop_first(), key)
    }
}

/// Position of the first line at or after `from` that starts with `key`.
pub fn find_line_with_prefix(lines: &Vec<Vec<char>>, key: &Vec<char>) -> (r: Option<usize>)
    ensures
        match r {
            Some(i) => i < lines.len() && first_with_prefix(views(lines@), key@) == Some(
                lines@[i as int]@,
            ),
            None => first_with_prefix(views(lines@), key@) is None,
        },
{
    let mut i: usize = 0;
    assert(views(lines@).subrange(0, lines.len() as int) == views(lines@));
    while i < lines.len()
        invariant
            i <= lines.len(),
            first_with_prefix(views(lines@), key@) == first_with_prefix(
                views(lines@).subrange(i as int, lines.len() as int),
                key@,
            ),
        decreases lines.len() - i,
    {
        let ghost rest = views(lines@).subrange(i as int, lines.len() as int);
        assert(rest[0] == lines@[i as int]@);
        assert(rest.drop_first() == views(lines@).subrange(i + 1, lines.len() as int));
        if starts_with_chars(&lines[i], key) {
            return Some(i);
        }
        i = i + 1;
    }
    assert(views(lines@).subrange(i as int, lines.len() as int).len() == 0);
    None
}

/// Number of characters at the start of `s[from..]` that are no whitespace.
pub open spec fn leading_word(s: Seq<char>, from: int) -> int
    decreases s.len() - from,
{
    if 0 <= from < s.len() && !is_space(s[from]) {
        1 + leading_word(s, from + 1)
    } else {
        0
    }
}

/// The first run of characters of `s` that holds no whitespace, as the first
/// item of `str::split_whitespace` gives it.
pub open spec fn first_word(s: Seq<char>) -> Option<Seq<char>> {
    let start = leading_spaces(s, 0);
    if start >= s.len() {
        None
    } else {
        Some(s.subrange(start, start + leading_word(s, start)))
    }
}

/// The first run of characters of `s` that holds no whitespace.
pub fn first_word_chars(s: &Vec<char>) -> (r: Option<Vec<char>>)
    ensures
        match r {
            Some(w) => first_word(s@) == Some(w@),
            None => first_word(s@) is None,
        },
{
    let start = skip_spaces(s, 0);
    if start >= s.len() {
        return None;
    }
    let mut end: usize = start;
    while end < s.len() && !is_space_char(s[end])
        invariant
            start <= end <= s.len(),
            start + leading_word(s@, start as int) == end + leading_word(s@, end as int),
        decreases s.len() - end,
    {
        end = end + 1;
    }
    Some(copy_range(s, start, end))
}

// ---------------------------------------------------------------------------
// Numbers

/// Whether `c` is one of the digits `0` to `9`.
pub open spec fn is_digit(c: char) -> bool {
    0x30 <= c as u32 <= 0x39
}

/// The number that the digit `c` stands for.
pub open spec fn digit_value(c: char) -> nat {
    (c as u32 - 0x30) as nat
}

/// Whether `s` holds digits only.
pub open spec fn all_digits(s: Seq<char>) -> bool {
    forall|i: int| 0 <= i < s.len() ==> is_digit(#[trigger] s[i])
}

/// The number that the digits of `s` write in base ten.
pub open spec fn decimal_value(s: Seq<char>) -> nat
    decreases s.len(),
{
    if s.len() == 0 {
        0
    } else {
        decimal_value(s.drop_last()) * 10 + digit_value(s.last())
    }
}

/// `s` without one plus sign at its start.
pub open spec fn without_plus(s: Seq<char>) -> Seq<char> {
    if s.len() > 0 && s[0] == '+' {
        s.drop_first()
    } else {
        s
    }
}

/// The number that `s` writes, as `str::parse` reads it into an unsigned
/// integer type whose largest value is `max`: an optional plus sign, then at
/// least one digit and nothing else, and a value no larger than `max`.
pub open spec fn parsed_unsigned(s: Seq<char>, max: nat) -> Option<nat> {
    let d = without_plus(s);
    if d.len() > 0 && all_digits(d) && decimal_value(d) <= max {
        Some(decimal_value(d))
    } else {
        None
    }
}

/// A number written with more digits is at least as large as the number that
/// its first digits write.
pub proof fn lemma_decimal_value_grows(s: Seq<char>, i: int)
    requires
        0 <= i <= s.len(),
    ensures
        decimal_value(s.subrange(0, i)) <= decimal_value(s),
    decreases s.len(),
{
    if i == s.len() {
        assert(s.subrange(0, i) == s);
    } else {
        lemma_decimal_value_grows(s.drop_last(), i);
        assert(s.drop_last().subrange(0, i) == s.subrange(0, i));
    }
}

/// Reads an unsigned number no larger than `max`.
pub fn parse_unsigned(s: &Vec<char>, max: u64) -> (r: Option<u64>)
    ensures
        match r {
            Some(n) => parsed_unsigned(s@, max as nat) == Some(n as nat),
            None => parsed_unsigned(s@, max as nat) is None,
        },
{
    let start: usize = if s.len() > 0 && s[0] == '+' {
        1
    } else {
        0
    };
    let ghost d = without_plus(s@);
    assert(d == s@.subrange(start as int, s.len() as int));
    if start == s.len() {
        return None;
    }
    let mut acc: u64 = 0;
    let mut i: usize = start;
    while i < s.len()
        invariant
            start <= i <= s.len(),
            d == without_plus(s@),
            d == s@.subrange(start as int, s.len() as int),
            all_digits(d.subrange(0, i - start)),
            acc == decimal_value(d.subrange(0, i - start)),
            acc <= max,
        decreases s.len() - i,
    {
        let c: u32 = s[i] as u32;
        assert(d[i - start] == s@[i as int]);
        if c < 0x30 || c > 0x39 {
            assert(!is_digit(d[i - start]));
            return None;
        }
        let v: u64 = (c - 0x30) as u64;
        let ghost next = d.subrange(0, i - start + 1);
        proof {
            assert(next.drop_last() == d.subrange(0, i - start));
            assert(next.last() == s@[i as int]);
            lemma_decimal_value_grows(d, i - start + 1);
        }
        if acc > max / 10 || (acc == max / 10 && v > max % 10) {
            assert(decimal_value(next) > max);
            return None;
        }
        acc = acc * 10 + v;
        i = i + 1;
    }
    assert(d.subrange(0, d.len() as int) == d);
    Some(acc)
}

/// The character that writes the digit `d`.
pub open spec fn digit_char(d: nat) -> char {
    ((0x30 + d) as u8) as char
}

/// `n` written in base ten, without leading zeros.
pub open spec fn decimal_text(n: nat) -> Seq<char>
    decreases n,
{
    if n < 10 {
        seq![digit_char(n)]
    } else {
        decimal_text(n / 10).push(digit_char(n % 10))
    }
}

/// Appends `n`, written in base ten, to `out`.
pub fn push_decimal(out: &mut Vec<char>, n: u64)
    ensures
        final(out)@ == old(out)@ + decimal_text(n as nat),
    decreases n,
{
    if n >= 10 {
        push_decimal(out, n / 10);
    }
    let d: u8 = (n % 10) as u8;
    out.push((0x30 + d) as char);
    assert(out@ =~= old(out)@ + decimal_text(n as nat));
}

// ---------------------------------------------------------------------------
// Joining

/// The parts in order, with `sep` between each two, as `join` gives them.
pub open spec fn joined(parts: Seq<Seq<char>>, sep: Seq<char>) -> Seq<char>
    decreases parts.len(),
{
    if parts.len() == 0 {
        Seq::empty()
    } else if parts.len() == 1 {
        parts[0]
    } else {
        joined(parts.drop_last(), sep) + sep + parts.last()
    }
}

/// Appends `more` to `out`.
pub fn push_all(out: &mut Vec<char>, more: &Vec<char>)
    ensures
        final(out)@ == old(out)@ + more@,
{
    let mut i: usize = 0;
    while i < more.len()
        invariant
            i <= more.len(),
            out@ == old(out)@ + more@.subrange(0, i as int),
        decreases more.len() - i,
    {
        out.push(more[i]);
        i = i + 1;
    }
    assert(more@.subrange(0, more.len() as int) == more@);
}

/// Appends the characters of `more` to `out`.
pub fn push_str(out: &mut Vec<char>, more: &str)
    ensures
        final(out)@ == old(out)@ + more@,
{
    let chars = chars_of(more);
    push_all(out, &chars);
}

/// The parts in order, with `sep` between each two.
pub fn join_chars(parts: &Vec<Vec<char>>, sep: &Vec<char>) -> (out: Vec<char>)
    ensures
        out@ == joined(views(parts@), sep@),
{
    let mut out: Vec<char> = Vec::new();
    let mut i: usize = 0;
    while i < parts.len()
        invariant
            i <= parts.len(),
            out@ == joined(views(parts@).subrange(0, i as int), sep@),
        decreases parts.len() - i,
    {
        let ghost next = views(parts@).subrange(0, i + 1);
        assert(next.drop_last() == views(parts@).subrange(0, i as int));
        assert(next.last() == parts@[i as int]@);
        if i > 0 {
            push_all(&mut out, sep);
        }
        push_all(&mut out, &parts[i]);
        assert(out@ =~= joined(next, sep@));
        i = i + 1;
    }
    assert(views(parts@).subrange(0, parts.len() as int) == views(parts@));
    out
}

// ---------------------------------------------------------------------------
// Strings

/// The view of a string that may be missing.
pub open spec fn opt_text(text: Option<String>) -> Option<Seq<char>> {
    match text {
        Some(t) => Some(t@),
        None => None,
    }
}

/// A copy of a string that may be missing.
pub fn copy_opt_text(text: &Option<String>) -> (copy: Option<String>)
    ensures
        opt_text(copy) == opt_text(*text),
{
    match text {
        Some(t) => Some(t.clone()),
        None => None,
    }
}

/// A copy of `list`, string by string.
pub fn copy_strings(list: &Vec<String>) -> (copy: Vec<String>)
    ensures
        string_views(copy@) == string_views(list@),
{
    let mut copy: Vec<String> = Vec::new();
    let mut i: usize = 0;
    while i < list.len()
        invariant
            i <= list.len(),
            string_views(copy@) == string_views(list@).subrange(0, i as int),
        decreases list.len() - i,
    {
        let ghost before = string_views(copy@);
        copy.push(list[i].clone());
        assert(string_views(copy@) =~= before.push(list@[i as int]@));
        i = i + 1;
    }
    assert(string_views(list@).subrange(0, list.len() as int) == string_views(list@));
    copy
}

/// Whether `a` and `b` hold the same text.
pub fn equal_text(a: &str, b: &str) -> (same: bool)
    ensures
        same == (a@ == b@),
{
    let x = chars_of(a);
    let y = chars_of(b);
    same_chars(&x, &y)
}

/// Reads an unsigned number no larger than `max`, as `str::parse` reads it
/// into an unsigned integer type with that largest value.
pub fn parse_number(s: &str, max: u64) -> (r: Option<u64>)
    ensures
        match r {
            Some(n) => parsed_unsigned(s@, max as nat) == Some(n as nat),
            None => parsed_unsigned(s@, max as nat) is None,
        },
{
    let chars = chars_of(s);
    parse_unsigned(&chars, max)
}

/// `n` written in base ten, as `to_string` writes an unsigned integer.
pub fn decimal(n: u64) -> (out: String)
    ensures
        out@ == decimal_text(n as nat),
{
    let mut chars: Vec<char> = Vec::new();
    push_decimal(&mut chars, n);
    string_of(&chars)
}

} // verus!
