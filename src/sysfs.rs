use vstd::prelude::*;
use vstd::slice::slice_subrange;
use crate::text::{
    i32_of, next_non_space, next_space, parse_i32, parse_u64, skip_spaces, skip_word, trim_bounds,
    trimmed, u64_of,
};

verus! {

/// The reading of a thermal-zone file: an integer count of thousandths of a
/// degree Celsius, with white space around it.
pub open spec fn zone_millidegrees(content: Seq<u8>) -> Option<i32> {
    i32_of(trimmed(content))
}

/// The first of `readings[i..]` that holds a temperature.
pub open spec fn first_zone_from(readings: Seq<Vec<u8>>, i: int) -> Option<i32>
    decreases readings.len() - i,
{
    if i < 0 || i >= readings.len() {
        None
    } else {
        match zone_millidegrees(readings[i]@) {
            Some(t) => Some(t),
            None => first_zone_from(readings, i + 1),
        }
    }
}

/// The temperature that one thermal-zone file holds.
pub fn parse_millidegrees(content: &[u8]) -> (r: Option<i32>)
    ensures
        r == zone_millidegrees(content@),
{
    let (a, b) = trim_bounds(content);
    parse_i32(content, a, b)
}

/// The processor temperature from the contents of the thermal-zone files
/// that could be read, in the order they are consulted: the first that holds
/// a temperature gives it, and none gives an absent temperature.
pub fn cpu_temperature(readings: &Vec<Vec<u8>>) -> (r: Option<i32>)
    ensures
        r == first_zone_from(readings@, 0),
        readings@.len() == 0 ==> r.is_none(),
{
    let mut i: usize = 0;
    while i < readings.len()
        invariant
            i <= readings@.len(),
            first_zone_from(readings@, i as int) == first_zone_from(readings@, 0),
        decreases readings@.len() - i,
    {
        match parse_millidegrees(readings[i].as_slice()) {
            Some(t) => {
                return Some(t);
            },
            None => {},
        }
        i = i + 1;
    }
    None
}

/// The current clock in hertz that a scaling-frequency file gives: an
/// unsigned count of kilohertz with white space around it, read as absent
/// where it is no such count or the product does not fit.
pub open spec fn frequency_hz_spec(content: Seq<u8>) -> Option<u64> {
    match u64_of(trimmed(content)) {
        Some(khz) => if khz * 1000 <= u64::MAX { Some((khz * 1000) as u64) } else { None },
        None => None,
    }
}

/// The current clock that one scaling-frequency file holds.
pub fn cpu_frequency(content: &[u8]) -> (r: Option<u64>)
    ensures
        r == frequency_hz_spec(content@),
{
    let (a, b) = trim_bounds(content);
    match parse_u64(content, a, b) {
        Some(khz) => khz.checked_mul(1000),
        None => None,
    }
}

/// The end of the line that starts at `i`: the next line feed, or the end.
pub open spec fn line_end(s: Seq<u8>, i: int) -> int
    decreases s.len() - i,
{
    if 0 <= i < s.len() && s[i] != 10 {
        line_end(s, i + 1)
    } else {
        i
    }
}

pub open spec fn has_prefix(line: Seq<u8>, key: Seq<u8>) -> bool {
    key.len() <= line.len() && line.subrange(0, key.len() as int) == key
}

/// The second white-space-separated word of `line`, if it has two.
pub open spec fn second_word(line: Seq<u8>) -> Option<Seq<u8>> {
    let b = skip_word(line, skip_spaces(line, 0));
    let c = skip_spaces(line, b);
    if c < line.len() {
        Some(line.subrange(c, skip_word(line, c)))
    } else {
        None
    }
}

/// A count of kibibytes in bytes; zero where the word is no count or the
/// product does not fit.
pub open spec fn kib_bytes(word: Seq<u8>) -> u64 {
    match u64_of(word) {
        Some(v) => if v * 1024 <= u64::MAX { (v * 1024) as u64 } else { 0 },
        None => 0,
    }
}

/// The bytes `Buffers:`.
pub open spec fn buffers_key() -> Seq<u8> {
    seq![66u8, 117, 102, 102, 101, 114, 115, 58]
}

/// The bytes `Cached:`.
pub open spec fn cached_key() -> Seq<u8> {
    seq![67u8, 97, 99, 104, 101, 100, 58]
}

/// The buffer and cache sizes after one line of the memory-information file:
/// a line that starts with the key of one of them and has a second word sets
/// it to that word's size; any other line changes nothing.
pub open spec fn apply_line(line: Seq<u8>, acc: (u64, u64)) -> (u64, u64) {
    if has_prefix(line, buffers_key()) {
        match second_word(line) {
            Some(w) => (kib_bytes(w), acc.1),
            None => acc,
        }
    } else if has_prefix(line, cached_key()) {
        match second_word(line) {
            Some(w) => (acc.0, kib_bytes(w)),
            None => acc,
        }
    } else {
        acc
    }
}

/// The buffer and cache sizes after the lines of `s` from position `i`.
pub open spec fn scan_lines(s: Seq<u8>, i: int, acc: (u64, u64)) -> (u64, u64)
    decreases s.len() + 1 - i,
{
    if 0 <= i < s.len() && i <= line_end(s, i) <= s.len() {
        scan_lines(s, line_end(s, i) + 1, apply_line(s.subrange(i, line_end(s, i)), acc))
    } else {
        acc
    }
}

fn line_end_from(s: &[u8], i: usize) -> (r: usize)
    requires
        i <= s@.len(),
    ensures
        r == line_end(s@, i as int),
        i <= r <= s@.len(),
{
    let mut j = i;
    while j < s.len() && s[j] != 10
        invariant
            i <= j <= s@.len(),
            line_end(s@, j as int) == line_end(s@, i as int),
        decreases s@.len() - j,
    {
        j = j + 1;
    }
    j
}

fn prefixed(line: &[u8], key: &[u8]) -> (r: bool)
    ensures
        r == has_prefix(line@, key@),
{
    if key.len() > line.len() {
        return false;
    }
    let mut k: usize = 0;
    while k < key.len()
        invariant
            k <= key@.len(),
            key@.len() <= line@.len(),
            forall|q: int| 0 <= q < k ==> line@[q] == key@[q],
        decreases key@.len() - k,
    {
        if line[k] != key[k] {
            assert(line@.subrange(0, key@.len() as int)[k as int] != key@[k as int]);
            return false;
        }
        k = k + 1;
    }
    assert(line@.subrange(0, key@.len() as int) =~= key@);
    true
}

/// The size that the second word of `line` gives, if it has one.
fn second_word_bytes(line: &[u8]) -> (r: Option<u64>)
    ensures
        r == (match second_word(line@) {
            Some(w) => Some(kib_bytes(w)),
            None => None::<u64>,
        }),
{
    let a = next_non_space(line, 0);
    let b = next_space(line, a);
    let c = next_non_space(line, b);
    if c < line.len() {
        let d = next_space(line, c);
        let bytes = match parse_u64(line, c, d) {
            Some(v) => match v.checked_mul(1024) {
                Some(x) => x,
                None => 0,
            },
            None => 0,
        };
        Some(bytes)
    } else {
        None
    }
}

/// The buffer and cache sizes, in bytes, that the memory-information file
/// gives on its `Buffers:` and `Cached:` lines, in kibibytes there; the last
/// such line of each counts, and each is zero where none gives it.
pub fn memory_details(content: &[u8]) -> (r: (u64, u64))
    ensures
        r == scan_lines(content@, 0, (0, 0)),
{
    let buffers_tag: [u8; 8] = [66, 117, 102, 102, 101, 114, 115, 58];
    let cached_tag: [u8; 7] = [67, 97, 99, 104, 101, 100, 58];
    assert(buffers_tag@ =~= buffers_key());
    assert(cached_tag@ =~= cached_key());
    let mut buffers: u64 = 0;
    let mut cached: u64 = 0;
    let mut i: usize = 0;
    while i < content.len()
        invariant
            i <= content@.len(),
            buffers_tag@ == buffers_key(),
            cached_tag@ == cached_key(),
            scan_lines(content@, i as int, (buffers, cached)) == scan_lines(content@, 0, (0, 0)),
        decreases content@.len() - i,
    {
        let ghost acc0 = (buffers, cached);
        let ghost i0 = i as int;
        let e = line_end_from(content, i);
        let line = slice_subrange(content, i, e);
        if prefixed(line, buffers_tag.as_slice()) {
            match second_word_bytes(line) {
                Some(v) => {
                    buffers = v;
                },
                None => {},
            }
        } else if prefixed(line, cached_tag.as_slice()) {
            match second_word_bytes(line) {
                Some(v) => {
                    cached = v;
                },
                None => {},
            }
        }
        assert((buffers, cached) == apply_line(content@.subrange(i0, e as int), acc0));
        assert(scan_lines(content@, i0, acc0) == scan_lines(content@, e + 1, (buffers, cached)));
        if e < content.len() {
            i = e + 1;
        } else {
            i = e;
        }
    }
    (buffers, cached)
}

} // verus!
