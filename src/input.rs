//! The pure part of prompting for a line: a line that was read is stored in a
//! buffer with its trailing whitespace removed.
use vstd::prelude::*;
use vstd::string::StrSliceExecFns;

verus! {

/// Unicode's `White_Space` property: the characters that `char::is_whitespace`
/// accepts.
pub open spec fn is_white_space(c: char) -> bool {
    let v = c as u32;
    ||| 0x09 <= v <= 0x0D
    ||| v == 0x20
    ||| v == 0x85
    ||| v == 0xA0
    ||| v == 0x1680
    ||| 0x2000 <= v <= 0x200A
    ||| v == 0x2028
    ||| v == 0x2029
    ||| v == 0x202F
    ||| v == 0x205F
    ||| v == 0x3000
}

/// `s` without its final run of whitespace; whitespace at the start or in the
/// interior stays.
pub open spec fn trim_end(s: Seq<char>) -> Seq<char>
    decreases s.len(),
{
    if s.len() > 0 && is_white_space(s.last()) {
        trim_end(s.drop_last())
    } else {
        s
    }
}

/// Whether `c` is a whitespace character.
pub fn is_white_space_char(c: char) -> (r: bool)
    ensures
        r == is_white_space(c),
{
    let v = c as u32;
    (0x09 <= v && v <= 0x0D) || v == 0x20 || v == 0x85 || v == 0xA0 || v == 0x1680 || (0x2000
        <= v && v <= 0x200A) || v == 0x2028 || v == 0x2029 || v == 0x202F || v == 0x205F || v
        == 0x3000
}

/// Number of characters of `s` that remain once its trailing whitespace is cut.
fn kept_len(s: &str) -> (k: usize)
    ensures
        k <= s@.len(),
        s@.subrange(0, k as int) == trim_end(s@),
{
    let n = s.unicode_len();
    let mut k: usize = n;
    assert(s@.subrange(0, n as int) =~= s@);
    while k > 0 && is_white_space_char(s.get_char(k - 1))
        invariant
            n == s@.len(),
            k <= n,
            trim_end(s@.subrange(0, k as int)) == trim_end(s@),
        decreases k,
    {
        assert(s@.subrange(0, k as int).drop_last() =~= s@.subrange(0, k - 1));
        k = k - 1;
    }
    k
}

/// Replaces the contents of `buf` by `line` with its trailing whitespace (the
/// line terminator included) removed, and returns the number of bytes of
/// `line` as it came, so that 0 signals an input that had ended.
///
/// Whatever `buf` held before is discarded.
pub fn update_input(buf: &mut String, line: &str) -> (n: usize)
    ensures
        final(buf)@ == trim_end(line@),
        n == line.len(),
{
    let k = kept_len(line);
    let kept = line.substring_char(0, k);
    *buf = kept.to_owned();
    line.len()
}

/// A fresh string holding `line` without its trailing whitespace.
pub fn get_input(line: &str) -> (r: String)
    ensures
        r@ == trim_end(line@),
{
    let mut buf = String::new();
    update_input(&mut buf, line);
    buf
}

} // verus!
