//! Verified text helpers: decimal rendering and parsing of unsigned
//! integers, prefix/suffix tests, and character-level string building.
//!
//! Every deterministic name this system computes (job names, blob paths,
//! playlist entries, process arguments) is assembled from these functions,
//! so their contracts pin down the exact character sequences produced.

use vstd::prelude::*;

verus! {

/// Relies on `alloc::string::String::push`: appends exactly the given
/// character to the end of the string.
pub assume_specification[ String::push ](s: &mut String, c: char)
    ensures
        final(s)@ == old(s)@.push(c),
;

/// The decimal digit character for a value below ten.
pub open spec fn digit_char(d: nat) -> char {
    if d == 0 {
        '0'
    } else if d == 1 {
        '1'
    } else if d == 2 {
        '2'
    } else if d == 3 {
        '3'
    } else if d == 4 {
        '4'
    } else if d == 5 {
        '5'
    } else if d == 6 {
        '6'
    } else if d == 7 {
        '7'
    } else if d == 8 {
        '8'
    } else {
        '9'
    }
}

/// The canonical decimal rendering of `n`: no sign, no leading zero except
/// for the single digit of zero itself.
pub open spec fn dec_digits(n: nat) -> Seq<char>
    decreases n,
{
    if n < 10 {
        seq![digit_char(n)]
    } else {
        dec_digits(n / 10).push(digit_char(n % 10))
    }
}

fn digit_to_char(d: u64) -> (c: char)
    requires
        d < 10,
    ensures
        c == digit_char(d as nat),
{
    if d == 0 {
        '0'
    } else if d == 1 {
        '1'
    } else if d == 2 {
        '2'
    } else if d == 3 {
        '3'
    } else if d == 4 {
        '4'
    } else if d == 5 {
        '5'
    } else if d == 6 {
        '6'
    } else if d == 7 {
        '7'
    } else if d == 8 {
        '8'
    } else {
        '9'
    }
}

/// Renders `n` in decimal.
pub fn u64_to_string(n: u64) -> (s: String)
    ensures
        s@ == dec_digits(n as nat),
    decreases n,
{
    let d = n % 10;
    let c = digit_to_char(d);
    if n < 10 {
        let mut s = String::new();
        s.push(c);
        assert(s@ =~= dec_digits(n as nat));
        s
    } else {
        let mut s = u64_to_string(n / 10);
        s.push(c);
        assert(s@ =~= dec_digits(n as nat));
        s
    }
}

/// Renders `n` in decimal.
pub fn u32_to_string(n: u32) -> (s: String)
    ensures
        s@ == dec_digits(n as nat),
{
    u64_to_string(n as u64)
}

/// Whether `c` is a decimal digit.
pub open spec fn is_digit(c: char) -> bool {
    '0' <= c && c <= '9'
}

/// Whether every character of `s` is a decimal digit.
pub open spec fn all_digits(s: Seq<char>) -> bool {
    forall|i: int| 0 <= i < s.len() ==> is_digit(#[trigger] s[i])
}

/// The numeric value of one digit character.
pub open spec fn digit_val(c: char) -> nat {
    (c as nat - '0' as nat) as nat
}

/// The value of a digit sequence read in base ten; leading zeros are
/// permitted and do not change the value.
pub open spec fn digits_val(s: Seq<char>) -> nat
    decreases s.len(),
{
    if s.len() == 0 {
        0
    } else {
        digits_val(s.drop_last()) * 10 + digit_val(s.last())
    }
}

fn char_is_digit(c: char) -> (r: bool)
    ensures
        r == is_digit(c),
{
    '0' <= c && c <= '9'
}

fn char_digit_val(c: char) -> (d: u64)
    requires
        is_digit(c),
    ensures
        d == digit_val(c),
{
    (c as u64) - ('0' as u64)
}

/// Parses `s` as an unsigned decimal number, the whole string.
/// Returns `Some` exactly when `s` is nonempty, wholly digits, and its
/// value fits in `u32`; leading zeros are accepted.
pub fn parse_u32(s: &str) -> (r: Option<u32>)
    ensures
        r is Some <==> s@.len() > 0 && all_digits(s@) && digits_val(s@) <= u32::MAX,
        r is Some ==> r->0 == digits_val(s@),
{
    let n = s.unicode_len();
    if n == 0 {
        return None;
    }
    let mut value: u64 = 0;
    let mut i: usize = 0;
    let clamp: u64 = 0x1_0000_0000;
    while i < n
        invariant
            n == s@.len(),
            0 <= i <= n,
            all_digits(s@.take(i as int)),
            digits_val(s@.take(i as int)) <= u32::MAX ==> value == digits_val(s@.take(i as int)),
            digits_val(s@.take(i as int)) > u32::MAX ==> value == clamp,
            value <= clamp,
            clamp == 0x1_0000_0000,
        decreases n - i,
    {
        let c = s.get_char(i);
        if !char_is_digit(c) {
            assert(!all_digits(s@));
            return None;
        }
        let d = char_digit_val(c);
        proof {
            assert(s@.take(i + 1 as int).drop_last() =~= s@.take(i as int));
            assert(s@.take(i + 1 as int).last() == s@[i as int]);
        }
        if value > 0xffff_ffff {
            // Already beyond range; one more digit keeps it beyond range.
            value = clamp;
        } else {
            value = value * 10 + d;
            if value > 0xffff_ffff {
                value = clamp;
            }
        }
        i += 1;
    }
    proof {
        assert(s@.take(n as int) =~= s@);
    }
    if value > 0xffff_ffff {
        None
    } else {
        Some(value as u32)
    }
}

/// Whether `p` is a prefix of `s`.
pub open spec fn has_prefix(s: Seq<char>, p: Seq<char>) -> bool {
    s.len() >= p.len() && s.take(p.len() as int) == p
}

/// Whether `p` is a suffix of `s`.
pub open spec fn has_suffix(s: Seq<char>, p: Seq<char>) -> bool {
    s.len() >= p.len() && s.skip(s.len() - p.len()) == p
}

/// Prefix test over characters.
pub fn str_has_prefix(s: &str, p: &str) -> (r: bool)
    ensures
        r == has_prefix(s@, p@),
{
    let sn = s.unicode_len();
    let pn = p.unicode_len();
    if sn < pn {
        assert(!has_prefix(s@, p@));
        return false;
    }
    let mut i: usize = 0;
    while i < pn
        invariant
            sn == s@.len(),
            pn == p@.len(),
            pn <= sn,
            0 <= i <= pn,
            forall|j: int| 0 <= j < i ==> s@[j] == p@[j],
        decreases pn - i,
    {
        if s.get_char(i) != p.get_char(i) {
            assert(s@.take(pn as int)[i as int] != p@[i as int]);
            return false;
        }
        i += 1;
    }
    assert(s@.take(pn as int) =~= p@);
    true
}

/// Suffix test over characters.
pub fn str_has_suffix(s: &str, p: &str) -> (r: bool)
    ensures
        r == has_suffix(s@, p@),
{
    let sn = s.unicode_len();
    let pn = p.unicode_len();
    if sn < pn {
        assert(!has_suffix(s@, p@));
        return false;
    }
    let off = sn - pn;
    let mut i: usize = 0;
    while i < pn
        invariant
            sn == s@.len(),
            pn == p@.len(),
            pn <= sn,
            off == sn - pn,
            0 <= i <= pn,
            forall|j: int| 0 <= j < i ==> s@[off + j] == p@[j],
        decreases pn - i,
    {
        if s.get_char(off + i) != p.get_char(i) {
            assert(s@.skip(off as int)[i as int] != p@[i as int]);
            return false;
        }
        i += 1;
    }
    assert(s@.skip(off as int) =~= p@);
    true
}

/// Whether every character of `s` is a decimal digit, checked.
pub fn str_all_digits(s: &str) -> (r: bool)
    ensures
        r == all_digits(s@),
{
    let n = s.unicode_len();
    let mut i: usize = 0;
    while i < n
        invariant
            n == s@.len(),
            0 <= i <= n,
            forall|j: int| 0 <= j < i ==> is_digit(#[trigger] s@[j]),
        decreases n - i,
    {
        if !char_is_digit(s.get_char(i)) {
            return false;
        }
        i += 1;
    }
    true
}

/// Character-for-character equality of two string slices.
pub fn str_eq(a: &str, b: &str) -> (r: bool)
    ensures
        r == (a@ == b@),
{
    let an = a.unicode_len();
    let bn = b.unicode_len();
    if an != bn {
        return false;
    }
    let mut i: usize = 0;
    while i < an
        invariant
            an == a@.len(),
            bn == b@.len(),
            an == bn,
            0 <= i <= an,
            forall|j: int| 0 <= j < i ==> a@[j] == b@[j],
        decreases an - i,
    {
        if a.get_char(i) != b.get_char(i) {
            return false;
        }
        i += 1;
    }
    assert(a@ =~= b@);
    true
}

/// The characters of `s` strictly between `from` and `to`.
pub fn str_between(s: &str, from: usize, to: usize) -> (r: String)
    requires
        from <= to <= s@.len(),
    ensures
        r@ == s@.subrange(from as int, to as int),
{
    let sub = s.substring_char(from, to);
    sub.to_owned()
}

/// Appends `t` to `s` in place.
pub fn append_str(s: &mut String, t: &str)
    ensures
        final(s)@ == old(s)@ + t@,
{
    s.append(t);
}

/// Appends the decimal rendering of `n` to `s` in place.
pub fn append_u64(s: &mut String, n: u64)
    ensures
        final(s)@ == old(s)@ + dec_digits(n as nat),
{
    let t = u64_to_string(n);
    s.append(t.as_str());
}

} // verus!
