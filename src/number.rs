//! Reading integers out of human-typed text.
//!
//! A line is first trimmed of white space at both ends (the characters that
//! `char::is_whitespace` accepts), then read as decimal digits with an
//! optional sign, as `str::parse` reads `u32` and `i32`.

use vstd::prelude::*;

verus! {

/// The Unicode `White_Space` characters.
pub open spec fn is_blank(c: char) -> bool {
    let v: u32 = c as u32;
    ||| 0x09 <= v <= 0x0d
    ||| v == 0x20
    ||| v == 0x85
    ||| v == 0xa0
    ||| v == 0x1680
    ||| 0x2000 <= v <= 0x200a
    ||| v == 0x2028
    ||| v == 0x2029
    ||| v == 0x202f
    ||| v == 0x205f
    ||| v == 0x3000
}

/// `s` without its leading and trailing white space.
pub open spec fn trimmed(s: Seq<char>) -> Seq<char>
    decreases s.len(),
{
    if s.len() == 0 {
        s
    } else if is_blank(s[0]) {
        trimmed(s.drop_first())
    } else if is_blank(s.last()) {
        trimmed(s.drop_last())
    } else {
        s
    }
}

pub open spec fn is_digit(c: char) -> bool {
    0x30 <= (c as u32) <= 0x39
}

pub open spec fn digit_value(c: char) -> nat {
    ((c as u32) - 0x30) as nat
}

/// At least one character, and every character a decimal digit.
pub open spec fn all_digits(d: Seq<char>) -> bool {
    &&& d.len() > 0
    &&& forall|i: int| 0 <= i < d.len() ==> is_digit(#[trigger] d[i])
}

/// The number that the decimal digits `d` write, most significant first.
pub open spec fn digits_value(d: Seq<char>) -> nat
    decreases d.len(),
{
    if d.len() == 0 {
        0
    } else {
        digits_value(d.drop_last()) * 10 + digit_value(d.last())
    }
}

/// `t` without one leading `+`, if it has one.
pub open spec fn unsigned_text(t: Seq<char>) -> Seq<char> {
    if t.len() > 0 && t[0] == '+' {
        t.drop_first()
    } else {
        t
    }
}

/// The `u32` that `t` writes: an optional `+`, then one or more digits whose
/// value fits.
pub open spec fn unsigned_of(t: Seq<char>) -> Option<u32> {
    let d = unsigned_text(t);
    if all_digits(d) && digits_value(d) <= u32::MAX {
        Some(digits_value(d) as u32)
    } else {
        None
    }
}

/// The `i32` that `t` writes: an optional `+` or `-`, then one or more digits
/// whose signed value fits.
pub open spec fn signed_of(t: Seq<char>) -> Option<i32> {
    if t.len() > 0 && t[0] == '-' {
        let d = t.drop_first();
        if all_digits(d) && digits_value(d) <= 0x8000_0000 {
            Some((-digits_value(d)) as i32)
        } else {
            None
        }
    } else {
        let d = unsigned_text(t);
        if all_digits(d) && digits_value(d) <= i32::MAX {
            Some(digits_value(d) as i32)
        } else {
            None
        }
    }
}

/// A digit string is worth at least as much as any of its prefixes.
proof fn lemma_prefix_value(d: Seq<char>, k: int)
    requires
        0 <= k <= d.len(),
    ensures
        digits_value(d.subrange(0, k)) <= digits_value(d),
    decreases d.len(),
{
    if k < d.len() {
        assert(d.drop_last().subrange(0, k) =~= d.subrange(0, k));
        lemma_prefix_value(d.drop_last(), k);
    } else {
        assert(d.subrange(0, k) =~= d);
    }
}

fn blank_char(c: char) -> (r: bool)
    ensures
        r == is_blank(c),
{
    let v: u32 = c as u32;
    (0x09 <= v && v <= 0x0d) || v == 0x20 || v == 0x85 || v == 0xa0 || v == 0x1680 || (0x2000
        <= v && v <= 0x200a) || v == 0x2028 || v == 0x2029 || v == 0x202f || v == 0x205f || v
        == 0x3000
}

/// The character positions `lo..hi` of `s` that remain once it is trimmed.
fn trim_bounds(s: &str) -> (r: (usize, usize))
    ensures
        r.0 <= r.1 <= s@.len(),
        trimmed(s@) == s@.subrange(r.0 as int, r.1 as int),
{
    let n: usize = s.unicode_len();
    let mut lo: usize = 0;
    assert(s@.subrange(0, n as int) =~= s@);
    while lo < n && blank_char(s.get_char(lo))
        invariant
            lo <= n,
            n == s@.len(),
            trimmed(s@) == trimmed(s@.subrange(lo as int, n as int)),
        decreases n - lo,
    {
        assert(s@.subrange(lo as int, n as int).drop_first() =~= s@.subrange(
            lo + 1,
            n as int,
        ));
        lo = lo + 1;
    }
    let mut hi: usize = n;
    while hi > lo && blank_char(s.get_char(hi - 1))
        invariant
            lo <= hi <= n,
            n == s@.len(),
            lo < n ==> !is_blank(s@[lo as int]),
            trimmed(s@) == trimmed(s@.subrange(lo as int, hi as int)),
        decreases hi - lo,
    {
        let ghost sub = s@.subrange(lo as int, hi as int);
        assert(sub[0] == s@[lo as int]);
        assert(sub.drop_last() =~= s@.subrange(lo as int, hi - 1));
        hi = hi - 1;
    }
    proof {
        let sub = s@.subrange(lo as int, hi as int);
        if lo < hi {
            assert(sub[0] == s@[lo as int]);
        }
    }
    (lo, hi)
}

/// The value of the digits at positions `from..to` of `s`, when there is at
/// least one, all are digits and the value is at most `cap`.
fn digits_at_most(s: &str, from: usize, to: usize, cap: u64) -> (r: Option<u64>)
    requires
        from <= to <= s@.len(),
        cap <= 0x1_0000_0000,
    ensures
        ({
            let d = s@.subrange(from as int, to as int);
            match r {
                Some(v) => all_digits(d) && digits_value(d) <= cap && v == digits_value(d),
                None => !(all_digits(d) && digits_value(d) <= cap),
            }
        }),
{
    let ghost d = s@.subrange(from as int, to as int);
    if from == to {
        return None;
    }
    let mut acc: u64 = 0;
    let mut i: usize = from;
    assert(s@.subrange(from as int, from as int) =~= Seq::<char>::empty());
    while i < to
        invariant
            from <= i <= to <= s@.len(),
            cap <= 0x1_0000_0000,
            d == s@.subrange(from as int, to as int),
            acc <= cap,
            forall|k: int| from <= k < i ==> is_digit(#[trigger] s@[k]),
            acc == digits_value(s@.subrange(from as int, i as int)),
        decreases to - i,
    {
        let c = s.get_char(i);
        if !(0x30 <= (c as u32) && (c as u32) <= 0x39) {
            assert(d[i - from] == c);
            return None;
        }
        let ghost next_prefix = s@.subrange(from as int, i + 1);
        assert(next_prefix.drop_last() =~= s@.subrange(from as int, i as int));
        assert(next_prefix.last() == c);
        let next: u64 = acc * 10 + ((c as u32) - 0x30) as u64;
        assert(next == digits_value(next_prefix));
        if next > cap {
            proof {
                assert(d.subrange(0, i + 1 - from) =~= next_prefix);
                lemma_prefix_value(d, i + 1 - from);
            }
            return None;
        }
        acc = next;
        i = i + 1;
    }
    assert(s@.subrange(from as int, i as int) =~= d);
    assert forall|k: int| 0 <= k < d.len() implies is_digit(#[trigger] d[k]) by {
        assert(d[k] == s@[from + k]);
    }
    Some(acc)
}

/// Reads `line`, trimmed, as a `u32`.
pub fn parse_unsigned(line: &str) -> (r: Option<u32>)
    ensures
        r == unsigned_of(trimmed(line@)),
{
    let (lo, hi) = trim_bounds(line);
    let ghost t = line@.subrange(lo as int, hi as int);
    let mut from: usize = lo;
    if lo < hi && line.get_char(lo) == '+' {
        assert(t.drop_first() =~= line@.subrange(lo + 1, hi as int));
        from = lo + 1;
    } else {
        assert(t =~= line@.subrange(lo as int, hi as int));
    }
    match digits_at_most(line, from, hi, 0xffff_ffff) {
        Some(v) => Some(v as u32),
        None => None,
    }
}

/// Reads `text`, trimmed, as an `i32`.
pub fn parse_signed(text: &str) -> (r: Option<i32>)
    ensures
        r == signed_of(trimmed(text@)),
{
    let (lo, hi) = trim_bounds(text);
    let ghost t = text@.subrange(lo as int, hi as int);
    if lo < hi && text.get_char(lo) == '-' {
        assert(t.drop_first() =~= text@.subrange(lo + 1, hi as int));
        match digits_at_most(text, lo + 1, hi, 0x8000_0000) {
            Some(v) => {
                if v == 0x8000_0000 {
                    Some(i32::MIN)
                } else {
                    Some(-(v as i32))
                }
            },
            None => None,
        }
    } else {
        let mut from: usize = lo;
        if lo < hi && text.get_char(lo) == '+' {
            assert(t.drop_first() =~= text@.subrange(lo + 1, hi as int));
            from = lo + 1;
        }
        match digits_at_most(text, from, hi, 0x7fff_ffff) {
            Some(v) => Some(v as i32),
            None => None,
        }
    }
}

/// The decimal digit that stands for `d`, for `d < 10`.
pub open spec fn digit_char(d: nat) -> char {
    seq!['0', '1', '2', '3', '4', '5', '6', '7', '8', '9'][d as int]
}

/// `n` written in decimal, most significant digit first, without leading zeros.
pub open spec fn decimal(n: nat) -> Seq<char>
    decreases n,
{
    if n < 10 {
        seq![digit_char(n)]
    } else {
        decimal(n / 10) + seq![digit_char(n % 10)]
    }
}

/// `n` written in decimal.
pub fn decimal_text(n: u64) -> (r: String)
    ensures
        r@ == decimal(n as nat),
    decreases n,
{
    let digits = "0123456789";
    proof {
        reveal_strlit("0123456789");
    }
    if n < 10 {
        let d: usize = n as usize;
        String::from_str(digits.substring_char(d, d + 1))
    } else {
        let mut r = decimal_text(n / 10);
        let d: usize = (n % 10) as usize;
        r.append(digits.substring_char(d, d + 1));
        r
    }
}

} // verus!
