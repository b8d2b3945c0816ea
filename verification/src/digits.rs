//! ASCII decimal and hexadecimal digit runs: recognition, value, and
//! bounded parsing, with exact specifications.

use vstd::prelude::*;

verus! {

/// `b` is an ASCII decimal digit.
pub open spec fn is_ascii_digit(b: u8) -> bool {
    0x30 <= b <= 0x39
}

/// Every byte of `s` is an ASCII decimal digit.
pub open spec fn all_digits(s: Seq<u8>) -> bool {
    forall|i: int| 0 <= i < s.len() ==> is_ascii_digit(#[trigger] s[i])
}

/// Value of a run of ASCII decimal digits, most significant first.
pub open spec fn digits_value(s: Seq<u8>) -> nat
    recommends
        all_digits(s),
    decreases s.len(),
{
    if s.len() == 0 {
        0
    } else {
        10 * digits_value(s.drop_last()) + (s.last() - 0x30) as nat
    }
}

/// Index of the first byte at or after `from` that is not a decimal digit
/// (the sequence's length when the digits run to the end).
pub open spec fn digit_end(s: Seq<u8>, from: int) -> int
    recommends
        0 <= from <= s.len(),
    decreases s.len() - from,
{
    if from < 0 || from >= s.len() {
        from
    } else if is_ascii_digit(s[from]) {
        digit_end(s, from + 1)
    } else {
        from
    }
}

/// `digit_end` marks the first non-digit: everything in between is a digit.
pub proof fn lemma_digit_end_props(s: Seq<u8>, from: int)
    requires
        0 <= from <= s.len(),
    ensures
        from <= digit_end(s, from) <= s.len(),
        forall|i: int| from <= i < digit_end(s, from) ==> is_ascii_digit(#[trigger] s[i]),
        digit_end(s, from) == s.len() || !is_ascii_digit(s[digit_end(s, from)]),
    decreases s.len() - from,
{
    if from < s.len() && is_ascii_digit(s[from]) {
        lemma_digit_end_props(s, from + 1);
    }
}

/// When digits fill `s` from `from` up to `k` and `k` holds none (or is
/// the end), `k` is exactly where the digit run ends.
pub proof fn lemma_digit_end_run(s: Seq<u8>, from: int, k: int)
    requires
        0 <= from <= k <= s.len(),
        forall|j: int| from <= j < k ==> is_ascii_digit(#[trigger] s[j]),
        k == s.len() || !is_ascii_digit(s[k]),
    ensures
        digit_end(s, from) == k,
    decreases k - from,
{
    if from < k {
        lemma_digit_end_run(s, from + 1, k);
    }
}

/// The value of a digit run never shrinks as more digits are appended.
pub proof fn lemma_digits_value_prefix_le(s: Seq<u8>, k: int)
    requires
        0 <= k <= s.len(),
    ensures
        digits_value(s.subrange(0, k)) <= digits_value(s),
    decreases s.len(),
{
    if k == s.len() {
        assert(s.subrange(0, k) =~= s);
    } else if s.len() > 0 {
        assert(s.drop_last().subrange(0, k) =~= s.subrange(0, k));
        lemma_digits_value_prefix_le(s.drop_last(), k);
    }
}

/// First index at or after `from` holding a byte that is not a decimal
/// digit, found by a linear scan.
pub fn scan_digits(s: &[u8], from: usize) -> (end: usize)
    requires
        from <= s@.len(),
    ensures
        end as int == digit_end(s@, from as int),
        from <= end <= s@.len(),
{
    proof {
        lemma_digit_end_props(s@, from as int);
    }
    let n = s.len();
    let mut e = from;
    while e < n && s[e] >= 0x30 && s[e] <= 0x39
        invariant
            from <= e <= n,
            n == s@.len(),
            digit_end(s@, from as int) == digit_end(s@, e as int),
        decreases n - e,
    {
        e = e + 1;
    }
    e
}

/// Value of the digit run `s[from..end]` when it fits in a `u16`;
/// `None` exactly when the run's value exceeds `u16::MAX`.
pub fn parse_u16_digits(s: &[u8], from: usize, end: usize) -> (r: Option<u16>)
    requires
        from <= end <= s@.len(),
        all_digits(s@.subrange(from as int, end as int)),
    ensures
        match r {
            Some(v) => v as nat == digits_value(s@.subrange(from as int, end as int)),
            None => digits_value(s@.subrange(from as int, end as int)) > 0xffff,
        },
{
    let mut val: u32 = 0;
    let mut i = from;
    while i < end
        invariant
            from <= i <= end <= s@.len(),
            all_digits(s@.subrange(from as int, end as int)),
            val <= 0xffff,
            val as nat == digits_value(s@.subrange(from as int, i as int)),
        decreases end - i,
    {
        assert(is_ascii_digit(s@[i as int])) by {
            assert(s@.subrange(from as int, end as int)[i - from] == s@[i as int]);
        }
        let d = s[i] - 0x30;
        assert(s@.subrange(from as int, i as int + 1).drop_last() =~= s@.subrange(
            from as int,
            i as int,
        ));
        assert(s@.subrange(from as int, i as int + 1).last() == s@[i as int]);
        val = val * 10 + (d as u32);
        i = i + 1;
        if val > 0xffff {
            proof {
                assert(s@.subrange(from as int, end as int).subrange(0, i - from) =~= s@.subrange(
                    from as int,
                    i as int,
                ));
                lemma_digits_value_prefix_le(s@.subrange(from as int, end as int), i - from);
            }
            return None;
        }
    }
    assert(s@.subrange(from as int, i as int) =~= s@.subrange(from as int, end as int));
    Some(val as u16)
}

/// `b` is an ASCII hexadecimal digit.
pub open spec fn is_hex_digit(b: u8) -> bool {
    (0x30 <= b <= 0x39) || (0x41 <= b <= 0x46) || (0x61 <= b <= 0x66)
}

/// Value of one ASCII hexadecimal digit.
pub open spec fn hex_value(b: u8) -> nat
    recommends
        is_hex_digit(b),
{
    if 0x30 <= b <= 0x39 {
        (b - 0x30) as nat
    } else if 0x41 <= b <= 0x46 {
        (b - 0x41 + 10) as nat
    } else {
        (b - 0x61 + 10) as nat
    }
}

/// Value of one hexadecimal digit byte, or `None` when the byte is not a
/// hexadecimal digit.
pub fn hex_digit(b: u8) -> (r: Option<u8>)
    ensures
        match r {
            Some(v) => is_hex_digit(b) && v as nat == hex_value(b),
            None => !is_hex_digit(b),
        },
{
    if 0x30 <= b && b <= 0x39 {
        Some(b - 0x30)
    } else if 0x41 <= b && b <= 0x46 {
        Some(b - 0x41 + 10)
    } else if 0x61 <= b && b <= 0x66 {
        Some(b - 0x61 + 10)
    } else {
        None
    }
}

} // verus!
