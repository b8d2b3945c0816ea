//! Building outgoing byte sequences: appending slices and formatting
//! decimal numbers, with exact specifications.

use vstd::prelude::*;

use crate::digits::all_digits;
use crate::digits::digits_value;

verus! {

/// ASCII decimal digits of `n`, most significant first, no leading zeros
/// (a single `0` for zero).
pub open spec fn dec_digits(n: nat) -> Seq<u8>
    decreases n,
{
    if n < 10 {
        seq![(0x30 + n) as u8]
    } else {
        dec_digits(n / 10).push((0x30 + n % 10) as u8)
    }
}

/// The decimal image of `n` is a non-empty digit run whose value is `n`.
pub proof fn lemma_dec_digits_value(n: nat)
    ensures
        dec_digits(n).len() >= 1,
        all_digits(dec_digits(n)),
        digits_value(dec_digits(n)) == n,
    decreases n,
{
    if n < 10 {
        assert(dec_digits(n) =~= seq![(0x30 + n) as u8]);
        assert(dec_digits(n).drop_last() =~= Seq::<u8>::empty());
        assert(digits_value(Seq::<u8>::empty()) == 0);
        assert(dec_digits(n).last() == (0x30 + n) as u8);
        assert(digits_value(dec_digits(n)) == n);
    } else {
        lemma_dec_digits_value(n / 10);
        assert(dec_digits(n).drop_last() =~= dec_digits(n / 10));
        assert(dec_digits(n).last() == (0x30 + n % 10) as u8);
        assert(n == 10 * (n / 10) + n % 10);
        assert(digits_value(dec_digits(n)) == n);
    }
}

/// Appends a copy of `s` to `v`.
pub fn push_slice(v: &mut Vec<u8>, s: &[u8])
    ensures
        final(v)@ == old(v)@ + s@,
{
    let n = s.len();
    let mut i: usize = 0;
    while i < n
        invariant
            i <= n,
            n == s@.len(),
            v@ == old(v)@ + s@.subrange(0, i as int),
        decreases n - i,
    {
        v.push(s[i]);
        proof {
            assert(v@ =~= old(v)@ + s@.subrange(0, i + 1));
        }
        i = i + 1;
    }
    proof {
        assert(old(v)@ + s@.subrange(0, n as int) =~= old(v)@ + s@);
    }
}

/// Appends the decimal digits of `n` to `v`.
pub fn push_dec(v: &mut Vec<u8>, n: u32)
    ensures
        final(v)@ == old(v)@ + dec_digits(n as nat),
    decreases n,
{
    if n < 10 {
        v.push(0x30 + (n as u8));
        proof {
            assert(v@ =~= old(v)@ + dec_digits(n as nat));
        }
    } else {
        push_dec(v, n / 10);
        v.push(0x30 + ((n % 10) as u8));
        proof {
            assert(v@ =~= old(v)@ + dec_digits(n as nat));
        }
    }
}

} // verus!
