//! Terminator recognition for the two response-read loops.
//!
//! The application reads standard input one byte at a time, appends each
//! byte to a buffer, and asks these predicates whether the buffer is now
//! complete; the timeouts and the diagnostic timer around the loop belong
//! to the application.

use vstd::prelude::*;

use crate::scan::ends_with_bytes;

verus! {

/// The escape byte.
pub open spec fn esc_byte() -> u8 {
    0x1b
}

/// `s` ends with `pat`.
pub open spec fn ends_with_seq(s: Seq<u8>, pat: Seq<u8>) -> bool {
    s.len() >= pat.len() && s.subrange(s.len() - pat.len(), s.len() as int) == pat
}

/// `i` is the index of the last escape byte of `s`.
pub open spec fn is_last_esc(s: Seq<u8>, i: int) -> bool {
    0 <= i < s.len() && s[i] == esc_byte() && (forall|j: int|
        i < j < s.len() ==> s[j] != esc_byte())
}

/// The buffer holds a complete primary-device-attributes reply: its last
/// byte is `c`, and the bytes right after its last escape byte are `[?`.
pub open spec fn da1_terminated_spec(s: Seq<u8>) -> bool {
    &&& s.len() > 0
    &&& s[s.len() - 1] == 0x63u8
    &&& exists|i: int|
        #![trigger is_last_esc(s, i)]
        is_last_esc(s, i) && i + 2 < s.len() && s[i + 1] == 0x5bu8 && s[i + 2] == 0x3fu8
}

/// The terminator of a ready device-status report: `ESC [ 0 n`.
pub open spec fn dsr_ready() -> Seq<u8> {
    seq![0x1bu8, 0x5bu8, 0x30u8, 0x6eu8]
}

/// The terminator of a not-ready device-status report: `ESC [ 3 n`.
pub open spec fn dsr_not_ready() -> Seq<u8> {
    seq![0x1bu8, 0x5bu8, 0x33u8, 0x6eu8]
}

/// The buffer ends with one of the two device-status-report terminators.
pub open spec fn dsr_terminated_spec(s: Seq<u8>) -> bool {
    ends_with_seq(s, dsr_ready()) || ends_with_seq(s, dsr_not_ready())
}

/// Whether the captured bytes form a complete primary-device-attributes
/// reply, so that the read loop may stop.
pub fn da1_terminated(buf: &[u8]) -> (r: bool)
    ensures
        r == da1_terminated_spec(buf@),
{
    let n = buf.len();
    if n == 0 {
        return false;
    }
    if buf[n - 1] != 0x63 {
        return false;
    }
    let mut k = n;
    while k > 0
        invariant
            k <= n,
            n == buf@.len(),
            n >= 1,
            buf@[n - 1] == 0x63u8,
            forall|j: int| k <= j < n ==> buf@[j] != esc_byte(),
        decreases k,
    {
        if buf[k - 1] == 0x1b {
            let i = k - 1;
            assert(is_last_esc(buf@, i as int));
            proof {
                assert forall|i2: int| is_last_esc(buf@, i2) implies i2 == i as int by {
                    if i2 < i as int {
                        assert(buf@[i as int] == esc_byte());
                    }
                }
            }
            if n - i > 2 && buf[i + 1] == 0x5b && buf[i + 2] == 0x3f {
                proof {
                    let iw = i as int;
                    assert(is_last_esc(buf@, iw) && iw + 2 < buf@.len() && buf@[iw + 1] == 0x5bu8
                        && buf@[iw + 2] == 0x3fu8);
                }
                return true;
            }
            return false;
        }
        k = k - 1;
    }
    assert forall|i2: int| !is_last_esc(buf@, i2) by {
        if 0 <= i2 < buf@.len() {
            assert(buf@[i2] != esc_byte());
        }
    }
    false
}

/// Whether the captured bytes end in a device-status-report terminator,
/// so that the drain loop may stop.
pub fn dsr_terminated(buf: &[u8]) -> (r: bool)
    ensures
        r == dsr_terminated_spec(buf@),
{
    let ready = [0x1bu8, 0x5bu8, 0x30u8, 0x6eu8];
    let not_ready = [0x1bu8, 0x5bu8, 0x33u8, 0x6eu8];
    proof {
        assert(ready@ =~= dsr_ready());
        assert(not_ready@ =~= dsr_not_ready());
    }
    ends_with_bytes(buf, ready.as_slice()) || ends_with_bytes(buf, not_ready.as_slice())
}

} // verus!
