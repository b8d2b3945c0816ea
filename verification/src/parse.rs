//! Parsing of the captured probe-response buffer: cell pixel size,
//! background lightness, and graphics-protocol acknowledgements.
//!
//! All functions here are pure: they inspect a byte buffer that the
//! surrounding application captured from the terminal and never perform
//! I/O themselves.

use vstd::prelude::*;

use crate::digits::all_digits;
use crate::digits::digit_end;
use crate::digits::digits_value;
use crate::digits::hex_digit;
use crate::digits::is_ascii_digit;
use crate::digits::lemma_digit_end_run;
use crate::emit::dec_digits;
use crate::emit::lemma_dec_digits_value;
use crate::digits::hex_value;
use crate::digits::is_hex_digit;
use crate::digits::lemma_digit_end_props;
use crate::digits::parse_u16_digits;
use crate::digits::scan_digits;
use crate::scan::contains_bytes;
use crate::scan::contains_seq;
use crate::scan::find_bytes;
use crate::scan::find_from;
use crate::scan::lemma_find_from_characterizes;
use crate::scan::matches_at;

verus! {

/// Marker that introduces a "text area size in pixels" report: `ESC [ 6 ;`.
pub open spec fn cell_size_prefix() -> Seq<u8> {
    seq![0x1bu8, 0x5bu8, 0x36u8, 0x3bu8]
}

/// Marker that introduces a background-color report: `] 1 1 ; r g b :`.
pub open spec fn bg_prefix() -> Seq<u8> {
    seq![0x5du8, 0x31u8, 0x31u8, 0x3bu8, 0x72u8, 0x67u8, 0x62u8, 0x3au8]
}

/// Acknowledgement substring for the keyed placeholder-image probe:
/// `ESC _ G i = 3 1 ; O K`.
pub open spec fn kgp_ack() -> Seq<u8> {
    seq![0x1bu8, 0x5fu8, 0x47u8, 0x69u8, 0x3du8, 0x33u8, 0x31u8, 0x3bu8, 0x4fu8, 0x4bu8]
}

/// The four Sixel-capability substrings seen in device-attribute replies:
/// `?4;`, `?4c`, `;4;`, `;4c`.
pub open spec fn sixel_sigs() -> Seq<Seq<u8>> {
    seq![
        seq![0x3fu8, 0x34u8, 0x3bu8],
        seq![0x3fu8, 0x34u8, 0x63u8],
        seq![0x3bu8, 0x34u8, 0x3bu8],
        seq![0x3bu8, 0x34u8, 0x63u8],
    ]
}

/// The height/width fields that follow the cell-size marker: a non-empty
/// digit run, `;`, a non-empty digit run, `t`.  Returns `(width, height)`;
/// a structural mismatch, a zero value, or a value over `u16::MAX` yields
/// `None`.
pub open spec fn cell_fields(t: Seq<u8>) -> Option<(u16, u16)> {
    let he = digit_end(t, 0);
    if he == 0 {
        None
    } else if he == t.len() || t[he] != 0x3bu8 {
        None
    } else {
        let we = digit_end(t, he + 1);
        if we == he + 1 {
            None
        } else if we == t.len() || t[we] != 0x74u8 {
            None
        } else {
            let hv = digits_value(t.subrange(0, he));
            let wv = digits_value(t.subrange(he + 1, we));
            if 1 <= hv <= 0xffff && 1 <= wv <= 0xffff {
                Some(((wv as u16), (hv as u16)))
            } else {
                None
            }
        }
    }
}

/// Cell pixel size `(width, height)` reported in `s`: the fields right
/// after the first cell-size marker, or `None` when the marker is absent
/// or the fields are malformed.
pub open spec fn cell_size_spec(s: Seq<u8>) -> Option<(u16, u16)> {
    match find_from(s, cell_size_prefix(), 0) {
        None => None,
        Some(i) => cell_fields(s.subrange(i + cell_size_prefix().len(), s.len() as int)),
    }
}

/// A two-hex-digit channel field sits at offset `o` of `t`.
pub open spec fn channel_ok(t: Seq<u8>, o: int) -> bool
    recommends
        0 <= o && o + 2 <= t.len(),
{
    is_hex_digit(t[o]) && is_hex_digit(t[o + 1])
}

/// Value of the two-hex-digit channel field at offset `o` of `t`.
pub open spec fn channel_value(t: Seq<u8>, o: int) -> nat
    recommends
        0 <= o && o + 2 <= t.len(),
{
    16 * hex_value(t[o]) + hex_value(t[o + 1])
}

/// Relative luma of an 8-bit RGB triple, Rec. 2020 weighted and scaled by
/// 2 560 000 so that it stays an integer: the real-valued luma is
/// `r*0.2627/256 + g*0.6780/256 + b*0.0593/256`, and multiplying through
/// by 2 560 000 turns the weights into 2627, 6780 and 593.
pub open spec fn scaled_luma(r: nat, g: nat, b: nat) -> nat {
    2627 * r + 6780 * g + 593 * b
}

/// The scaled image of the light-background threshold: luma > 0.6 exactly
/// when the scaled luma exceeds 0.6 * 2 560 000.
pub open spec fn light_threshold() -> nat {
    1536000
}

/// Whether `s` reports a light background: after the first
/// background-color marker come at least 14 bytes, the three channel
/// fields at offsets 0, 5 and 10 are two hex digits each, and the luma of
/// the three channels exceeds the threshold.  Anything else — marker
/// absent, report truncated, a malformed field — counts as dark.
pub open spec fn light_bg_spec(s: Seq<u8>) -> bool {
    match find_from(s, bg_prefix(), 0) {
        None => false,
        Some(i) => {
            let t = s.subrange(i + bg_prefix().len(), s.len() as int);
            t.len() >= 14 && channel_ok(t, 0) && channel_ok(t, 5) && channel_ok(t, 10)
                && scaled_luma(channel_value(t, 0), channel_value(t, 5), channel_value(t, 10))
                > light_threshold()
        },
    }
}

/// The buffer acknowledges the placeholder-image probe.
pub open spec fn supports_kgp(s: Seq<u8>) -> bool {
    contains_seq(s, kgp_ack())
}

/// The buffer carries one of the Sixel-capability substrings.
pub open spec fn supports_sixel(s: Seq<u8>) -> bool {
    exists|k: int| 0 <= k < sixel_sigs().len() && contains_seq(s, sixel_sigs()[k])
}

/// Cell pixel size `(width, height)` parsed from the captured response,
/// or `None` when the report is absent or malformed.
pub fn cell_size(resp: &[u8]) -> (r: Option<(u16, u16)>)
    ensures
        r == cell_size_spec(resp@),
        r matches Some(wh) ==> wh.0 > 0 && wh.1 > 0,
{
    let pre = [0x1bu8, 0x5bu8, 0x36u8, 0x3bu8];
    let pres = pre.as_slice();
    proof {
        assert(pres@ =~= cell_size_prefix());
    }
    let found = find_bytes(resp, pres);
    if found.is_none() {
        return None;
    }
    let i = found.unwrap();
    proof {
        lemma_find_from_characterizes(resp@, cell_size_prefix(), 0);
        assert(find_from(resp@, cell_size_prefix(), 0) == Some(i as int));
        assert(matches_at(resp@, cell_size_prefix(), i as int));
        assert(cell_size_prefix().len() == 4);
        assert(i + 4 <= resp@.len());
    }
    let n = resp.len();
    let t = &resp[i + 4..n];
    assert(t@ == resp@.subrange(i + cell_size_prefix().len(), resp@.len() as int));
    let he = scan_digits(t, 0);
    proof {
        lemma_digit_end_props(t@, 0);
    }
    if he == 0 || he == t.len() {
        return None;
    }
    if t[he] != 0x3b {
        return None;
    }
    let we = scan_digits(t, he + 1);
    proof {
        lemma_digit_end_props(t@, he + 1);
    }
    if we == he + 1 || we == t.len() {
        return None;
    }
    if t[we] != 0x74 {
        return None;
    }
    assert(all_digits(t@.subrange(0, he as int)));
    assert(all_digits(t@.subrange(he + 1, we as int)));
    let hv = parse_u16_digits(t, 0, he);
    let wv = parse_u16_digits(t, he + 1, we);
    match (wv, hv) {
        (Some(w), Some(h)) => if w >= 1 && h >= 1 {
            Some((w, h))
        } else {
            None
        },
        _ => None,
    }
}

/// Whether the captured response reports a light background; dark is the
/// conservative answer on any parse failure.
pub fn light_bg(resp: &[u8]) -> (r: bool)
    ensures
        r == light_bg_spec(resp@),
{
    let pre = [0x5du8, 0x31u8, 0x31u8, 0x3bu8, 0x72u8, 0x67u8, 0x62u8, 0x3au8];
    let pres = pre.as_slice();
    proof {
        assert(pres@ =~= bg_prefix());
    }
    let found = find_bytes(resp, pres);
    if found.is_none() {
        return false;
    }
    let i = found.unwrap();
    proof {
        lemma_find_from_characterizes(resp@, bg_prefix(), 0);
        assert(matches_at(resp@, bg_prefix(), i as int));
    }
    let n = resp.len();
    let t = &resp[i + 8..n];
    assert(t@ == resp@.subrange(i + bg_prefix().len(), resp@.len() as int));
    if t.len() < 14 {
        return false;
    }
    let r0 = hex_digit(t[0]);
    let r1 = hex_digit(t[1]);
    let g0 = hex_digit(t[5]);
    let g1 = hex_digit(t[6]);
    let b0 = hex_digit(t[10]);
    let b1 = hex_digit(t[11]);
    match (r0, r1, g0, g1, b0, b1) {
        (Some(rh), Some(rl), Some(gh), Some(gl), Some(bh), Some(bl)) => {
            let r: u32 = 16 * (rh as u32) + (rl as u32);
            let g: u32 = 16 * (gh as u32) + (gl as u32);
            let b: u32 = 16 * (bh as u32) + (bl as u32);
            let luma: u32 = 2627 * r + 6780 * g + 593 * b;
            luma > 1536000
        },
        _ => false,
    }
}

/// Whether the captured response acknowledges the placeholder-image probe.
pub fn detect_kgp(resp: &[u8]) -> (r: bool)
    ensures
        r == supports_kgp(resp@),
{
    let ack = [0x1bu8, 0x5fu8, 0x47u8, 0x69u8, 0x3du8, 0x33u8, 0x31u8, 0x3bu8, 0x4fu8, 0x4bu8];
    let acks = ack.as_slice();
    proof {
        assert(acks@ =~= kgp_ack());
    }
    contains_bytes(resp, acks)
}

/// Whether the captured response carries any Sixel-capability substring.
pub fn detect_sixel(resp: &[u8]) -> (r: bool)
    ensures
        r == supports_sixel(resp@),
{
    let s1 = [0x3fu8, 0x34u8, 0x3bu8];
    let s2 = [0x3fu8, 0x34u8, 0x63u8];
    let s3 = [0x3bu8, 0x34u8, 0x3bu8];
    let s4 = [0x3bu8, 0x34u8, 0x63u8];
    proof {
        assert(s1@ =~= sixel_sigs()[0]);
        assert(s2@ =~= sixel_sigs()[1]);
        assert(s3@ =~= sixel_sigs()[2]);
        assert(s4@ =~= sixel_sigs()[3]);
    }
    let hit = contains_bytes(resp, s1.as_slice()) || contains_bytes(resp, s2.as_slice())
        || contains_bytes(resp, s3.as_slice()) || contains_bytes(resp, s4.as_slice());
    proof {
        if hit {
        } else {
            assert forall|k: int| 0 <= k < sixel_sigs().len() implies !contains_seq(
                resp@,
                sixel_sigs()[k],
            ) by {
                if k == 0 {
                } else if k == 1 {
                } else if k == 2 {
                } else {
                    assert(sixel_sigs()[k] == s4@);
                }
            }
        }
    }
    hit
}

/// A well-formed cell-size report round-trips: the report built from a
/// positive width and height parses back to exactly those values.
pub proof fn lemma_cell_report_roundtrip(w: u16, h: u16)
    requires
        1 <= w,
        1 <= h,
    ensures
        cell_size_spec(
            cell_size_prefix() + dec_digits(h as nat) + seq![0x3bu8] + dec_digits(w as nat)
                + seq![0x74u8],
        ) == Some((w, h)),
{
    let hd = dec_digits(h as nat);
    let wd = dec_digits(w as nat);
    lemma_dec_digits_value(h as nat);
    lemma_dec_digits_value(w as nat);
    let s = cell_size_prefix() + hd + seq![0x3bu8] + wd + seq![0x74u8];
    let hl = hd.len() as int;
    let wl = wd.len() as int;
    assert(s.subrange(0, 4) =~= cell_size_prefix());
    assert(matches_at(s, cell_size_prefix(), 0));
    assert(find_from(s, cell_size_prefix(), 0) == Some(0int));
    let t = s.subrange(4, s.len() as int);
    assert(t =~= hd + seq![0x3bu8] + wd + seq![0x74u8]);
    assert forall|j: int| 0 <= j < hl implies is_ascii_digit(#[trigger] t[j]) by {
        assert(t[j] == hd[j]);
    }
    assert(t[hl] == 0x3bu8);
    lemma_digit_end_run(t, 0, hl);
    assert forall|j: int| hl + 1 <= j < hl + 1 + wl implies is_ascii_digit(#[trigger] t[j]) by {
        assert(t[j] == wd[j - hl - 1]);
    }
    assert(t[hl + 1 + wl] == 0x74u8);
    lemma_digit_end_run(t, hl + 1, hl + 1 + wl);
    assert(t.subrange(0, hl) =~= hd);
    assert(t.subrange(hl + 1, hl + 1 + wl) =~= wd);
    assert(cell_fields(t) == Some((w, h)));
}

/// A well-formed background report classifies deterministically by the
/// scaled luma of the leading hex pair of each channel: light exactly
/// when that luma exceeds the threshold.
pub proof fn lemma_bg_report_luma(t: Seq<u8>)
    requires
        t.len() >= 14,
        channel_ok(t, 0),
        channel_ok(t, 5),
        channel_ok(t, 10),
    ensures
        light_bg_spec(bg_prefix() + t) == (scaled_luma(
            channel_value(t, 0),
            channel_value(t, 5),
            channel_value(t, 10),
        ) > light_threshold()),
{
    let s = bg_prefix() + t;
    assert(s.subrange(0, 8) =~= bg_prefix());
    assert(matches_at(s, bg_prefix(), 0));
    assert(find_from(s, bg_prefix(), 0) == Some(0int));
    assert(s.subrange(8, s.len() as int) =~= t);
}

/// A buffer without the background-color marker is always classified as
/// dark, never as an error.
pub proof fn lemma_missing_bg_report_is_dark(s: Seq<u8>)
    requires
        !contains_seq(s, bg_prefix()),
    ensures
        !light_bg_spec(s),
{
    lemma_find_from_characterizes(s, bg_prefix(), 0);
    if find_from(s, bg_prefix(), 0) is Some {
        assert(contains_seq(s, bg_prefix()));
    }
}

} // verus!
