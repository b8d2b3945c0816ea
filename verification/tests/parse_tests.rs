use termprobe::cell_size;
use termprobe::contains_bytes;
use termprobe::detect_kgp;
use termprobe::detect_sixel;
use termprobe::ends_with_bytes;
use termprobe::find_bytes;
use termprobe::light_bg;

#[test]
fn cell_size_well_formed() {
    assert_eq!(cell_size(b"\x1b[6;20;10t"), Some((10, 20)));
}

#[test]
fn cell_size_embedded_in_larger_buffer() {
    assert_eq!(cell_size(b"\x1b[?62c\x1b[6;7;9tmore"), Some((9, 7)));
}

#[test]
fn cell_size_missing_separator() {
    assert_eq!(cell_size(b"\x1b[6;20t"), None);
}

#[test]
fn cell_size_missing_terminator() {
    assert_eq!(cell_size(b"\x1b[6;20;10"), None);
}

#[test]
fn cell_size_empty_height_run() {
    assert_eq!(cell_size(b"\x1b[6;;10t"), None);
}

#[test]
fn cell_size_empty_width_run() {
    assert_eq!(cell_size(b"\x1b[6;20;t"), None);
}

#[test]
fn cell_size_non_digit_in_run() {
    assert_eq!(cell_size(b"\x1b[6;2a;10t"), None);
}

#[test]
fn cell_size_zero_is_absent() {
    assert_eq!(cell_size(b"\x1b[6;0;10t"), None);
    assert_eq!(cell_size(b"\x1b[6;10;0t"), None);
}

#[test]
fn cell_size_overflowing_value() {
    assert_eq!(cell_size(b"\x1b[6;70000;10t"), None);
}

#[test]
fn cell_size_no_marker() {
    assert_eq!(cell_size(b"hello world"), None);
}

#[test]
fn cell_size_uses_first_marker() {
    assert_eq!(cell_size(b"\x1b[6;bad\x1b[6;5;6t"), None);
}

#[test]
fn cell_size_largest_value() {
    assert_eq!(cell_size(b"\x1b[6;65535;65535t"), Some((65535, 65535)));
}

#[test]
fn light_bg_white() {
    assert!(light_bg(b"]11;rgb:ffff/ffff/ffff"));
}

#[test]
fn light_bg_black() {
    assert!(!light_bg(b"]11;rgb:0000/0000/0000"));
}

#[test]
fn light_bg_no_marker_is_dark() {
    assert!(!light_bg(b"\x1b[?62c"));
    assert!(!light_bg(b""));
}

#[test]
fn light_bg_truncated_report_is_dark() {
    assert!(!light_bg(b"]11;rgb:ffff/ffff"));
}

#[test]
fn light_bg_threshold_boundary() {
    // 0x99 per channel scales to exactly 1 530 000, just under the
    // threshold; 0x9a scales to 1 540 000, just over it.
    assert!(!light_bg(b"]11;rgb:9999/9999/9999"));
    assert!(light_bg(b"]11;rgb:9a9a/9a9a/9a9a"));
}

#[test]
fn light_bg_non_hex_channel_is_dark() {
    assert!(!light_bg(b"]11;rgb:zzff/ffff/ffff"));
}

#[test]
fn light_bg_reads_leading_hex_pair_of_each_channel() {
    // Only red at full scale stays dark; only green at full scale is light.
    assert!(!light_bg(b"]11;rgb:ff00/0000/0000"));
    assert!(light_bg(b"]11;rgb:0000/ff00/0000"));
}

#[test]
fn light_bg_in_full_response() {
    assert!(light_bg(b"\x1b]11;rgb:ffff/ffff/ffff\x07\x1b[?62c"));
}

#[test]
fn kgp_acknowledgement() {
    assert!(detect_kgp(b"\x1b_Gi=31;OK\x1b\\"));
    assert!(!detect_kgp(b"\x1b_Gi=31;EINVAL\x1b\\"));
    assert!(!detect_kgp(b""));
}

#[test]
fn sixel_signatures() {
    assert!(detect_sixel(b"\x1b[?4;6c"));
    assert!(detect_sixel(b"\x1b[?4c"));
    assert!(detect_sixel(b"\x1b[?62;4c"));
    assert!(detect_sixel(b"\x1b[?62;4;9c"));
    assert!(!detect_sixel(b"\x1b[?6c"));
    assert!(!detect_sixel(b""));
}

#[test]
fn find_bytes_first_occurrence() {
    assert_eq!(find_bytes(b"abcabc", b"bc"), Some(1));
    assert_eq!(find_bytes(b"abcabc", b"cab"), Some(2));
    assert_eq!(find_bytes(b"abcabc", b"zz"), None);
    assert_eq!(find_bytes(b"abc", b""), Some(0));
}

#[test]
fn contains_and_ends_with() {
    assert!(contains_bytes(b"abcabc", b"ca"));
    assert!(!contains_bytes(b"abcabc", b"ac"));
    assert!(ends_with_bytes(b"abcabc", b"abc"));
    assert!(!ends_with_bytes(b"abcabc", b"ab"));
    assert!(ends_with_bytes(b"abc", b""));
    assert!(!ends_with_bytes(b"ab", b"abc"));
}
