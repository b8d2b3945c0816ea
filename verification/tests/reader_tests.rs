use termprobe::da1_terminated;
use termprobe::dsr_terminated;

#[test]
fn da1_complete_reply() {
    assert!(da1_terminated(b"\x1b[?6c"));
    assert!(da1_terminated(b"\x1b[?62;4c"));
}

#[test]
fn da1_with_earlier_responses_in_buffer() {
    assert!(da1_terminated(b"\x1b_Gi=31;OK\x1b\\\x1b[?6c"));
}

#[test]
fn da1_incomplete_reply() {
    assert!(!da1_terminated(b"\x1b[?6"));
    assert!(!da1_terminated(b"\x1b[?"));
    assert!(!da1_terminated(b"\x1b"));
    assert!(!da1_terminated(b""));
}

#[test]
fn da1_needs_escape_before_terminator() {
    assert!(!da1_terminated(b"abc"));
}

#[test]
fn da1_suffix_after_last_escape_must_open_with_query() {
    assert!(!da1_terminated(b"\x1b[0c"));
    // The last escape starts a string terminator, not a `[?` reply.
    assert!(!da1_terminated(b"\x1b[?6c\x1b\\c"));
}

#[test]
fn da1_last_byte_must_be_terminator() {
    assert!(!da1_terminated(b"\x1b[?6c\x1b"));
}

#[test]
fn da1_fires_exactly_when_reply_completes() {
    let resp: &[u8] = b"\x1b[>1;10;0c\x1b[?62;4c";
    for k in 0..resp.len() {
        assert!(!da1_terminated(&resp[..k]));
    }
    assert!(da1_terminated(resp));
}

#[test]
fn dsr_ready_and_not_ready() {
    assert!(dsr_terminated(b"\x1b[0n"));
    assert!(dsr_terminated(b"\x1b[3n"));
    assert!(dsr_terminated(b"leftover\x1b[0n"));
}

#[test]
fn dsr_other_or_incomplete() {
    assert!(!dsr_terminated(b"\x1b[1n"));
    assert!(!dsr_terminated(b"\x1b[0"));
    assert!(!dsr_terminated(b"0n"));
    assert!(!dsr_terminated(b""));
}
