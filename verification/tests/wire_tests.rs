use termprobe::cursor_lock_epilogue;
use termprobe::cursor_lock_prologue;
use termprobe::needs_cursor_workaround;
use termprobe::probe_burst;
use termprobe::push_dec;
use termprobe::push_move_to;

#[test]
fn plain_prologue_saves_and_moves_once() {
    assert_eq!(cursor_lock_prologue(0, 0, false), b"\x1b7\x1b[1;1H".to_vec());
}

#[test]
fn defensive_prologue_forces_position_three_times() {
    assert_eq!(
        cursor_lock_prologue(9, 4, true),
        b"\x1b7\x1b[5;10H\x1b[?25h\x1b[5;10H\x1b[?25h\x1b[5;10H\x1b[?25h".to_vec(),
    );
}

#[test]
fn epilogues() {
    assert_eq!(cursor_lock_epilogue(false), b"\x1b8".to_vec());
    assert_eq!(cursor_lock_epilogue(true), b"\x1b[?25l\x1b8".to_vec());
}

#[test]
fn workaround_policy_is_an_umbrella() {
    assert!(!needs_cursor_workaround(false, false));
    assert!(needs_cursor_workaround(true, false));
    assert!(needs_cursor_workaround(false, true));
    assert!(needs_cursor_workaround(true, true));
}

#[test]
fn move_to_uses_one_based_coordinates() {
    let mut v = Vec::new();
    push_move_to(&mut v, 79, 23);
    assert_eq!(v, b"\x1b[24;80H".to_vec());
}

#[test]
fn move_to_largest_cell() {
    let mut v = Vec::new();
    push_move_to(&mut v, 65534, 65534);
    assert_eq!(v, b"\x1b[65535;65535H".to_vec());
}

#[test]
fn decimal_formatting() {
    let mut v = Vec::new();
    push_dec(&mut v, 0);
    assert_eq!(v, b"0".to_vec());
    let mut w = Vec::new();
    push_dec(&mut w, 10070);
    assert_eq!(w, b"10070".to_vec());
}

#[test]
fn burst_without_image_probe() {
    assert_eq!(probe_burst(false), b"\x1b7\x1b[>q\x1b[16t\x1b]11;?\x07\x1b[0c\x1b8".to_vec());
}

#[test]
fn burst_with_image_probe() {
    assert_eq!(
        probe_burst(true),
        b"\x1b7\x1b_Gi=31,s=1,v=1,a=q,t=d,f=24;AAAA\x1b\\\x1b[>q\x1b[16t\x1b]11;?\x07\x1b[0c\x1b8"
            .to_vec(),
    );
}
