//! The cursor-locked scoped write: the exact byte sequences to emit
//! before and after a caller-supplied draw at an absolute position.
//!
//! The application writes the prologue, runs the draw callback against
//! its buffered writer, writes the epilogue, and flushes exactly once;
//! on the defensive path it also waits briefly after the forced moves.

use vstd::prelude::*;

use crate::emit::dec_digits;
use crate::emit::push_dec;

verus! {

/// `ESC 7`: save the cursor position.
pub open spec fn save_cursor() -> Seq<u8> {
    seq![0x1bu8, 0x37u8]
}

/// `ESC 8`: restore the saved cursor position.
pub open spec fn restore_cursor() -> Seq<u8> {
    seq![0x1bu8, 0x38u8]
}

/// `ESC [ ? 2 5 h`: show the cursor.
pub open spec fn show_cursor() -> Seq<u8> {
    seq![0x1bu8, 0x5bu8, 0x3fu8, 0x32u8, 0x35u8, 0x68u8]
}

/// `ESC [ ? 2 5 l`: hide the cursor.
pub open spec fn hide_cursor() -> Seq<u8> {
    seq![0x1bu8, 0x5bu8, 0x3fu8, 0x32u8, 0x35u8, 0x6cu8]
}

/// `ESC [ row ; col H` moving to the zero-based cell `(x, y)`: the wire
/// format counts rows and columns from one.
pub open spec fn move_to_seq(x: u16, y: u16) -> Seq<u8> {
    seq![0x1bu8, 0x5bu8] + dec_digits(y as nat + 1) + seq![0x3bu8] + dec_digits(x as nat + 1)
        + seq![0x48u8]
}

/// Whether the environment is suspected of desynchronizing cursor state,
/// so that the defensive forced-move path must be taken: multiplexed
/// sessions and the Windows console subsystem both are.
pub open spec fn workaround_needed(in_mux: bool, on_windows: bool) -> bool {
    in_mux || on_windows
}

/// Bytes to emit before the draw: on the defensive path the position is
/// saved and then forced three times with the cursor shown; otherwise the
/// position is saved and set once.
pub open spec fn prologue_seq(x: u16, y: u16, defensive: bool) -> Seq<u8> {
    if defensive {
        save_cursor() + move_to_seq(x, y) + show_cursor() + move_to_seq(x, y) + show_cursor()
            + move_to_seq(x, y) + show_cursor()
    } else {
        save_cursor() + move_to_seq(x, y)
    }
}

/// Bytes to emit after the draw: the defensive path hides the cursor
/// before restoring the position, to avoid a visible flash.
pub open spec fn epilogue_seq(defensive: bool) -> Seq<u8> {
    if defensive {
        hide_cursor() + restore_cursor()
    } else {
        restore_cursor()
    }
}

/// Appends the move-to sequence for the zero-based cell `(x, y)`.
pub fn push_move_to(v: &mut Vec<u8>, x: u16, y: u16)
    ensures
        final(v)@ == old(v)@ + move_to_seq(x, y),
{
    v.push(0x1b);
    v.push(0x5b);
    push_dec(v, (y as u32) + 1);
    v.push(0x3b);
    push_dec(v, (x as u32) + 1);
    v.push(0x48);
    proof {
        assert(v@ =~= old(v)@ + move_to_seq(x, y));
    }
}

/// Whether the defensive forced-move path must be taken.
pub fn needs_cursor_workaround(in_mux: bool, on_windows: bool) -> (r: bool)
    ensures
        r == workaround_needed(in_mux, on_windows),
{
    in_mux || on_windows
}

/// The bytes to emit before the draw callback runs.
pub fn cursor_lock_prologue(x: u16, y: u16, defensive: bool) -> (v: Vec<u8>)
    ensures
        v@ == prologue_seq(x, y, defensive),
{
    let mut v: Vec<u8> = Vec::new();
    v.push(0x1b);
    v.push(0x37);
    push_move_to(&mut v, x, y);
    if defensive {
        push_show(&mut v);
        push_move_to(&mut v, x, y);
        push_show(&mut v);
        push_move_to(&mut v, x, y);
        push_show(&mut v);
        proof {
            assert(v@ =~= prologue_seq(x, y, defensive));
        }
    } else {
        proof {
            assert(v@ =~= prologue_seq(x, y, defensive));
        }
    }
    v
}

/// The bytes to emit after the draw callback has run.
pub fn cursor_lock_epilogue(defensive: bool) -> (v: Vec<u8>)
    ensures
        v@ == epilogue_seq(defensive),
{
    let mut v: Vec<u8> = Vec::new();
    if defensive {
        v.push(0x1b);
        v.push(0x5b);
        v.push(0x3f);
        v.push(0x32);
        v.push(0x35);
        v.push(0x6c);
    }
    v.push(0x1b);
    v.push(0x38);
    proof {
        assert(v@ =~= epilogue_seq(defensive));
    }
    v
}

/// Appends the show-cursor sequence.
fn push_show(v: &mut Vec<u8>)
    ensures
        final(v)@ == old(v)@ + show_cursor(),
{
    v.push(0x1b);
    v.push(0x5b);
    v.push(0x3f);
    v.push(0x32);
    v.push(0x35);
    v.push(0x68);
    proof {
        assert(v@ =~= old(v)@ + show_cursor());
    }
}

} // verus!
