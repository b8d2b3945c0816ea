//! The probe burst: the control sequences emitted, in one write, to ask
//! the terminal for its version, cell size, background color and device
//! attributes, optionally preceded by the placeholder-image probe.
//!
//! The application writes the burst to the error stream under a single
//! flush and then reads the reply until the device-attributes terminator.

use vstd::prelude::*;

use crate::cursor::restore_cursor;
use crate::cursor::save_cursor;
use crate::emit::push_slice;

verus! {

/// The placeholder pixel-graphics probe: a keyed query-mode transmission
/// of a 1 by 1 transparent image, drawing nothing.
pub open spec fn kgp_probe() -> Seq<u8> {
    seq![
        0x1bu8, 0x5fu8, 0x47u8, 0x69u8, 0x3du8, 0x33u8, 0x31u8, 0x2cu8, 0x73u8, 0x3du8, 0x31u8,
        0x2cu8, 0x76u8, 0x3du8, 0x31u8, 0x2cu8, 0x61u8, 0x3du8, 0x71u8, 0x2cu8, 0x74u8, 0x3du8,
        0x64u8, 0x2cu8, 0x66u8, 0x3du8, 0x32u8, 0x34u8, 0x3bu8, 0x41u8, 0x41u8, 0x41u8, 0x41u8,
        0x1bu8, 0x5cu8,
    ]
}

/// `ESC [ > q`: request the terminal name and version.
pub open spec fn version_query() -> Seq<u8> {
    seq![0x1bu8, 0x5bu8, 0x3eu8, 0x71u8]
}

/// `ESC [ 1 6 t`: request the character cell size in pixels.
pub open spec fn cell_size_query() -> Seq<u8> {
    seq![0x1bu8, 0x5bu8, 0x31u8, 0x36u8, 0x74u8]
}

/// `ESC ] 1 1 ; ? BEL`: request the default background color.
pub open spec fn bg_query() -> Seq<u8> {
    seq![0x1bu8, 0x5du8, 0x31u8, 0x31u8, 0x3bu8, 0x3fu8, 0x07u8]
}

/// `ESC [ 0 c`: request the primary device attributes, the universal
/// end-of-burst marker.
pub open spec fn da1_query() -> Seq<u8> {
    seq![0x1bu8, 0x5bu8, 0x30u8, 0x63u8]
}

/// The whole burst: save the cursor, optionally probe pixel graphics,
/// query version, cell size, background and device attributes, restore
/// the cursor.  The image probe is skipped when a brand was pre-resolved,
/// since some brands falsely acknowledge it.
pub open spec fn probe_burst_seq(include_kgp: bool) -> Seq<u8> {
    save_cursor() + (if include_kgp {
        kgp_probe()
    } else {
        Seq::empty()
    }) + version_query() + cell_size_query() + bg_query() + da1_query() + restore_cursor()
}

/// Builds the probe burst; `include_kgp` is false when a brand was
/// pre-resolved from the environment.
pub fn probe_burst(include_kgp: bool) -> (v: Vec<u8>)
    ensures
        v@ == probe_burst_seq(include_kgp),
{
    let kgp = [
        0x1bu8, 0x5fu8, 0x47u8, 0x69u8, 0x3du8, 0x33u8, 0x31u8, 0x2cu8, 0x73u8, 0x3du8, 0x31u8,
        0x2cu8, 0x76u8, 0x3du8, 0x31u8, 0x2cu8, 0x61u8, 0x3du8, 0x71u8, 0x2cu8, 0x74u8, 0x3du8,
        0x64u8, 0x2cu8, 0x66u8, 0x3du8, 0x32u8, 0x34u8, 0x3bu8, 0x41u8, 0x41u8, 0x41u8, 0x41u8,
        0x1bu8, 0x5cu8,
    ];
    let version = [0x1bu8, 0x5bu8, 0x3eu8, 0x71u8];
    let cell = [0x1bu8, 0x5bu8, 0x31u8, 0x36u8, 0x74u8];
    let bg = [0x1bu8, 0x5du8, 0x31u8, 0x31u8, 0x3bu8, 0x3fu8, 0x07u8];
    let da1 = [0x1bu8, 0x5bu8, 0x30u8, 0x63u8];
    let mut v: Vec<u8> = Vec::new();
    v.push(0x1b);
    v.push(0x37);
    if include_kgp {
        push_slice(&mut v, kgp.as_slice());
    }
    push_slice(&mut v, version.as_slice());
    push_slice(&mut v, cell.as_slice());
    push_slice(&mut v, bg.as_slice());
    push_slice(&mut v, da1.as_slice());
    v.push(0x1b);
    v.push(0x38);
    proof {
        assert(v@ =~= probe_burst_seq(include_kgp));
    }
    v
}

} // verus!
