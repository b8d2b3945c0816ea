//! The capability snapshot: which terminal hosts the process, whether the
//! background is light, and the cell size in pixels, built once from the
//! captured probe response.

use vstd::prelude::*;

use crate::brand::brand_adapters;
use crate::brand::from_csi_spec;
use crate::brand::Adapter;
use crate::brand::Brand;
use crate::parse::cell_size;
use crate::parse::cell_size_spec;
use crate::parse::detect_kgp;
use crate::parse::detect_sixel;
use crate::parse::light_bg;
use crate::parse::light_bg_spec;
use crate::parse::supports_kgp;
use crate::parse::supports_sixel;

verus! {

/// Capability flags gathered when no brand could be recognized.
#[derive(Clone, Copy, Debug, PartialEq, Eq, Structural)]
pub struct Unknown {
    /// The placeholder-image probe was acknowledged.
    pub kgp: bool,
    /// A Sixel-capability substring was seen.
    pub sixel: bool,
}

/// Exactly one of the two is populated: a recognized brand, or the flags
/// detected for an unrecognized terminal.
#[derive(Clone, Copy, Debug, PartialEq, Eq, Structural)]
pub enum Kind {
    Known(Brand),
    Unknown(Unknown),
}

/// The capability snapshot produced by one detection pass.
#[derive(Clone, Copy, Debug)]
pub struct Emulator {
    pub kind: Kind,
    pub light: bool,
    pub cell_size: Option<(u16, u16)>,
}

/// Generic adapter list for an unrecognized terminal: the protocols its
/// response acknowledged, then the character-cell fallback.
pub open spec fn unknown_adapters(u: Unknown) -> Seq<Adapter> {
    (if u.kgp {
        seq![Adapter::Kgp]
    } else {
        Seq::empty()
    }) + (if u.sixel {
        seq![Adapter::Sixel]
    } else {
        Seq::empty()
    }) + seq![Adapter::Chafa]
}

impl Unknown {
    /// The adapter list for these flags.
    pub fn adapters(self) -> (v: Vec<Adapter>)
        ensures
            v@ == unknown_adapters(self),
    {
        let mut v: Vec<Adapter> = Vec::new();
        if self.kgp {
            v.push(Adapter::Kgp);
        }
        if self.sixel {
            v.push(Adapter::Sixel);
        }
        v.push(Adapter::Chafa);
        proof {
            assert(v@ =~= unknown_adapters(self));
        }
        v
    }
}

impl Default for Unknown {
    /// Both flags off.
    fn default() -> (u: Unknown)
        ensures
            u == (Unknown { kgp: false, sixel: false }),
    {
        Unknown { kgp: false, sixel: false }
    }
}

/// The snapshot reported when nothing could be detected: unknown terminal
/// with both flags off, dark background, no cell size.
pub open spec fn unknown_emulator() -> Emulator {
    Emulator {
        kind: Kind::Unknown(Unknown { kgp: false, sixel: false }),
        light: false,
        cell_size: None,
    }
}

/// The `kind` that a captured response and an optional pre-resolved brand
/// settle on: a brand recognized from the response signature wins, the
/// pre-resolved brand is the fallback, and with neither the detected flags
/// populate the unknown variant.
pub open spec fn kind_from(resp: Seq<u8>, resort: Option<Brand>) -> Kind {
    match from_csi_spec(resp) {
        Some(b) => Kind::Known(b),
        None => match resort {
            Some(b) => Kind::Known(b),
            None => Kind::Unknown(
                Unknown { kgp: supports_kgp(resp), sixel: supports_sixel(resp) },
            ),
        },
    }
}

/// The full snapshot a captured response and an optional pre-resolved
/// brand yield.
pub open spec fn from_response_spec(resp: Seq<u8>, resort: Option<Brand>) -> Emulator {
    Emulator {
        kind: kind_from(resp, resort),
        light: light_bg_spec(resp),
        cell_size: cell_size_spec(resp),
    }
}

impl Emulator {
    /// A present cell size has both components positive.
    pub open spec fn wf(self) -> bool {
        match self.cell_size {
            Some(wh) => wh.0 > 0 && wh.1 > 0,
            None => true,
        }
    }

    /// The snapshot for a terminal about which nothing is known.
    pub fn unknown() -> (e: Emulator)
        ensures
            e == unknown_emulator(),
            e.wf(),
    {
        Emulator {
            kind: Kind::Unknown(Unknown { kgp: false, sixel: false }),
            light: false,
            cell_size: None,
        }
    }

    /// Builds the capability snapshot from the captured probe response and
    /// the brand pre-resolved from the environment, if any.  This is the
    /// pure half of detection; the application captures the bytes.
    pub fn from_response(resp: &[u8], resort: Option<Brand>) -> (e: Emulator)
        ensures
            e == from_response_spec(resp@, resort),
            e.wf(),
    {
        let kind = match Brand::from_csi(resp) {
            Some(b) => Kind::Known(b),
            None => match resort {
                Some(b) => Kind::Known(b),
                None => Kind::Unknown(
                    Unknown { kgp: detect_kgp(resp), sixel: detect_sixel(resp) },
                ),
            },
        };
        Emulator { kind, light: light_bg(resp), cell_size: cell_size(resp) }
    }

    /// The adapter list of the snapshot's kind.
    pub fn adapters(self) -> (v: Vec<Adapter>)
        ensures
            v@ == match self.kind {
                Kind::Known(b) => brand_adapters(b),
                Kind::Unknown(u) => unknown_adapters(u),
            },
    {
        match self.kind {
            Kind::Known(b) => b.adapters(),
            Kind::Unknown(u) => u.adapters(),
        }
    }
}

impl Default for Emulator {
    /// Same as `Emulator::unknown`.
    fn default() -> (e: Emulator)
        ensures
            e == unknown_emulator(),
    {
        Emulator::unknown()
    }
}

/// Precedence: a brand recognized from the response signature decides the
/// kind, whatever brand the environment pre-resolved.
pub proof fn lemma_signature_wins(resp: Seq<u8>, resort: Option<Brand>, b: Brand)
    requires
        from_csi_spec(resp) == Some(b),
    ensures
        from_response_spec(resp, resort).kind == Kind::Known(b),
{
}

/// Fallback: with no signature in the response, the pre-resolved brand
/// decides the kind.
pub proof fn lemma_resort_fallback(resp: Seq<u8>, b: Brand)
    requires
        from_csi_spec(resp) is None,
    ensures
        from_response_spec(resp, Some(b)).kind == Kind::Known(b),
{
}

/// With neither a recognized signature nor a pre-resolved brand, the kind
/// is unknown and carries exactly the detected protocol flags.
pub proof fn lemma_unknown_kind(resp: Seq<u8>)
    requires
        from_csi_spec(resp) is None,
    ensures
        from_response_spec(resp, None).kind == Kind::Unknown(
            Unknown { kgp: supports_kgp(resp), sixel: supports_sixel(resp) },
        ),
{
}

} // verus!
