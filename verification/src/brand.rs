//! Known terminal brands: the response signatures that identify them and
//! the statically associated list of rendering adapters of each.

use vstd::prelude::*;

use crate::scan::contains_bytes;
use crate::scan::contains_seq;

verus! {

/// A rendering strategy that downstream image code can pick.
#[derive(Clone, Copy, Debug, PartialEq, Eq, Structural)]
pub enum Adapter {
    /// Keyed pixel-graphics protocol.
    Kgp,
    /// Older revision of the keyed pixel-graphics protocol.
    KgpOld,
    /// Inline-image protocol.
    Iip,
    /// Sixel bitmap encoding.
    Sixel,
    /// Character-cell fallback rendering.
    Chafa,
}

/// A specifically recognized terminal emulator.
#[derive(Clone, Copy, Debug, PartialEq, Eq, Structural)]
pub enum Brand {
    Kitty,
    Konsole,
    Iterm2,
    WezTerm,
    Foot,
    Ghostty,
    Mintty,
    Rio,
    Tabby,
    Hyper,
    Microsoft,
    VSCode,
    BlackBox,
    Apple,
    Urxvt,
}

/// Signature substring whose presence in the version/attributes response
/// identifies the brand.  Brands that are only ever pre-resolved from the
/// process environment have no signature, written as the empty sequence.
pub open spec fn signature_of(b: Brand) -> Seq<u8> {
    match b {
        Brand::Kitty => seq![0x6bu8, 0x69u8, 0x74u8, 0x74u8, 0x79u8],
        Brand::Konsole => seq![0x4bu8, 0x6fu8, 0x6eu8, 0x73u8, 0x6fu8, 0x6cu8, 0x65u8],
        Brand::Iterm2 => seq![0x69u8, 0x54u8, 0x65u8, 0x72u8, 0x6du8, 0x32u8],
        Brand::WezTerm => seq![0x57u8, 0x65u8, 0x7au8, 0x54u8, 0x65u8, 0x72u8, 0x6du8],
        Brand::Foot => seq![0x66u8, 0x6fu8, 0x6fu8, 0x74u8],
        Brand::Ghostty => seq![0x67u8, 0x68u8, 0x6fu8, 0x73u8, 0x74u8, 0x74u8, 0x79u8],
        Brand::Mintty => seq![0x6du8, 0x69u8, 0x6eu8, 0x74u8, 0x74u8, 0x79u8],
        Brand::Rio => seq![0x72u8, 0x69u8, 0x6fu8],
        Brand::Tabby => seq![0x54u8, 0x61u8, 0x62u8, 0x62u8, 0x79u8],
        Brand::Hyper => seq![0x48u8, 0x79u8, 0x70u8, 0x65u8, 0x72u8],
        _ => Seq::empty(),
    }
}

/// Brand recognized from the captured response: the first brand, in a
/// fixed precedence order, whose signature occurs in the buffer.
pub open spec fn from_csi_spec(s: Seq<u8>) -> Option<Brand> {
    if contains_seq(s, signature_of(Brand::Kitty)) {
        Some(Brand::Kitty)
    } else if contains_seq(s, signature_of(Brand::Konsole)) {
        Some(Brand::Konsole)
    } else if contains_seq(s, signature_of(Brand::Iterm2)) {
        Some(Brand::Iterm2)
    } else if contains_seq(s, signature_of(Brand::WezTerm)) {
        Some(Brand::WezTerm)
    } else if contains_seq(s, signature_of(Brand::Foot)) {
        Some(Brand::Foot)
    } else if contains_seq(s, signature_of(Brand::Ghostty)) {
        Some(Brand::Ghostty)
    } else if contains_seq(s, signature_of(Brand::Mintty)) {
        Some(Brand::Mintty)
    } else if contains_seq(s, signature_of(Brand::Rio)) {
        Some(Brand::Rio)
    } else if contains_seq(s, signature_of(Brand::Tabby)) {
        Some(Brand::Tabby)
    } else if contains_seq(s, signature_of(Brand::Hyper)) {
        Some(Brand::Hyper)
    } else {
        None
    }
}

/// Adapters statically associated with the brand, in preference order.
pub open spec fn brand_adapters(b: Brand) -> Seq<Adapter> {
    match b {
        Brand::Kitty => seq![Adapter::Kgp],
        Brand::Konsole => seq![Adapter::KgpOld],
        Brand::Iterm2 => seq![Adapter::Iip, Adapter::Sixel],
        Brand::WezTerm => seq![Adapter::Iip, Adapter::Sixel],
        Brand::Foot => seq![Adapter::Sixel],
        Brand::Ghostty => seq![Adapter::Kgp],
        Brand::Mintty => seq![Adapter::Iip],
        Brand::Rio => seq![Adapter::Iip],
        Brand::Tabby => seq![Adapter::Iip, Adapter::Sixel],
        Brand::Hyper => seq![Adapter::Iip, Adapter::Sixel],
        Brand::Microsoft => seq![Adapter::Iip],
        Brand::VSCode => seq![Adapter::Iip, Adapter::Sixel],
        Brand::BlackBox => seq![Adapter::Sixel],
        Brand::Apple => seq![Adapter::Chafa],
        Brand::Urxvt => seq![Adapter::Chafa],
    }
}

impl Brand {
    /// Brand recognized directly from the captured response, if any.
    pub fn from_csi(resp: &[u8]) -> (r: Option<Brand>)
        ensures
            r == from_csi_spec(resp@),
    {
        let kitty = [0x6bu8, 0x69u8, 0x74u8, 0x74u8, 0x79u8];
        let konsole = [0x4bu8, 0x6fu8, 0x6eu8, 0x73u8, 0x6fu8, 0x6cu8, 0x65u8];
        let iterm2 = [0x69u8, 0x54u8, 0x65u8, 0x72u8, 0x6du8, 0x32u8];
        let wezterm = [0x57u8, 0x65u8, 0x7au8, 0x54u8, 0x65u8, 0x72u8, 0x6du8];
        let foot = [0x66u8, 0x6fu8, 0x6fu8, 0x74u8];
        let ghostty = [0x67u8, 0x68u8, 0x6fu8, 0x73u8, 0x74u8, 0x74u8, 0x79u8];
        let mintty = [0x6du8, 0x69u8, 0x6eu8, 0x74u8, 0x74u8, 0x79u8];
        let rio = [0x72u8, 0x69u8, 0x6fu8];
        let tabby = [0x54u8, 0x61u8, 0x62u8, 0x62u8, 0x79u8];
        let hyper = [0x48u8, 0x79u8, 0x70u8, 0x65u8, 0x72u8];
        proof {
            assert(kitty@ =~= signature_of(Brand::Kitty));
            assert(konsole@ =~= signature_of(Brand::Konsole));
            assert(iterm2@ =~= signature_of(Brand::Iterm2));
            assert(wezterm@ =~= signature_of(Brand::WezTerm));
            assert(foot@ =~= signature_of(Brand::Foot));
            assert(ghostty@ =~= signature_of(Brand::Ghostty));
            assert(mintty@ =~= signature_of(Brand::Mintty));
            assert(rio@ =~= signature_of(Brand::Rio));
            assert(tabby@ =~= signature_of(Brand::Tabby));
            assert(hyper@ =~= signature_of(Brand::Hyper));
        }
        if contains_bytes(resp, kitty.as_slice()) {
            Some(Brand::Kitty)
        } else if contains_bytes(resp, konsole.as_slice()) {
            Some(Brand::Konsole)
        } else if contains_bytes(resp, iterm2.as_slice()) {
            Some(Brand::Iterm2)
        } else if contains_bytes(resp, wezterm.as_slice()) {
            Some(Brand::WezTerm)
        } else if contains_bytes(resp, foot.as_slice()) {
            Some(Brand::Foot)
        } else if contains_bytes(resp, ghostty.as_slice()) {
            Some(Brand::Ghostty)
        } else if contains_bytes(resp, mintty.as_slice()) {
            Some(Brand::Mintty)
        } else if contains_bytes(resp, rio.as_slice()) {
            Some(Brand::Rio)
        } else if contains_bytes(resp, tabby.as_slice()) {
            Some(Brand::Tabby)
        } else if contains_bytes(resp, hyper.as_slice()) {
            Some(Brand::Hyper)
        } else {
            None
        }
    }

    /// The brand's statically associated adapter list.
    pub fn adapters(self) -> (v: Vec<Adapter>)
        ensures
            v@ == brand_adapters(self),
    {
        let mut v: Vec<Adapter> = Vec::new();
        match self {
            Brand::Kitty => v.push(Adapter::Kgp),
            Brand::Konsole => v.push(Adapter::KgpOld),
            Brand::Iterm2 => {
                v.push(Adapter::Iip);
                v.push(Adapter::Sixel);
            },
            Brand::WezTerm => {
                v.push(Adapter::Iip);
                v.push(Adapter::Sixel);
            },
            Brand::Foot => v.push(Adapter::Sixel),
            Brand::Ghostty => v.push(Adapter::Kgp),
            Brand::Mintty => v.push(Adapter::Iip),
            Brand::Rio => v.push(Adapter::Iip),
            Brand::Tabby => {
                v.push(Adapter::Iip);
                v.push(Adapter::Sixel);
            },
            Brand::Hyper => {
                v.push(Adapter::Iip);
                v.push(Adapter::Sixel);
            },
            Brand::Microsoft => v.push(Adapter::Iip),
            Brand::VSCode => {
                v.push(Adapter::Iip);
                v.push(Adapter::Sixel);
            },
            Brand::BlackBox => v.push(Adapter::Sixel),
            Brand::Apple => v.push(Adapter::Chafa),
            Brand::Urxvt => v.push(Adapter::Chafa),
        }
        proof {
            assert(v@ =~= brand_adapters(self));
        }
        v
    }
}

} // verus!
