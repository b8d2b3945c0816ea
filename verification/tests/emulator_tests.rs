use termprobe::Adapter;
use termprobe::Brand;
use termprobe::Emulator;
use termprobe::Kind;
use termprobe::Unknown;

#[test]
fn brand_from_csi_signatures() {
    assert_eq!(Brand::from_csi(b"\x1bP>|kitty(0.32.2)\x1b\\"), Some(Brand::Kitty));
    assert_eq!(Brand::from_csi(b"\x1bP>|WezTerm 20230712\x1b\\"), Some(Brand::WezTerm));
    assert_eq!(Brand::from_csi(b"\x1bP>|iTerm2 3.5.0\x1b\\"), Some(Brand::Iterm2));
    assert_eq!(Brand::from_csi(b"\x1bP>|foot(1.16.2)\x1b\\"), Some(Brand::Foot));
    assert_eq!(Brand::from_csi(b"\x1bP>|ghostty 1.0.0\x1b\\"), Some(Brand::Ghostty));
    assert_eq!(Brand::from_csi(b"\x1b[>0;10;1c"), None);
    assert_eq!(Brand::from_csi(b""), None);
}

#[test]
fn brand_from_csi_precedence_order() {
    assert_eq!(Brand::from_csi(b"Konsole kitty"), Some(Brand::Kitty));
}

#[test]
fn brand_adapter_tables() {
    assert_eq!(Brand::Kitty.adapters(), vec![Adapter::Kgp]);
    assert_eq!(Brand::Konsole.adapters(), vec![Adapter::KgpOld]);
    assert_eq!(Brand::Iterm2.adapters(), vec![Adapter::Iip, Adapter::Sixel]);
    assert_eq!(Brand::Foot.adapters(), vec![Adapter::Sixel]);
    assert_eq!(Brand::Apple.adapters(), vec![Adapter::Chafa]);
}

#[test]
fn unknown_adapter_lists() {
    let bare = Unknown { kgp: false, sixel: false };
    assert_eq!(bare.adapters(), vec![Adapter::Chafa]);
    let kgp = Unknown { kgp: true, sixel: false };
    assert_eq!(kgp.adapters(), vec![Adapter::Kgp, Adapter::Chafa]);
    let sixel = Unknown { kgp: false, sixel: true };
    assert_eq!(sixel.adapters(), vec![Adapter::Sixel, Adapter::Chafa]);
    let both = Unknown { kgp: true, sixel: true };
    assert_eq!(both.adapters(), vec![Adapter::Kgp, Adapter::Sixel, Adapter::Chafa]);
}

#[test]
fn unknown_snapshot_defaults() {
    let e = Emulator::unknown();
    assert_eq!(e.kind, Kind::Unknown(Unknown { kgp: false, sixel: false }));
    assert!(!e.light);
    assert_eq!(e.cell_size, None);
    let d = Emulator::default();
    assert_eq!(d.kind, e.kind);
    assert_eq!(d.light, e.light);
    assert_eq!(d.cell_size, e.cell_size);
}

#[test]
fn kgp_acknowledged_without_brand_or_resort() {
    let e = Emulator::from_response(b"\x1b_Gi=31;OK\x1b\\\x1b[?6c", None);
    assert_eq!(e.kind, Kind::Unknown(Unknown { kgp: true, sixel: false }));
    assert!(!e.light);
    assert_eq!(e.cell_size, None);
}

#[test]
fn signature_wins_over_resort() {
    let e = Emulator::from_response(b"\x1bP>|WezTerm 20230712\x1b\\\x1b[?6c", Some(Brand::Kitty));
    assert_eq!(e.kind, Kind::Known(Brand::WezTerm));
}

#[test]
fn resort_fills_in_when_no_signature() {
    let e = Emulator::from_response(b"\x1b[?6c", Some(Brand::Kitty));
    assert_eq!(e.kind, Kind::Known(Brand::Kitty));
}

#[test]
fn full_response_without_brand() {
    let resp = b"\x1b[?62;4c\x1b[6;20;10t\x1b]11;rgb:ffff/ffff/ffff\x07";
    let e = Emulator::from_response(resp, None);
    assert_eq!(e.kind, Kind::Unknown(Unknown { kgp: false, sixel: true }));
    assert!(e.light);
    assert_eq!(e.cell_size, Some((10, 20)));
}

#[test]
fn snapshot_adapters_follow_kind() {
    let known = Emulator::from_response(b"kitty", None);
    assert_eq!(known.adapters(), vec![Adapter::Kgp]);
    let unknown = Emulator::from_response(b"\x1b[?4c", None);
    assert_eq!(unknown.adapters(), vec![Adapter::Sixel, Adapter::Chafa]);
}
