use nix::ioctl::{
    ioc, ioc_decode, ioc_dir, ioc_nr, ioc_size, ioc_type, io, ior, iorw, iow, IoctlArch,
};

// The reference kernel macro for the generic layout: number at bits[0:8],
// type at bits[8:16], size at bits[16:30], direction at bits[30:32].
#[test]
fn generic_write_scenario_matches_reference_macro() {
    let w = ioc(IoctlArch::Generic, 1, 0x89, 10, 4);
    assert_eq!(w, 0x4004890a);
    assert_eq!(ioc_dir(w), 1);
    assert_eq!(ioc_type(w), 0x89);
    assert_eq!(ioc_nr(w), 10);
    assert_eq!(ioc_size(w), 4);
}

#[test]
fn generic_roundtrip_samples() {
    let cases: Vec<(u32, u32, u32, u32)> = vec![
        (0, 0, 0, 0),
        (3, 0xff, 0xff, 0x3fff),
        (2, 0x12, 7, 16),
        (1, 0xab, 0, 1),
    ];
    for &(dir, ty, nr, sz) in &cases {
        let w = ioc(IoctlArch::Generic, dir, ty, nr, sz);
        let (d, t, n, s) = ioc_decode(IoctlArch::Generic, w);
        assert_eq!((d, t, n, s), (dir, ty, nr, sz));
    }
}

#[test]
fn mips_roundtrip_samples() {
    let cases: Vec<(u32, u32, u32, u32)> = vec![
        (1, 0, 0, 0),
        (7, 0xff, 0xff, 0x1fff),
        (4, 0x89, 10, 4),
        (2, 0x12, 7, 16),
    ];
    for &(dir, ty, nr, sz) in &cases {
        let w = ioc(IoctlArch::MipsPowerpc, dir, ty, nr, sz);
        let (d, t, n, s) = ioc_decode(IoctlArch::MipsPowerpc, w);
        assert_eq!((d, t, n, s), (dir, ty, nr, sz));
    }
}

#[test]
fn mips_layout_direction_bits_differ() {
    // On the MIPS/PowerPC layout the direction sits at bit 29 and
    // write = 4, none = 1.
    let w = ioc(IoctlArch::MipsPowerpc, 4, 0x89, 10, 4);
    assert_eq!(w, (4 << 29) | (0x89 << 8) | 10 | (4 << 16));
    let (d, t, n, s) = ioc_decode(IoctlArch::MipsPowerpc, w);
    assert_eq!((d, t, n, s), (4, 0x89, 10, 4));
}

#[test]
fn derived_builders_equal_general_encoder() {
    for arch in [IoctlArch::Generic, IoctlArch::MipsPowerpc] {
        let none = match arch {
            IoctlArch::Generic => 0,
            IoctlArch::MipsPowerpc => 1,
        };
        let read = 2;
        let write = match arch {
            IoctlArch::Generic => 1,
            IoctlArch::MipsPowerpc => 4,
        };
        assert_eq!(io(arch, 0x89, 10), ioc(arch, none, 0x89, 10, 0));
        assert_eq!(ior(arch, 0x89, 10, 4), ioc(arch, read, 0x89, 10, 4));
        assert_eq!(iow(arch, 0x89, 10, 4), ioc(arch, write, 0x89, 10, 4));
        assert_eq!(iorw(arch, 0x89, 10, 4), ioc(arch, read | write, 0x89, 10, 4));
    }
}

#[test]
fn decoders_are_idempotent() {
    let w = ioc(IoctlArch::Generic, 2, 0x77, 42, 128);
    assert_eq!(ioc_dir(w), ioc_dir(w));
    assert_eq!(ioc_type(w), ioc_type(w));
    assert_eq!(ioc_nr(w), ioc_nr(w));
    assert_eq!(ioc_size(w), ioc_size(w));
    assert_eq!(ioc_decode(IoctlArch::MipsPowerpc, w), ioc_decode(IoctlArch::MipsPowerpc, w));
}

#[test]
fn encoder_truncates_nothing_and_checks_nothing() {
    // A number field wider than 8 bits silently corrupts the type field,
    // exactly as the kernel macro would.
    let w = ioc(IoctlArch::Generic, 0, 0, 0x100, 0);
    assert_eq!(ioc_nr(w), 0);
    assert_eq!(ioc_type(w), 1);
}
