//! The ioctl command codec: four integer fields (number, type, size,
//! direction) packed into one 32-bit word at fixed cumulative offsets.
//!
//! Field widths and direction bit values are architecture-dependent. Two
//! layouts exist; they form a closed set, so a build configuration outside
//! it is unrepresentable. The encoder mirrors the kernel macros exactly:
//! it shifts and ORs blindly, with no field-range checks.

use vstd::prelude::*;

verus! {

/// The two known ioctl bitfield layouts.
#[derive(Clone, Copy, PartialEq, Eq, Structural, Debug)]
pub enum IoctlArch {
    /// x86, x86_64, arm, aarch64: 14 size bits, 2 direction bits,
    /// none = 0, write = 1, read = 2.
    Generic,
    /// mips, powerpc, powerpc64: 13 size bits, 3 direction bits,
    /// none = 1, read = 2, write = 4.
    MipsPowerpc,
}

pub const NRBITS: u32 = 8;
pub const TYPEBITS: u32 = 8;

pub const NRSHIFT: u32 = 0;
pub const TYPESHIFT: u32 = NRSHIFT + NRBITS;
pub const SIZESHIFT: u32 = TYPESHIFT + TYPEBITS;

/// Mask of the number field, `(1 << NRBITS) - 1`.
pub const NRMASK: u32 = 0xff;

/// Mask of the type field, `(1 << TYPEBITS) - 1`.
pub const TYPEMASK: u32 = 0xff;

/// Number of bits of the size field.
pub open spec fn spec_size_bits(arch: IoctlArch) -> u32 {
    match arch {
        IoctlArch::Generic => 14,
        IoctlArch::MipsPowerpc => 13,
    }
}

/// Number of bits of the direction field.
pub open spec fn spec_dir_bits(arch: IoctlArch) -> u32 {
    match arch {
        IoctlArch::Generic => 2,
        IoctlArch::MipsPowerpc => 3,
    }
}

/// Offset of the direction field: it sits just above the size field.
pub open spec fn spec_dir_shift(arch: IoctlArch) -> u32 {
    match arch {
        IoctlArch::Generic => 30,
        IoctlArch::MipsPowerpc => 29,
    }
}

/// Mask of the size field, `(1 << size bits) - 1`.
pub open spec fn spec_size_mask(arch: IoctlArch) -> u32 {
    match arch {
        IoctlArch::Generic => 0x3fff,
        IoctlArch::MipsPowerpc => 0x1fff,
    }
}

/// Mask of the direction field, `(1 << direction bits) - 1`.
pub open spec fn spec_dir_mask(arch: IoctlArch) -> u32 {
    match arch {
        IoctlArch::Generic => 0x3,
        IoctlArch::MipsPowerpc => 0x7,
    }
}

/// Direction value for "no data transfer".
pub open spec fn spec_dir_none(arch: IoctlArch) -> u32 {
    match arch {
        IoctlArch::Generic => 0,
        IoctlArch::MipsPowerpc => 1,
    }
}

/// Direction value for "reads data from the device".
pub open spec fn spec_dir_read(arch: IoctlArch) -> u32 {
    match arch {
        IoctlArch::Generic => 2,
        IoctlArch::MipsPowerpc => 2,
    }
}

/// Direction value for "writes data to the device".
pub open spec fn spec_dir_write(arch: IoctlArch) -> u32 {
    match arch {
        IoctlArch::Generic => 1,
        IoctlArch::MipsPowerpc => 4,
    }
}

#[verifier::when_used_as_spec(spec_size_bits)]
pub fn size_bits(arch: IoctlArch) -> (r: u32)
    ensures
        r == spec_size_bits(arch),
{
    match arch {
        IoctlArch::Generic => 14,
        IoctlArch::MipsPowerpc => 13,
    }
}

#[verifier::when_used_as_spec(spec_dir_bits)]
pub fn dir_bits(arch: IoctlArch) -> (r: u32)
    ensures
        r == spec_dir_bits(arch),
{
    match arch {
        IoctlArch::Generic => 2,
        IoctlArch::MipsPowerpc => 3,
    }
}

#[verifier::when_used_as_spec(spec_dir_shift)]
pub fn dir_shift(arch: IoctlArch) -> (r: u32)
    ensures
        r == spec_dir_shift(arch),
{
    match arch {
        IoctlArch::Generic => 30,
        IoctlArch::MipsPowerpc => 29,
    }
}

#[verifier::when_used_as_spec(spec_size_mask)]
pub fn size_mask(arch: IoctlArch) -> (r: u32)
    ensures
        r == spec_size_mask(arch),
{
    match arch {
        IoctlArch::Generic => 0x3fff,
        IoctlArch::MipsPowerpc => 0x1fff,
    }
}

#[verifier::when_used_as_spec(spec_dir_mask)]
pub fn dir_mask(arch: IoctlArch) -> (r: u32)
    ensures
        r == spec_dir_mask(arch),
{
    match arch {
        IoctlArch::Generic => 0x3,
        IoctlArch::MipsPowerpc => 0x7,
    }
}

#[verifier::when_used_as_spec(spec_dir_none)]
pub fn dir_none(arch: IoctlArch) -> (r: u32)
    ensures
        r == spec_dir_none(arch),
{
    match arch {
        IoctlArch::Generic => 0,
        IoctlArch::MipsPowerpc => 1,
    }
}

#[verifier::when_used_as_spec(spec_dir_read)]
pub fn dir_read(arch: IoctlArch) -> (r: u32)
    ensures
        r == spec_dir_read(arch),
{
    match arch {
        IoctlArch::Generic => 2,
        IoctlArch::MipsPowerpc => 2,
    }
}

#[verifier::when_used_as_spec(spec_dir_write)]
pub fn dir_write(arch: IoctlArch) -> (r: u32)
    ensures
        r == spec_dir_write(arch),
{
    match arch {
        IoctlArch::Generic => 1,
        IoctlArch::MipsPowerpc => 4,
    }
}

/// The packed command word: number at bit 0, type above it, size above
/// that, direction on top. No bounds are checked; a field wider than its
/// slot silently corrupts its neighbours, exactly as the kernel macro does.
pub open spec fn spec_ioc(arch: IoctlArch, dir: u32, ty: u32, nr: u32, sz: u32) -> u32 {
    (dir << spec_dir_shift(arch)) | (ty << TYPESHIFT) | (nr << NRSHIFT) | (sz << SIZESHIFT)
}

pub open spec fn spec_ioc_dir(arch: IoctlArch, cmd: u32) -> u32 {
    (cmd >> spec_dir_shift(arch)) & spec_dir_mask(arch)
}

pub open spec fn spec_ioc_type(arch: IoctlArch, cmd: u32) -> u32 {
    (cmd >> TYPESHIFT) & TYPEMASK
}

pub open spec fn spec_ioc_nr(arch: IoctlArch, cmd: u32) -> u32 {
    (cmd >> NRSHIFT) & NRMASK
}

pub open spec fn spec_ioc_size(arch: IoctlArch, cmd: u32) -> u32 {
    (cmd >> SIZESHIFT) & spec_size_mask(arch)
}

/// Encode an ioctl command.
pub fn ioc(arch: IoctlArch, dir: u32, ty: u32, nr: u32, sz: u32) -> (r: u32)
    ensures
        r == spec_ioc(arch, dir, ty, nr, sz),
{
    (dir << dir_shift(arch)) | (ty << TYPESHIFT) | (nr << NRSHIFT) | (sz << SIZESHIFT)
}

/// Encode an ioctl command that has no associated data.
pub fn io(arch: IoctlArch, ty: u32, nr: u32) -> (r: u32)
    ensures
        r == spec_ioc(arch, spec_dir_none(arch), ty, nr, 0),
{
    ioc(arch, dir_none(arch), ty, nr, 0)
}

/// Encode an ioctl command that reads.
pub fn ior(arch: IoctlArch, ty: u32, nr: u32, sz: u32) -> (r: u32)
    ensures
        r == spec_ioc(arch, spec_dir_read(arch), ty, nr, sz),
{
    ioc(arch, dir_read(arch), ty, nr, sz)
}

/// Encode an ioctl command that writes.
pub fn iow(arch: IoctlArch, ty: u32, nr: u32, sz: u32) -> (r: u32)
    ensures
        r == spec_ioc(arch, spec_dir_write(arch), ty, nr, sz),
{
    ioc(arch, dir_write(arch), ty, nr, sz)
}

/// Encode an ioctl command that both reads and writes.
pub fn iorw(arch: IoctlArch, ty: u32, nr: u32, sz: u32) -> (r: u32)
    ensures
        r == spec_ioc(arch, spec_dir_read(arch) | spec_dir_write(arch), ty, nr, sz),
{
    ioc(arch, dir_read(arch) | dir_write(arch), ty, nr, sz)
}

/// Decode all four fields of a command word on a given layout:
/// `(direction, type, number, size)`.
pub fn ioc_decode(arch: IoctlArch, cmd: u32) -> (r: (u32, u32, u32, u32))
    ensures
        r.0 == spec_ioc_dir(arch, cmd),
        r.1 == spec_ioc_type(arch, cmd),
        r.2 == spec_ioc_nr(arch, cmd),
        r.3 == spec_ioc_size(arch, cmd),
{
    (
        (cmd >> dir_shift(arch)) & dir_mask(arch),
        (cmd >> TYPESHIFT) & TYPEMASK,
        (cmd >> NRSHIFT) & NRMASK,
        (cmd >> SIZESHIFT) & size_mask(arch),
    )
}

/// Extracts the "direction" (read/write/none) from an encoded ioctl
/// command, on the generic (x86/ARM-family) layout of this build.
pub fn ioc_dir(nr: u32) -> (r: u8)
    ensures
        r == spec_ioc_dir(IoctlArch::Generic, nr),
{
    proof {
        assert((nr >> 30u32) & 0x3u32 < 256) by (bit_vector);
    }
    ((nr >> 30) & 0x3) as u8
}

/// Extracts the type from an encoded ioctl command.
pub fn ioc_type(nr: u32) -> (r: u32)
    ensures
        r == spec_ioc_type(IoctlArch::Generic, nr),
{
    (nr >> TYPESHIFT) & TYPEMASK
}

/// Extracts the ioctl number from an encoded ioctl command.
pub fn ioc_nr(nr: u32) -> (r: u32)
    ensures
        r == spec_ioc_nr(IoctlArch::Generic, nr),
{
    (nr >> NRSHIFT) & NRMASK
}

/// Extracts the size from an encoded ioctl command.
pub fn ioc_size(nr: u32) -> (r: u32)
    ensures
        r == spec_ioc_size(IoctlArch::Generic, nr),
{
    (nr >> SIZESHIFT) & 0x3fff
}

/// Round-trip law: on either layout, decoding an encoded command recovers
/// all four fields exactly, for every tuple that fits the layout's widths.
pub proof fn lemma_ioc_roundtrip(arch: IoctlArch, dir: u32, ty: u32, nr: u32, sz: u32)
    requires
        dir < (1u32 << spec_dir_bits(arch)),
        ty < 0x100,
        nr < 0x100,
        sz < (1u32 << spec_size_bits(arch)),
    ensures
        spec_ioc_dir(arch, spec_ioc(arch, dir, ty, nr, sz)) == dir,
        spec_ioc_type(arch, spec_ioc(arch, dir, ty, nr, sz)) == ty,
        spec_ioc_nr(arch, spec_ioc(arch, dir, ty, nr, sz)) == nr,
        spec_ioc_size(arch, spec_ioc(arch, dir, ty, nr, sz)) == sz,
{
    match arch {
        IoctlArch::Generic => {
            assert(1u32 << 2 == 4 && 1u32 << 14 == 0x4000) by (bit_vector);
            let w = ((dir << 30u32) | (ty << 8u32) | (nr << 0u32) | (sz << 16u32)) as u32;
            assert((w >> 30u32) & 0x3u32 == dir && (w >> 8u32) & 0xffu32 == ty && (w
                >> 0u32) & 0xffu32 == nr && (w >> 16u32) & 0x3fffu32 == sz) by (bit_vector)
                requires
                    dir < 4u32,
                    ty < 0x100u32,
                    nr < 0x100u32,
                    sz < 0x4000u32,
                    w == ((dir << 30u32) | (ty << 8u32) | (nr << 0u32) | (sz << 16u32)),
            ;
        },
        IoctlArch::MipsPowerpc => {
            assert(1u32 << 3 == 8 && 1u32 << 13 == 0x2000) by (bit_vector);
            let w = ((dir << 29u32) | (ty << 8u32) | (nr << 0u32) | (sz << 16u32)) as u32;
            assert((w >> 29u32) & 0x7u32 == dir && (w >> 8u32) & 0xffu32 == ty && (w
                >> 0u32) & 0xffu32 == nr && (w >> 16u32) & 0x1fffu32 == sz) by (bit_vector)
                requires
                    dir < 8u32,
                    ty < 0x100u32,
                    nr < 0x100u32,
                    sz < 0x2000u32,
                    w == ((dir << 29u32) | (ty << 8u32) | (nr << 0u32) | (sz << 16u32)),
            ;
        },
    }
}

/// The decoders are pure functions of the command word alone: two
/// decodings of equal commands agree field by field.
pub proof fn lemma_decode_pure(arch: IoctlArch, a: u32, b: u32)
    requires
        a == b,
    ensures
        spec_ioc_dir(arch, a) == spec_ioc_dir(arch, b),
        spec_ioc_type(arch, a) == spec_ioc_type(arch, b),
        spec_ioc_nr(arch, a) == spec_ioc_nr(arch, b),
        spec_ioc_size(arch, a) == spec_ioc_size(arch, b),
{
}

} // verus!
