//! The macOS/iOS constant table: address families, socket types, socket
//! levels and socket options, with the numeric values of those systems'
//! kernel headers. Exactly one table module is meant to be in use in any
//! build; its identifiers are never compared against another table's.

use vstd::prelude::*;

verus! {

pub type AddressFamily = i32;

pub const AF_UNIX: AddressFamily = 1;

/// By definition the same identifier as `AF_UNIX`.
pub const AF_LOCAL: AddressFamily = AF_UNIX;

pub const AF_INET: AddressFamily = 2;

pub const AF_INET6: AddressFamily = 30;

pub type SockType = i32;

pub const SOCK_STREAM: SockType = 1;

pub const SOCK_DGRAM: SockType = 2;

pub const SOCK_SEQPACKET: SockType = 5;

pub const SOCK_RAW: SockType = 3;

pub const SOCK_RDM: SockType = 4;

pub type SockLevel = i32;

pub const SOL_SOCKET: SockLevel = 0xffff;

pub type SockOpt = i32;

pub const SO_ACCEPTCONN: SockOpt = 0x0002;

pub const SO_BROADCAST: SockOpt = 0x0020;

pub const SO_DEBUG: SockOpt = 0x0001;

pub const SO_DONTTRUNC: SockOpt = 0x2000;

pub const SO_ERROR: SockOpt = 0x1007;

pub const SO_DONTROUTE: SockOpt = 0x0010;

pub const SO_KEEPALIVE: SockOpt = 0x0008;

pub const SO_LABEL: SockOpt = 0x1010;

pub const SO_LINGER: SockOpt = 0x0080;

pub const SO_NREAD: SockOpt = 0x1020;

pub const SO_NKE: SockOpt = 0x1021;

pub const SO_NOSIGPIPE: SockOpt = 0x1022;

pub const SO_NOADDRERR: SockOpt = 0x1023;

pub const SO_NOTIFYCONFLICT: SockOpt = 0x1026;

pub const SO_NP_EXTENSIONS: SockOpt = 0x1083;

pub const SO_NWRITE: SockOpt = 0x1024;

pub const SO_OOBINLINE: SockOpt = 0x0100;

pub const SO_PEERLABEL: SockOpt = 0x1011;

pub const SO_RCVBUF: SockOpt = 0x1002;

pub const SO_RCVLOWAT: SockOpt = 0x1004;

pub const SO_SNDLOWAT: SockOpt = 0x1003;

pub const SO_RCVTIMEO: SockOpt = 0x1006;

pub const SO_SNDTIMEO: SockOpt = 0x1005;

pub const SO_RANDOMPORT: SockOpt = 0x1082;

pub const SO_RESTRICTIONS: SockOpt = 0x1081;

/// A bit value of the `SO_RESTRICTIONS` option payload, not an option of
/// its own; its value coincides with `SO_DEBUG`.
pub const SO_RESTRICT_DENYIN: SockOpt = 0x00000001;

/// A bit value of the `SO_RESTRICTIONS` option payload, not an option of
/// its own; its value coincides with `SO_ACCEPTCONN`.
pub const SO_RESTRICT_DENYOUT: SockOpt = 0x00000002;

pub const SO_REUSEADDR: SockOpt = 0x0004;

pub const SO_REUSESHAREUID: SockOpt = 0x1025;

pub const SO_SNDBUF: SockOpt = 0x1001;

pub const SO_TIMESTAMP: SockOpt = 0x0400;

pub const SO_TIMESTAMP_MONOTONIC: SockOpt = 0x0800;

pub const SO_TYPE: SockOpt = 0x1008;

pub const SO_WANTMORE: SockOpt = 0x4000;

pub const SO_WANTOOBFLAG: SockOpt = 0x8000;

/// A bit value of the `SO_RESTRICTIONS` option payload, not an option of
/// its own; the kernel header writes it as 0x80000000, the sign bit.
pub const SO_RESTRICT_DENYSET: SockOpt = i32::MIN;

/// Number of named socket options in this table, the three
/// `SO_RESTRICTIONS` payload bits aside.
pub open spec fn sockopt_count() -> int {
    33
}

/// The named socket options of this table, by index. The three
/// `SO_RESTRICT_*` payload bit values stand apart: they are contents of
/// one option's payload, not option identifiers.
pub open spec fn sockopt_value(i: int) -> int {
    if i == 0 {
        SO_ACCEPTCONN as int
    } else if i == 1 {
        SO_BROADCAST as int
    } else if i == 2 {
        SO_DEBUG as int
    } else if i == 3 {
        SO_DONTTRUNC as int
    } else if i == 4 {
        SO_ERROR as int
    } else if i == 5 {
        SO_DONTROUTE as int
    } else if i == 6 {
        SO_KEEPALIVE as int
    } else if i == 7 {
        SO_LABEL as int
    } else if i == 8 {
        SO_LINGER as int
    } else if i == 9 {
        SO_NREAD as int
    } else if i == 10 {
        SO_NKE as int
    } else if i == 11 {
        SO_NOSIGPIPE as int
    } else if i == 12 {
        SO_NOADDRERR as int
    } else if i == 13 {
        SO_NOTIFYCONFLICT as int
    } else if i == 14 {
        SO_NP_EXTENSIONS as int
    } else if i == 15 {
        SO_NWRITE as int
    } else if i == 16 {
        SO_OOBINLINE as int
    } else if i == 17 {
        SO_PEERLABEL as int
    } else if i == 18 {
        SO_RCVBUF as int
    } else if i == 19 {
        SO_RCVLOWAT as int
    } else if i == 20 {
        SO_SNDLOWAT as int
    } else if i == 21 {
        SO_RCVTIMEO as int
    } else if i == 22 {
        SO_SNDTIMEO as int
    } else if i == 23 {
        SO_RANDOMPORT as int
    } else if i == 24 {
        SO_RESTRICTIONS as int
    } else if i == 25 {
        SO_REUSEADDR as int
    } else if i == 26 {
        SO_REUSESHAREUID as int
    } else if i == 27 {
        SO_SNDBUF as int
    } else if i == 28 {
        SO_TIMESTAMP as int
    } else if i == 29 {
        SO_TIMESTAMP_MONOTONIC as int
    } else if i == 30 {
        SO_TYPE as int
    } else if i == 31 {
        SO_WANTMORE as int
    } else {
        SO_WANTOOBFLAG as int
    }
}

/// The address families of this table are pairwise distinct
/// (`AF_LOCAL` is by definition the same identifier as `AF_UNIX`).
pub proof fn lemma_families_distinct()
    ensures
        AF_UNIX != AF_INET,
        AF_UNIX != AF_INET6,
        AF_INET != AF_INET6,
{
}

/// The socket types of this table are pairwise distinct.
pub proof fn lemma_sock_types_distinct()
    ensures
        SOCK_STREAM != SOCK_DGRAM,
        SOCK_STREAM != SOCK_SEQPACKET,
        SOCK_STREAM != SOCK_RAW,
        SOCK_STREAM != SOCK_RDM,
        SOCK_DGRAM != SOCK_SEQPACKET,
        SOCK_DGRAM != SOCK_RAW,
        SOCK_DGRAM != SOCK_RDM,
        SOCK_SEQPACKET != SOCK_RAW,
        SOCK_SEQPACKET != SOCK_RDM,
        SOCK_RAW != SOCK_RDM,
{
}

/// The socket options of this table are pairwise distinct: no two named
/// options share a value a caller could confuse. The `SO_RESTRICT_*`
/// payload bit values are not option identifiers and stay outside this
/// statement; two of them do coincide with option values.
pub proof fn lemma_sockopts_distinct()
    ensures
        forall|i: int, j: int|
            0 <= i < sockopt_count() && 0 <= j < sockopt_count() && i != j ==> sockopt_value(i)
                != sockopt_value(j),
{
}

} // verus!
