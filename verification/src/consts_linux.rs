//! The Linux constant table: address families, socket types, socket
//! levels and socket options, with the numeric values of the Linux kernel
//! headers. Exactly one table module is meant to be in use in any build;
//! its identifiers are never compared against another table's.

use vstd::prelude::*;

verus! {

pub type AddressFamily = i32;

pub const AF_UNIX: AddressFamily = 1;

/// By definition the same identifier as `AF_UNIX`.
pub const AF_LOCAL: AddressFamily = AF_UNIX;

pub const AF_INET: AddressFamily = 2;

pub const AF_INET6: AddressFamily = 10;

pub type SockType = i32;

pub const SOCK_STREAM: SockType = 1;

pub const SOCK_DGRAM: SockType = 2;

pub const SOCK_SEQPACKET: SockType = 5;

pub const SOCK_RAW: SockType = 3;

pub const SOCK_RDM: SockType = 4;

pub type SockLevel = i32;

pub const SOL_IP: SockLevel = 0;

pub const SOL_SOCKET: SockLevel = 1;

pub const SOL_TCP: SockLevel = 6;

pub const SOL_UDP: SockLevel = 17;

pub const SOL_IPV6: SockLevel = 41;

pub type SockOpt = i32;

pub const SO_ACCEPTCONN: SockOpt = 30;

pub const SO_BINDTODEVICE: SockOpt = 25;

pub const SO_BROADCAST: SockOpt = 6;

pub const SO_BSDCOMPAT: SockOpt = 14;

pub const SO_DEBUG: SockOpt = 1;

pub const SO_DOMAIN: SockOpt = 39;

pub const SO_ERROR: SockOpt = 4;

pub const SO_DONTROUTE: SockOpt = 5;

pub const SO_KEEPALIVE: SockOpt = 9;

pub const SO_LINGER: SockOpt = 13;

pub const SO_MARK: SockOpt = 36;

pub const SO_OOBINLINE: SockOpt = 10;

pub const SO_PASSCRED: SockOpt = 16;

pub const SO_PEEK_OFF: SockOpt = 42;

pub const SO_PEERCRED: SockOpt = 17;

pub const SO_PRIORITY: SockOpt = 12;

pub const SO_PROTOCOL: SockOpt = 38;

pub const SO_RCVBUF: SockOpt = 8;

pub const SO_RCVBUFFORCE: SockOpt = 33;

pub const SO_RCVLOWAT: SockOpt = 18;

pub const SO_SNDLOWAT: SockOpt = 19;

pub const SO_RCVTIMEO: SockOpt = 20;

pub const SO_SNDTIMEO: SockOpt = 21;

pub const SO_REUSEADDR: SockOpt = 2;

pub const SO_RXQ_OVFL: SockOpt = 40;

pub const SO_SNDBUF: SockOpt = 7;

pub const SO_SNDBUFFORCE: SockOpt = 32;

pub const SO_TIMESTAMP: SockOpt = 29;

pub const SO_TYPE: SockOpt = 3;

pub const SO_BUSY_POLL: SockOpt = 46;

/// Number of named socket options in this table.
pub open spec fn sockopt_count() -> int {
    30
}

/// The named socket options of this table, by index.
pub open spec fn sockopt_value(i: int) -> int {
    if i == 0 {
        SO_ACCEPTCONN as int
    } else if i == 1 {
        SO_BINDTODEVICE as int
    } else if i == 2 {
        SO_BROADCAST as int
    } else if i == 3 {
        SO_BSDCOMPAT as int
    } else if i == 4 {
        SO_DEBUG as int
    } else if i == 5 {
        SO_DOMAIN as int
    } else if i == 6 {
        SO_ERROR as int
    } else if i == 7 {
        SO_DONTROUTE as int
    } else if i == 8 {
        SO_KEEPALIVE as int
    } else if i == 9 {
        SO_LINGER as int
    } else if i == 10 {
        SO_MARK as int
    } else if i == 11 {
        SO_OOBINLINE as int
    } else if i == 12 {
        SO_PASSCRED as int
    } else if i == 13 {
        SO_PEEK_OFF as int
    } else if i == 14 {
        SO_PEERCRED as int
    } else if i == 15 {
        SO_PRIORITY as int
    } else if i == 16 {
        SO_PROTOCOL as int
    } else if i == 17 {
        SO_RCVBUF as int
    } else if i == 18 {
        SO_RCVBUFFORCE as int
    } else if i == 19 {
        SO_RCVLOWAT as int
    } else if i == 20 {
        SO_SNDLOWAT as int
    } else if i == 21 {
        SO_RCVTIMEO as int
    } else if i == 22 {
        SO_SNDTIMEO as int
    } else if i == 23 {
        SO_REUSEADDR as int
    } else if i == 24 {
        SO_RXQ_OVFL as int
    } else if i == 25 {
        SO_SNDBUF as int
    } else if i == 26 {
        SO_SNDBUFFORCE as int
    } else if i == 27 {
        SO_TIMESTAMP as int
    } else if i == 28 {
        SO_TYPE as int
    } else {
        SO_BUSY_POLL as int
    }
}

/// The address families of this table are pairwise distinct
/// (`AF_LOCAL` is by definition the same identifier as `AF_UNIX`).
pub proof fn lemma_families_distinct()
    ensures
        AF_UNIX != AF_INET,
        AF_UNIX != AF_INET6,
        AF_INET != AF_INET6,
{
}

/// The socket types of this table are pairwise distinct.
pub proof fn lemma_sock_types_distinct()
    ensures
        SOCK_STREAM != SOCK_DGRAM,
        SOCK_STREAM != SOCK_SEQPACKET,
        SOCK_STREAM != SOCK_RAW,
        SOCK_STREAM != SOCK_RDM,
        SOCK_DGRAM != SOCK_SEQPACKET,
        SOCK_DGRAM != SOCK_RAW,
        SOCK_DGRAM != SOCK_RDM,
        SOCK_SEQPACKET != SOCK_RAW,
        SOCK_SEQPACKET != SOCK_RDM,
        SOCK_RAW != SOCK_RDM,
{
}

/// The socket levels of this table are pairwise distinct.
pub proof fn lemma_sock_levels_distinct()
    ensures
        SOL_IP != SOL_SOCKET,
        SOL_IP != SOL_TCP,
        SOL_IP != SOL_UDP,
        SOL_IP != SOL_IPV6,
        SOL_SOCKET != SOL_TCP,
        SOL_SOCKET != SOL_UDP,
        SOL_SOCKET != SOL_IPV6,
        SOL_TCP != SOL_UDP,
        SOL_TCP != SOL_IPV6,
        SOL_UDP != SOL_IPV6,
{
}

/// The socket options of this table are pairwise distinct: no two named
/// options share a value a caller could confuse.
pub proof fn lemma_sockopts_distinct()
    ensures
        forall|i: int, j: int|
            0 <= i < sockopt_count() && 0 <= j < sockopt_count() && i != j ==> sockopt_value(i)
                != sockopt_value(j),
{
}

} // verus!
