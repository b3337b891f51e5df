//! The socket layer's pure logic: the extra creation-time flags, the
//! atomic-vs-polyfill decision for `socket` and `accept4`, the
//! interpretation of raw syscall results, and the address and linger
//! value models.
//!
//! The raw syscalls, the descriptor-flag collaborator (fcntl) and the
//! capability query are performed by an unverified shell; it builds a plan
//! here, carries it out, and feeds every raw result back into the step
//! functions below, which decide what happens next.

use vstd::prelude::*;
use crate::SysError;
use crate::SysResult;

verus! {

/// Extra socket flag bit for non-blocking mode (Linux 2.6.27 ABI value).
pub const SOCK_NONBLOCK: i32 = 0o0004000;

/// Extra socket flag bit for close-on-exec (Linux 2.6.27 ABI value).
pub const SOCK_CLOEXEC: i32 = 0o2000000;

/// The set of extra creation-time socket flags: two independent booleans,
/// OR-combinable into the kernel's flag bitmask.
#[derive(Clone, Copy, PartialEq, Eq, Structural, Debug)]
pub struct SockFlag {
    pub nonblock: bool,
    pub cloexec: bool,
}

impl SockFlag {
    /// The OR-combined bitmask that the kernel ABI expects for this set.
    pub open spec fn spec_bits(self) -> i32 {
        (if self.nonblock {
            SOCK_NONBLOCK
        } else {
            0i32
        }) | (if self.cloexec {
            SOCK_CLOEXEC
        } else {
            0i32
        })
    }

    #[verifier::when_used_as_spec(spec_bits)]
    pub fn bits(self) -> (r: i32)
        ensures
            r == self.spec_bits(),
    {
        (if self.nonblock {
            SOCK_NONBLOCK
        } else {
            0i32
        }) | (if self.cloexec {
            SOCK_CLOEXEC
        } else {
            0i32
        })
    }

    /// No extra flags requested.
    pub fn empty() -> (r: SockFlag)
        ensures
            r == (SockFlag { nonblock: false, cloexec: false }),
    {
        SockFlag { nonblock: false, cloexec: false }
    }
}

/// One call to the descriptor-flag collaborator: set close-on-exec
/// (fcntl F_SETFD with FD_CLOEXEC) or non-blocking (F_SETFL with
/// O_NONBLOCK) on a descriptor.
#[derive(Clone, Copy, PartialEq, Eq, Structural, Debug)]
pub enum FdFlagOp {
    CloseOnExec,
    NonBlocking,
}

/// The sequential flag applications the polyfill path owes after a
/// successful creation: close-on-exec first, then non-blocking, each only
/// if requested.
pub open spec fn spec_polyfill_steps(flags: SockFlag) -> Seq<FdFlagOp> {
    (if flags.cloexec {
        seq![FdFlagOp::CloseOnExec]
    } else {
        Seq::<FdFlagOp>::empty()
    }) + (if flags.nonblock {
        seq![FdFlagOp::NonBlocking]
    } else {
        Seq::<FdFlagOp>::empty()
    })
}

/// Build the polyfill step list for a flag set.
pub fn polyfill_steps(flags: SockFlag) -> (r: Vec<FdFlagOp>)
    ensures
        r@ == spec_polyfill_steps(flags),
{
    let mut v: Vec<FdFlagOp> = Vec::new();
    if flags.cloexec {
        v.push(FdFlagOp::CloseOnExec);
    }
    if flags.nonblock {
        v.push(FdFlagOp::NonBlocking);
    }
    proof {
        assert(v@ =~= spec_polyfill_steps(flags));
    }
    v
}

/// A step list owes exactly the requested flags: it holds close-on-exec
/// if and only if the flag set asks for it, likewise non-blocking, and
/// its length is the number of requested flags.
pub proof fn lemma_polyfill_steps_exact(flags: SockFlag)
    ensures
        spec_polyfill_steps(flags).contains(FdFlagOp::CloseOnExec) <==> flags.cloexec,
        spec_polyfill_steps(flags).contains(FdFlagOp::NonBlocking) <==> flags.nonblock,
        spec_polyfill_steps(flags).len() == (if flags.cloexec {
            1int
        } else {
            0int
        }) + (if flags.nonblock {
            1int
        } else {
            0int
        }),
{
    let s = spec_polyfill_steps(flags);
    if flags.cloexec {
        assert(s[0] == FdFlagOp::CloseOnExec);
        if flags.nonblock {
            assert(s[1] == FdFlagOp::NonBlocking);
        }
    } else {
        if flags.nonblock {
            assert(s[0] == FdFlagOp::NonBlocking);
        }
    }
}

/// Everything the creation syscall needs, plus the flag applications owed
/// afterwards. Built once per operation; the shell performs it verbatim.
pub struct SocketPlan {
    pub domain: i32,
    pub type_arg: i32,
    pub protocol: i32,
    pub steps: Vec<FdFlagOp>,
}

/// Decide how to create a socket. When the kernel applies flags
/// atomically, the flag bits are ORed into the type argument and no
/// follow-up step is owed; otherwise the type argument is passed through
/// unchanged and every requested flag becomes one sequential step.
pub fn plan_socket(domain: i32, ty: i32, flags: SockFlag, atomic_flags: bool) -> (p: SocketPlan)
    ensures
        p.domain == domain,
        p.protocol == 0,
        atomic_flags ==> p.type_arg == (ty | flags.spec_bits()) && p.steps@ == Seq::<
            FdFlagOp,
        >::empty(),
        !atomic_flags ==> p.type_arg == ty && p.steps@ == spec_polyfill_steps(flags),
{
    if atomic_flags {
        let v: Vec<FdFlagOp> = Vec::new();
        proof {
            assert(v@ =~= Seq::<FdFlagOp>::empty());
        }
        SocketPlan { domain, type_arg: ty | flags.bits(), protocol: 0, steps: v }
    } else {
        SocketPlan { domain, type_arg: ty, protocol: 0, steps: polyfill_steps(flags) }
    }
}

/// Which accept call the plan uses.
#[derive(Clone, Copy, PartialEq, Eq, Structural, Debug)]
pub enum AcceptCall {
    /// The flag-aware entry point, present and passed the flag bits.
    Native { flag_bits: i32 },
    /// The plain accept syscall.
    Plain,
}

/// The accept call to make, plus the flag applications owed afterwards.
pub struct AcceptPlan {
    pub call: AcceptCall,
    pub steps: Vec<FdFlagOp>,
}

/// Decide how to accept with flags. Where the flag-aware entry point is
/// available it gets the flag bits and no follow-up step is owed; where it
/// is absent, plain accept is called and every requested flag becomes one
/// sequential step, exactly as for creation.
pub fn plan_accept4(flags: SockFlag, native_accept4: bool) -> (p: AcceptPlan)
    ensures
        native_accept4 ==> p.call == (AcceptCall::Native { flag_bits: flags.spec_bits() })
            && p.steps@ == Seq::<FdFlagOp>::empty(),
        !native_accept4 ==> p.call == AcceptCall::Plain && p.steps@ == spec_polyfill_steps(flags),
{
    if native_accept4 {
        let v: Vec<FdFlagOp> = Vec::new();
        proof {
            assert(v@ =~= Seq::<FdFlagOp>::empty());
        }
        AcceptPlan { call: AcceptCall::Native { flag_bits: flags.bits() }, steps: v }
    } else {
        AcceptPlan { call: AcceptCall::Plain, steps: polyfill_steps(flags) }
    }
}

/// Progress of one create-or-accept operation.
#[derive(Clone, Copy, PartialEq, Eq, Structural, Debug)]
pub enum OpState {
    /// The descriptor exists; the step at `next` is being applied.
    Applying { fd: i32, next: usize },
    /// The descriptor exists with every owed flag applied.
    Done { fd: i32 },
    /// A call failed; the operation stops here, with no rollback.
    Failed { err: SysError },
}

/// What the shell must do next.
#[derive(Clone, Copy, PartialEq, Eq, Structural, Debug)]
pub enum OpAction {
    /// Call the descriptor-flag collaborator for `op` on `fd`.
    SetFlag { fd: i32, op: FdFlagOp },
    /// The operation is over; hand the state's outcome to the caller.
    Finish,
}

/// Interpret the creation (or accept) syscall's raw result. A negative
/// result fails the operation with the OS error code; otherwise the
/// descriptor exists, and the first owed step (if any) is issued.
pub fn on_create_result(steps: &Vec<FdFlagOp>, res: i32, err: i32) -> (r: (OpState, OpAction))
    ensures
        res < 0 ==> r.0 == (OpState::Failed { err: SysError { errno: err } }) && r.1
            == OpAction::Finish,
        res >= 0 && steps@.len() == 0 ==> r.0 == (OpState::Done { fd: res }) && r.1
            == OpAction::Finish,
        res >= 0 && steps@.len() > 0 ==> r.0 == (OpState::Applying { fd: res, next: 0 }) && r.1
            == (OpAction::SetFlag { fd: res, op: steps@[0] }),
{
    if res < 0 {
        (OpState::Failed { err: SysError { errno: err } }, OpAction::Finish)
    } else if steps.len() == 0 {
        (OpState::Done { fd: res }, OpAction::Finish)
    } else {
        (OpState::Applying { fd: res, next: 0 }, OpAction::SetFlag { fd: res, op: steps[0] })
    }
}

/// Interpret one flag step's raw result while step `next` of the list was
/// being applied. The first failure aborts the remaining steps at once
/// and surfaces its error code; on success the next step is issued, or
/// the operation completes after the last one. The already-created
/// descriptor is never closed here: cleanup after a partial application
/// belongs to the caller.
pub fn on_flag_result(steps: &Vec<FdFlagOp>, fd: i32, next: usize, res: i32, err: i32) -> (r: (
    OpState,
    OpAction,
))
    requires
        next < steps@.len(),
    ensures
        res < 0 ==> r.0 == (OpState::Failed { err: SysError { errno: err } }) && r.1
            == OpAction::Finish,
        res >= 0 && next + 1 == steps@.len() ==> r.0 == (OpState::Done { fd: fd }) && r.1
            == OpAction::Finish,
        res >= 0 && next + 1 < steps@.len() ==> r.0 == (OpState::Applying {
            fd: fd,
            next: (next + 1) as usize,
        }) && r.1 == (OpAction::SetFlag { fd: fd, op: steps@[next + 1] }),
{
    let l: usize = steps.len();
    if res < 0 {
        (OpState::Failed { err: SysError { errno: err } }, OpAction::Finish)
    } else if next + 1 == l {
        (OpState::Done { fd: fd }, OpAction::Finish)
    } else {
        (OpState::Applying { fd: fd, next: next + 1 }, OpAction::SetFlag {
            fd: fd,
            op: steps[next + 1],
        })
    }
}

/// Interpret a descriptor-returning syscall's raw result: negative fails
/// with the OS error code, anything else is the new descriptor.
pub fn syscall_fd_result(res: i32, err: i32) -> (r: SysResult<i32>)
    ensures
        res < 0 ==> r == Err::<i32, SysError>(SysError { errno: err }),
        res >= 0 ==> r == Ok::<i32, SysError>(res),
{
    if res < 0 {
        Err(SysError { errno: err })
    } else {
        Ok(res)
    }
}

/// Interpret a unit-returning syscall's raw result: negative fails with
/// the OS error code, anything else succeeds.
pub fn syscall_unit_result(res: i32, err: i32) -> (r: SysResult<()>)
    ensures
        res < 0 ==> r == Err::<(), SysError>(SysError { errno: err }),
        res >= 0 ==> r == Ok::<(), SysError>(()),
{
    if res < 0 {
        Err(SysError { errno: err })
    } else {
        Ok(())
    }
}

/// Interpret getsockopt's raw result. On success the reported size is
/// exactly the byte count the kernel wrote back, which may be smaller
/// than the buffer handed in: a partially-filled value is reported as
/// such, never padded up to the buffer's capacity.
pub fn getsockopt_result(res: i32, err: i32, len_written: u32) -> (r: SysResult<usize>)
    ensures
        res < 0 ==> r == Err::<usize, SysError>(SysError { errno: err }),
        res >= 0 ==> r == Ok::<usize, SysError>(len_written as usize),
{
    if res < 0 {
        Err(SysError { errno: err })
    } else {
        Ok(len_written as usize)
    }
}

/// An IPv4 socket address: the fields of the kernel's fixed layout as
/// plain values (the address in network order as one 32-bit word).
#[derive(Clone, Copy, PartialEq, Eq, Structural, Debug)]
pub struct SockaddrIn {
    pub sin_family: u16,
    pub sin_port: u16,
    pub sin_addr: u32,
}

/// An IPv6 socket address: the fields of the kernel's fixed layout as
/// plain values (the 128-bit address as two 64-bit halves).
#[derive(Clone, Copy, PartialEq, Eq, Structural, Debug)]
pub struct SockaddrIn6 {
    pub sin6_family: u16,
    pub sin6_port: u16,
    pub sin6_flowinfo: u32,
    pub sin6_addr_hi: u64,
    pub sin6_addr_lo: u64,
    pub sin6_scope_id: u32,
}

/// A Unix-domain socket address: family and path bytes.
#[derive(Clone, Debug)]
pub struct SockaddrUn {
    pub sun_family: u16,
    pub sun_path: Vec<u8>,
}

/// A socket address: a tagged union over the three supported families,
/// constructed by the caller and consumed read-only by bind and connect.
#[derive(Clone, Debug)]
pub enum SockAddr {
    SockIpV4(SockaddrIn),
    SockIpV6(SockaddrIn6),
    SockUnix(SockaddrUn),
}

/// The exact byte sizes of the three OS-defined address layouts of this
/// build, taken from the real C layouts by the shell.
#[derive(Clone, Copy, PartialEq, Eq, Structural, Debug)]
pub struct SockAddrLens {
    pub ipv4: u32,
    pub ipv6: u32,
    pub unix: u32,
}

/// The byte length bind and connect must pass beside the address
/// pointer: the fixed size of the variant's own binary layout, never that
/// of another variant.
pub fn sockaddr_len(addr: &SockAddr, lens: &SockAddrLens) -> (r: u32)
    ensures
        r == (match addr {
            SockAddr::SockIpV4(_) => lens.ipv4,
            SockAddr::SockIpV6(_) => lens.ipv6,
            SockAddr::SockUnix(_) => lens.unix,
        }),
{
    match addr {
        SockAddr::SockIpV4(_) => lens.ipv4,
        SockAddr::SockIpV6(_) => lens.ipv6,
        SockAddr::SockUnix(_) => lens.unix,
    }
}

/// The kernel's linger option payload: on/off flag and duration.
#[allow(non_camel_case_types)]
#[derive(Clone, Copy, PartialEq, Eq, Structural, Debug)]
pub struct linger {
    pub l_onoff: i32,
    pub l_linger: i32,
}

} // verus!
