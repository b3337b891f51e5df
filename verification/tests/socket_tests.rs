use nix::socket::{
    getsockopt_result, on_create_result, on_flag_result, plan_accept4, plan_socket,
    polyfill_steps, sockaddr_len, syscall_fd_result, syscall_unit_result, AcceptCall, FdFlagOp,
    OpAction, OpState, SockAddr, SockAddrLens, SockFlag, SockaddrIn, SockaddrIn6, SockaddrUn,
    SOCK_CLOEXEC, SOCK_NONBLOCK,
};
use nix::SysError;

fn both_flags() -> SockFlag {
    SockFlag { nonblock: true, cloexec: true }
}

#[test]
fn flag_bits_match_kernel_abi() {
    assert_eq!(SOCK_NONBLOCK, 0o0004000);
    assert_eq!(SOCK_CLOEXEC, 0o2000000);
    assert_eq!(SockFlag::empty().bits(), 0);
    assert_eq!(SockFlag { nonblock: true, cloexec: false }.bits(), SOCK_NONBLOCK);
    assert_eq!(SockFlag { nonblock: false, cloexec: true }.bits(), SOCK_CLOEXEC);
    assert_eq!(both_flags().bits(), SOCK_NONBLOCK | SOCK_CLOEXEC);
}

// Atomic support available: one creation call with the flag bits ORed
// into the type argument, and zero descriptor-flag steps owed.
#[test]
fn create_socket_atomic_path() {
    let plan = plan_socket(2, 1, both_flags(), true);
    assert_eq!(plan.domain, 2);
    assert_eq!(plan.type_arg, 1 | SOCK_NONBLOCK | SOCK_CLOEXEC);
    assert_eq!(plan.protocol, 0);
    assert!(plan.steps.is_empty());

    // The syscall succeeds: the operation finishes with no collaborator call.
    let (st, act) = on_create_result(&plan.steps, 5, 0);
    assert_eq!(st, OpState::Done { fd: 5 });
    assert_eq!(act, OpAction::Finish);
}

// Atomic support absent: one creation call with the unmodified base type,
// then one descriptor-flag step per requested flag, close-on-exec first.
#[test]
fn create_socket_polyfill_path_all_succeed() {
    let plan = plan_socket(2, 1, both_flags(), false);
    assert_eq!(plan.type_arg, 1);
    assert_eq!(plan.steps, vec![FdFlagOp::CloseOnExec, FdFlagOp::NonBlocking]);

    let (st, act) = on_create_result(&plan.steps, 5, 0);
    assert_eq!(st, OpState::Applying { fd: 5, next: 0 });
    assert_eq!(act, OpAction::SetFlag { fd: 5, op: FdFlagOp::CloseOnExec });

    let (st, act) = on_flag_result(&plan.steps, 5, 0, 0, 0);
    assert_eq!(st, OpState::Applying { fd: 5, next: 1 });
    assert_eq!(act, OpAction::SetFlag { fd: 5, op: FdFlagOp::NonBlocking });

    let (st, act) = on_flag_result(&plan.steps, 5, 1, 0, 0);
    assert_eq!(st, OpState::Done { fd: 5 });
    assert_eq!(act, OpAction::Finish);
}

// The first failing step aborts the operation at once: the second flag is
// never attempted, the error surfaces, the descriptor is not rolled back.
#[test]
fn create_socket_polyfill_path_first_step_fails() {
    let plan = plan_socket(2, 1, both_flags(), false);
    let (st, act) = on_create_result(&plan.steps, 5, 0);
    assert_eq!(act, OpAction::SetFlag { fd: 5, op: FdFlagOp::CloseOnExec });
    assert_eq!(st, OpState::Applying { fd: 5, next: 0 });

    let (st, act) = on_flag_result(&plan.steps, 5, 0, -1, 9);
    assert_eq!(st, OpState::Failed { err: SysError { errno: 9 } });
    assert_eq!(act, OpAction::Finish);
}

#[test]
fn create_socket_creation_failure() {
    let plan = plan_socket(2, 1, both_flags(), false);
    let (st, act) = on_create_result(&plan.steps, -1, 24);
    assert_eq!(st, OpState::Failed { err: SysError { errno: 24 } });
    assert_eq!(act, OpAction::Finish);
}

#[test]
fn polyfill_steps_follow_requested_flags() {
    assert!(polyfill_steps(SockFlag::empty()).is_empty());
    assert_eq!(
        polyfill_steps(SockFlag { nonblock: true, cloexec: false }),
        vec![FdFlagOp::NonBlocking]
    );
    assert_eq!(
        polyfill_steps(SockFlag { nonblock: false, cloexec: true }),
        vec![FdFlagOp::CloseOnExec]
    );
    assert_eq!(
        polyfill_steps(both_flags()),
        vec![FdFlagOp::CloseOnExec, FdFlagOp::NonBlocking]
    );
}

#[test]
fn accept4_native_path_passes_flag_bits() {
    let plan = plan_accept4(both_flags(), true);
    assert_eq!(plan.call, AcceptCall::Native { flag_bits: SOCK_NONBLOCK | SOCK_CLOEXEC });
    assert!(plan.steps.is_empty());
}

#[test]
fn accept4_polyfill_path_owes_steps() {
    let plan = plan_accept4(both_flags(), false);
    assert_eq!(plan.call, AcceptCall::Plain);
    assert_eq!(plan.steps, vec![FdFlagOp::CloseOnExec, FdFlagOp::NonBlocking]);
}

// A 4-byte buffer of which the kernel fills only 1 byte is reported as 1
// written byte, never silently as the buffer's capacity.
#[test]
fn getsockopt_reports_written_size() {
    assert_eq!(getsockopt_result(0, 0, 1), Ok(1));
    assert_eq!(getsockopt_result(0, 0, 4), Ok(4));
    assert_eq!(getsockopt_result(-1, 92, 0), Err(SysError { errno: 92 }));
}

#[test]
fn syscall_result_interpretation() {
    assert_eq!(syscall_fd_result(3, 0), Ok(3));
    assert_eq!(syscall_fd_result(0, 0), Ok(0));
    assert_eq!(syscall_fd_result(-1, 13), Err(SysError { errno: 13 }));
    assert_eq!(syscall_unit_result(0, 0), Ok(()));
    assert_eq!(syscall_unit_result(-1, 98), Err(SysError { errno: 98 }));
}

#[test]
fn sockaddr_len_picks_the_variant_size() {
    let lens = SockAddrLens { ipv4: 16, ipv6: 28, unix: 110 };
    let v4 = SockAddr::SockIpV4(SockaddrIn { sin_family: 2, sin_port: 80, sin_addr: 0 });
    let v6 = SockAddr::SockIpV6(SockaddrIn6 {
        sin6_family: 10,
        sin6_port: 80,
        sin6_flowinfo: 0,
        sin6_addr_hi: 0,
        sin6_addr_lo: 1,
        sin6_scope_id: 0,
    });
    let un = SockAddr::SockUnix(SockaddrUn { sun_family: 1, sun_path: b"/tmp/sock".to_vec() });
    assert_eq!(sockaddr_len(&v4, &lens), 16);
    assert_eq!(sockaddr_len(&v6, &lens), 28);
    assert_eq!(sockaddr_len(&un, &lens), 110);
}
