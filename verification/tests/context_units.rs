use os_task::config::{CLOCK_FREQ, TICKS_PER_SEC};
use os_task::context::{
    sstatus_with_user_spp, TaskContext, TrapContext, SSTATUS_SPP, TRAP_FRAME_WORDS,
    TRAP_GPR_COUNT,
};
use os_task::syscall::{decode_syscall, sys_write, Console, SyscallRequest, FD_STDOUT};
use os_task::timer::{next_trigger_ticks, ticks_to_us};
use os_task::trap::{trap_dispatch, TrapCause, TrapOutcome};

#[test]
fn zero_init_is_all_zero() {
    let cx = TaskContext::zero_init();
    assert_eq!(cx.ra, 0);
    assert_eq!(cx.sp, 0);
    assert_eq!(cx.s, [0; 12]);
}

#[test]
fn goto_restore_aims_at_the_restore_stub() {
    let cx = TaskContext::goto_restore(0x8123_4000, 0x8020_0abc);
    assert_eq!(cx.ra, 0x8020_0abc);
    assert_eq!(cx.sp, 0x8123_4000);
    assert_eq!(cx.s, [0; 12]);
}

#[test]
fn app_init_context_sets_sp_entry_and_status() {
    let cx = TrapContext::app_init_context(0x8040_0000, 0x8090_0000, 0x120);
    assert_eq!(cx.x.len(), TRAP_GPR_COUNT);
    for (i, &w) in cx.x.iter().enumerate() {
        if i == 2 {
            assert_eq!(w, 0x8090_0000);
        } else {
            assert_eq!(w, 0);
        }
    }
    assert_eq!(cx.sepc, 0x8040_0000);
    assert_eq!(cx.sstatus, 0x120);
}

#[test]
fn trap_frame_round_trips_arbitrary_registers() {
    // Saving then restoring a TrapContext leaves every register, the
    // status word, and the user PC bit-identical.
    let mut cx = TrapContext::app_init_context(0xdead_bee0, 0x8090_0000, 0x8000_0120);
    for i in 0..TRAP_GPR_COUNT {
        cx.x[i] = i.wrapping_mul(0x0101_0101_0101_0101) ^ 0x5a5a;
    }
    let frame = cx.save_to_frame();
    assert_eq!(frame.len(), TRAP_FRAME_WORDS);
    let back = TrapContext::restore_from_frame(&frame);
    assert_eq!(back.x, cx.x);
    assert_eq!(back.sstatus, cx.sstatus);
    assert_eq!(back.sepc, cx.sepc);
}

#[test]
fn spp_field_is_cleared_for_user_entry() {
    assert_eq!(SSTATUS_SPP, 0x100);
    assert_eq!(sstatus_with_user_spp(0x0000), 0);
    assert_eq!(sstatus_with_user_spp(0x0100), 0);
    assert_eq!(sstatus_with_user_spp(0x8122), 0x8022);
    assert_eq!(sstatus_with_user_spp(0x8122) & SSTATUS_SPP, 0);
}

#[test]
fn syscall_numbers_decode_to_their_requests() {
    assert_eq!(
        decode_syscall(64, 2, 0x1000, 7),
        SyscallRequest::Write { fd: 2, buf: 0x1000, len: 7 }
    );
    assert_eq!(decode_syscall(93, 3, 0, 0), SyscallRequest::Exit { code: 3 });
    assert_eq!(decode_syscall(124, 0, 0, 0), SyscallRequest::Yield);
    assert_eq!(decode_syscall(169, 0, 0, 0), SyscallRequest::GetTime);
    assert_eq!(decode_syscall(1234, 5, 6, 7), SyscallRequest::Unknown { id: 1234 });
}

#[test]
fn write_to_other_descriptor_is_unsupported() {
    let mut console = Console::new();
    let buf = b"nope".to_vec();
    let r = sys_write(&mut console, 2, &buf);
    assert_eq!(r, -1);
    assert!(console.contents().is_empty());
    let r = sys_write(&mut console, FD_STDOUT, &buf);
    assert_eq!(r, 4);
    assert_eq!(console.contents(), &b"nope".to_vec());
}

#[test]
fn console_appends_in_order() {
    let mut console = Console::new();
    sys_write(&mut console, 1, &b"ab".to_vec());
    sys_write(&mut console, 1, &b"".to_vec());
    sys_write(&mut console, 1, &b"c".to_vec());
    assert_eq!(console.contents(), &b"abc".to_vec());
}

#[test]
fn ticks_scale_to_microseconds() {
    // the scaling divisor is CLOCK_FREQ / MICRO_PER_SEC = 12 ticks per
    // microsecond, rounded down from the true 12.5
    assert_eq!(CLOCK_FREQ, 12_500_000);
    assert_eq!(ticks_to_us(0), 0);
    assert_eq!(ticks_to_us(11), 0);
    assert_eq!(ticks_to_us(12), 1);
    assert_eq!(ticks_to_us(125), 10);
    assert_eq!(ticks_to_us(12_000_000), 1_000_000);
}

#[test]
fn next_trigger_is_one_tick_interval_ahead() {
    // one interval is CLOCK_FREQ / TICKS_PER_SEC = 125_000 ticks (10 ms)
    assert_eq!(TICKS_PER_SEC, 100);
    assert_eq!(next_trigger_ticks(0), 125_000);
    assert_eq!(next_trigger_ticks(1_000_000), 1_125_000);
}

#[test]
fn timer_trap_leaves_the_context_alone() {
    let mut cx = TrapContext::app_init_context(0x8040_0000, 0x8090_0000, 0);
    let outcome = trap_dispatch(&mut cx, TrapCause::SupervisorTimer);
    assert_eq!(outcome, TrapOutcome::TimerPreempt);
    assert_eq!(cx.sepc, 0x8040_0000);
}

#[test]
fn memory_faults_terminate_the_task() {
    let mut cx = TrapContext::app_init_context(0x8040_0000, 0x8090_0000, 0);
    assert_eq!(trap_dispatch(&mut cx, TrapCause::StoreFault), TrapOutcome::FatalToTask);
    assert_eq!(trap_dispatch(&mut cx, TrapCause::LoadFault), TrapOutcome::FatalToTask);
    assert_eq!(cx.sepc, 0x8040_0000);
}

#[test]
fn yield_and_exit_requests_reach_the_dispatcher() {
    let mut cx = TrapContext::app_init_context(0x8040_0000, 0x8090_0000, 0);
    cx.x[17] = 124;
    let outcome = trap_dispatch(&mut cx, TrapCause::UserEnvCall);
    assert_eq!(outcome, TrapOutcome::Syscall(SyscallRequest::Yield));
    assert_eq!(cx.sepc, 0x8040_0004);
    cx.x[17] = 93;
    cx.x[10] = 7;
    let outcome = trap_dispatch(&mut cx, TrapCause::UserEnvCall);
    assert_eq!(outcome, TrapOutcome::Syscall(SyscallRequest::Exit { code: 7 }));
    assert_eq!(cx.sepc, 0x8040_0008);
}
