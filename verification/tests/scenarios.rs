use os_task::context::TrapContext;
use os_task::manager::{
    exit_current_and_run_exit, run_first_task, suspend_current_and_run_next, user_time_end,
    user_time_start, RunNextAction, SwitchStats, TaskManager,
};
use os_task::syscall::{decode_syscall, sys_write, Console, SyscallRequest};
use os_task::task::TaskStatus;
use os_task::timer::ticks_to_us;
use os_task::trap::{trap_dispatch, TrapCause, TrapOutcome};

fn boot_manager(num_app: usize) -> TaskManager {
    let mut kstacks: Vec<usize> = Vec::new();
    for i in 0..num_app {
        kstacks.push(0x8100_0000 + i * 0x2000);
    }
    TaskManager::new(num_app, &kstacks, 0x8020_0000)
}

#[test]
fn two_task_round_robin_interleaves_prints() {
    // Apps A and B each print their id 5 times with a yield between
    // prints, then exit; the console holds the ids strictly interleaved
    // and both exit reports carry finite times.
    let mut tm = boot_manager(2);
    let mut console = Console::new();
    let mut prints = [0usize; 2];
    let mut reports = Vec::new();
    let names = [b'A', b'B'];
    run_first_task(&mut tm, 0).unwrap();
    let mut current = 0usize;
    let mut now = 100u64;
    loop {
        if prints[current] < 5 {
            let line = vec![names[current], b'\n'];
            let written = sys_write(&mut console, 1, &line);
            assert_eq!(written, 2);
            prints[current] += 1;
        }
        if prints[current] < 5 {
            match suspend_current_and_run_next(&mut tm, now).unwrap() {
                RunNextAction::SwitchTo { prev, next } => {
                    assert_eq!(prev, current);
                    current = next;
                }
                RunNextAction::AllCompleted => panic!("tasks still live"),
            }
        } else {
            let (report, action) = exit_current_and_run_exit(&mut tm, now).unwrap();
            reports.push(report);
            match action {
                RunNextAction::SwitchTo { next, .. } => current = next,
                RunNextAction::AllCompleted => break,
            }
        }
        now += 50;
    }
    let expected: Vec<u8> = b"A\nB\nA\nB\nA\nB\nA\nB\nA\nB\n".to_vec();
    assert_eq!(console.contents(), &expected);
    assert_eq!(reports.len(), 2);
    assert_eq!(reports[0].task_id, 0);
    assert_eq!(reports[1].task_id, 1);
}

#[test]
fn timer_preemption_accounts_time_to_both_tasks() {
    // Apps A and B run tight loops and never yield; timer traps preempt
    // them.  Both end with user_time > 0 and kernel_time > 0, and at
    // least 2 switches were sampled.
    let mut tm = boot_manager(2);
    let mut stats = SwitchStats::new();
    let mut switches = 0;
    run_first_task(&mut tm, 0).unwrap();
    user_time_start(&mut tm, 1_000).unwrap();
    let mut now = 1_000u64;
    let mut cx = TrapContext::app_init_context(0x8040_0000, 0x8200_0000, 0);
    for _ in 0..4 {
        // the task computes for 10 ms, then the timer fires
        now += 10_000;
        user_time_end(&mut tm, now).unwrap();
        let outcome = trap_dispatch(&mut cx, TrapCause::SupervisorTimer);
        assert_eq!(outcome, TrapOutcome::TimerPreempt);
        // the handler spends 200 us, then suspends the current task
        now += 200;
        match suspend_current_and_run_next(&mut tm, now).unwrap() {
            RunNextAction::SwitchTo { prev, next } => {
                assert_ne!(prev, next);
                stats.switch_begin(now);
                stats.switch_end(now + 3);
                switches += 1;
            }
            RunNextAction::AllCompleted => panic!("tasks still live"),
        }
        // back in user mode on the other task
        user_time_start(&mut tm, now + 10).unwrap();
        now += 10;
    }
    assert!(switches >= 2);
    assert_eq!(stats.get_switch_time_count(), 3 * switches);
    let inner = tm.inner.exclusive_access();
    for i in 0..2 {
        assert!(inner.tasks[i].user_time > 0);
        assert!(inner.tasks[i].kernel_time > 0);
    }
    tm.inner.release();
}

#[test]
fn write_syscall_prints_hello_and_returns_length() {
    // write(1, "hello\n", 6) then exit(0): the console holds exactly the
    // line, the app observes 6, and the exit report follows.
    let mut tm = boot_manager(1);
    let mut console = Console::new();
    run_first_task(&mut tm, 0).unwrap();
    let mut cx = TrapContext::app_init_context(0x8040_0000, 0x8200_0000, 0);
    // the app issues the ecall: a7=64, a0=1, a1=buffer, a2=6
    cx.x[17] = 64;
    cx.x[10] = 1;
    cx.x[11] = 0x8200_1000;
    cx.x[12] = 6;
    let outcome = trap_dispatch(&mut cx, TrapCause::UserEnvCall);
    // the saved user PC advanced past the 4-byte ecall instruction
    assert_eq!(cx.sepc, 0x8040_0004);
    let req = match outcome {
        TrapOutcome::Syscall(req) => req,
        _ => panic!("expected a syscall"),
    };
    assert_eq!(req, SyscallRequest::Write { fd: 1, buf: 0x8200_1000, len: 6 });
    assert_eq!(req, decode_syscall(64, 1, 0x8200_1000, 6));
    let buf = b"hello\n".to_vec();
    let ret = sys_write(&mut console, 1, &buf);
    assert_eq!(ret, 6);
    cx.set_a0(ret as usize);
    assert_eq!(cx.x[10], 6);
    assert_eq!(console.contents(), &b"hello\n".to_vec());
    let (report, action) = exit_current_and_run_exit(&mut tm, 500).unwrap();
    assert_eq!(report.task_id, 0);
    assert_eq!(action, RunNextAction::AllCompleted);
}

#[test]
fn gettime_is_monotonic_across_a_busy_loop() {
    // Two gettime calls separated by a busy loop: the second value is
    // larger, by at least the loop's lower bound.
    let ticks_first = 1_200_000u64;
    let first = ticks_to_us(ticks_first);
    assert_eq!(first, 100_000);
    // the busy loop burns at least 30 ms of scaled ticks
    let ticks_second = ticks_first + 360_000 + 17;
    let second = ticks_to_us(ticks_second);
    assert!(second > first);
    assert!(second - first >= 30_000);
}

#[test]
fn illegal_instruction_kills_task_and_system_continues() {
    // App A executes an undefined instruction: the kernel terminates it;
    // B continues until it exits, then everything has completed.
    let mut tm = boot_manager(2);
    run_first_task(&mut tm, 0).unwrap();
    let mut cx = TrapContext::app_init_context(0x8040_0000, 0x8200_0000, 0);
    let outcome = trap_dispatch(&mut cx, TrapCause::IllegalInstruction);
    assert_eq!(outcome, TrapOutcome::FatalToTask);
    let (report, action) = exit_current_and_run_exit(&mut tm, 50).unwrap();
    assert_eq!(report.task_id, 0);
    assert_eq!(action, RunNextAction::SwitchTo { prev: 0, next: 1 });
    {
        let inner = tm.inner.exclusive_access();
        assert_eq!(inner.tasks[0].task_status, TaskStatus::Exited);
        assert_eq!(inner.tasks[1].task_status, TaskStatus::Running);
        tm.inner.release();
    }
    // B keeps running across a few yields (alone, it yields to itself)
    let action = suspend_current_and_run_next(&mut tm, 80).unwrap();
    assert_eq!(action, RunNextAction::SwitchTo { prev: 1, next: 1 });
    let (report, action) = exit_current_and_run_exit(&mut tm, 120).unwrap();
    assert_eq!(report.task_id, 1);
    assert_eq!(action, RunNextAction::AllCompleted);
}

#[test]
fn unhandled_trap_is_fatal_to_the_kernel() {
    let mut cx = TrapContext::app_init_context(0x8040_0000, 0x8200_0000, 0);
    let outcome = trap_dispatch(&mut cx, TrapCause::Unhandled);
    assert_eq!(outcome, TrapOutcome::KernelPanic);
}
