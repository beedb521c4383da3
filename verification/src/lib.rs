//! A verified model of a minimal preemptive multitasking kernel for a
//! 64-bit RISC-V machine.
//!
//! The library covers the task subsystem: the task control block and its
//! status machine, the saved task and trap contexts, the round-robin
//! scheduler with user/kernel time accounting, the trap dispatcher, the
//! system-call surface, and the timer arithmetic.  Everything that touches
//! the machine itself — the assembly context switch, the control and status
//! registers, the SBI console and shutdown calls — is the caller's: the
//! functions here take the clock and the trap cause as plain values and
//! return the decision the kernel makes.

pub mod config;
pub mod sync;
pub mod context;
pub mod task;
pub mod manager;
pub mod timer;
pub mod syscall;
pub mod trap;
