//! The system-call surface: decode and the write path.
//!
//! A trap from an `ecall` carries the system-call number in x17 and three
//! arguments in x10..x12.  `decode_syscall` maps them to a request;
//! `sys_write` performs the one call whose work is the kernel's own (the
//! console is modelled as the byte log the SBI putchar loop would emit).
//! `exit` and `yield` are lifecycle transitions and live in the task
//! manager; `gettime` is the clock value the caller already holds.

use vstd::prelude::*;

verus! {

/// System-call number of `write`.
pub const SYSCALL_WRITE: usize = 64;

/// System-call number of `exit`.
pub const SYSCALL_EXIT: usize = 93;

/// System-call number of `yield`.
pub const SYSCALL_YIELD: usize = 124;

/// System-call number of `gettime`.
pub const SYSCALL_GET_TIME: usize = 169;

/// File descriptor of the console.
pub const FD_STDOUT: usize = 1;

/// A decoded system-call request.  `Unknown` is an ABI violation: the
/// kernel treats it as fatal.
#[derive(Copy, Clone, PartialEq, Eq, Structural, Debug)]
pub enum SyscallRequest {
    Write { fd: usize, buf: usize, len: usize },
    Exit { code: usize },
    Yield,
    GetTime,
    Unknown { id: usize },
}

/// The request a raw syscall number and its argument registers stand
/// for, exactly as the ABI fixes them.
pub open spec fn spec_decode_syscall(
    id: usize,
    arg0: usize,
    arg1: usize,
    arg2: usize,
) -> SyscallRequest {
    if id == SYSCALL_WRITE {
        SyscallRequest::Write { fd: arg0, buf: arg1, len: arg2 }
    } else if id == SYSCALL_EXIT {
        SyscallRequest::Exit { code: arg0 }
    } else if id == SYSCALL_YIELD {
        SyscallRequest::Yield
    } else if id == SYSCALL_GET_TIME {
        SyscallRequest::GetTime
    } else {
        SyscallRequest::Unknown { id }
    }
}

/// Maps the raw syscall number and argument registers to a request.
#[verifier::when_used_as_spec(spec_decode_syscall)]
pub fn decode_syscall(id: usize, arg0: usize, arg1: usize, arg2: usize) -> (r: SyscallRequest)
    ensures
        r == spec_decode_syscall(id, arg0, arg1, arg2),
{
    if id == SYSCALL_WRITE {
        SyscallRequest::Write { fd: arg0, buf: arg1, len: arg2 }
    } else if id == SYSCALL_EXIT {
        SyscallRequest::Exit { code: arg0 }
    } else if id == SYSCALL_YIELD {
        SyscallRequest::Yield
    } else if id == SYSCALL_GET_TIME {
        SyscallRequest::GetTime
    } else {
        SyscallRequest::Unknown { id }
    }
}

/// The console: the ordered bytes the kernel has emitted through the SBI
/// putchar call.
pub struct Console {
    bytes: Vec<u8>,
}

impl Console {
    /// Everything written so far, oldest byte first.
    pub closed spec fn view_spec(&self) -> Seq<u8> {
        self.bytes@
    }

    pub fn new() -> (r: Self)
        ensures
            r.view_spec() == Seq::<u8>::empty(),
    {
        Console { bytes: Vec::new() }
    }

    /// Appends one buffer to the console.
    pub fn put_bytes(&mut self, buf: &Vec<u8>)
        ensures
            final(self).view_spec() == old(self).view_spec() + buf@,
    {
        let mut i: usize = 0;
        while i < buf.len()
            invariant
                i <= buf.len(),
                self.bytes@ == old(self).bytes@ + buf@.subrange(0, i as int),
            decreases buf.len() - i,
        {
            let b = buf[i];
            self.bytes.push(b);
            i = i + 1;
        }
        proof {
            assert(self.bytes@ =~= old(self).bytes@ + buf@);
        }
    }

    /// The written bytes, for the caller that drains them to the machine.
    pub fn contents(&self) -> (r: &Vec<u8>)
        ensures
            r@ == self.view_spec(),
    {
        &self.bytes
    }
}

/// `write(fd, buf, len)`: on the console descriptor the buffer goes to
/// the console and the byte count is returned; any other descriptor is
/// unsupported and reported as -1 with the console untouched.  `buf`
/// holds the `len` bytes already read from user memory at the trapping
/// task's buffer address.
pub fn sys_write(console: &mut Console, fd: usize, buf: &Vec<u8>) -> (r: isize)
    requires
        buf.len() <= isize::MAX,
    ensures
        fd == FD_STDOUT ==> {
            &&& final(console).view_spec() == old(console).view_spec() + buf@
            &&& r == buf.len()
        },
        fd != FD_STDOUT ==> {
            &&& final(console).view_spec() == old(console).view_spec()
            &&& r == -1
        },
{
    if fd == FD_STDOUT {
        console.put_bytes(buf);
        buf.len() as isize
    } else {
        -1
    }
}

} // verus!
