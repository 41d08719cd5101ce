//! Duplicating file descriptors, and reading and writing their flags.
//!
//! Each operation is one call of `fcntl`: a function says which call to make, and the reply to it
//! is turned into the operation's result.

use vstd::prelude::*;

verus! {

/// A file descriptor.
pub type RawFd = i32;

/// The code of a system error.
#[derive(Clone, Copy, Debug, PartialEq, Eq, Structural)]
pub struct Errno(pub i32);

/// What a call of `fcntl` asks for.
#[derive(Clone, Copy, Debug, PartialEq, Eq, Structural)]
pub enum Command {
    /// `F_DUPFD`, with the lowest descriptor that may be returned.
    DupFd(RawFd),
    /// `F_DUPFD_CLOEXEC`, with the lowest descriptor that may be returned.
    DupFdCloexec(RawFd),
    /// `F_GETFD`.
    GetFd,
    /// `F_SETFD`, with the flags.
    SetFd(i32),
    /// `F_GETFL`.
    GetFl,
    /// `F_SETFL`, with the flags.
    SetFl(i32),
}

/// A call of `fcntl`.
#[derive(Clone, Copy, Debug, PartialEq, Eq, Structural)]
pub struct Call {
    pub fd: RawFd,
    pub command: Command,
}

/// What a call of `fcntl` returned, and the value of `errno` after it.
#[derive(Clone, Copy, Debug, PartialEq, Eq, Structural)]
pub struct Reply {
    pub value: i32,
    pub errno: i32,
}

/// Flags of a file descriptor.
#[derive(Clone, Copy, Debug, PartialEq, Eq, Structural)]
pub struct FdFlag {
    bits: i32,
}

/// Flags of an open file.
#[derive(Clone, Copy, Debug, PartialEq, Eq, Structural)]
pub struct OFlag {
    bits: i32,
}

impl View for FdFlag {
    type V = i32;

    closed spec fn view(&self) -> i32 {
        self.bits
    }
}

impl View for OFlag {
    type V = i32;

    closed spec fn view(&self) -> i32 {
        self.bits
    }
}

impl FdFlag {
    /// The flags among `bits`, where `known` holds the bits that are flags on this platform.
    pub fn from_bits_truncate(bits: i32, known: i32) -> (r: Self)
        ensures
            r@ == bits & known,
    {
        FdFlag { bits: bits & known }
    }

    /// The flags as bits.
    pub fn bits(&self) -> (r: i32)
        ensures
            r == self@,
    {
        self.bits
    }
}

impl OFlag {
    /// The flags among `bits`, where `known` holds the bits that are flags on this platform.
    pub fn from_bits_truncate(bits: i32, known: i32) -> (r: Self)
        ensures
            r@ == bits & known,
    {
        OFlag { bits: bits & known }
    }

    /// The flags as bits.
    pub fn bits(&self) -> (r: i32)
        ensures
            r == self@,
    {
        self.bits
    }
}

impl Errno {
    /// The value of a reply, which is an error exactly if the value is -1.
    pub fn from_result(reply: Reply) -> (r: Result<i32, Errno>)
        ensures
            r == (if reply.value == -1 {
                Err::<i32, Errno>(Errno(reply.errno))
            } else {
                Ok::<i32, Errno>(reply.value)
            }),
    {
        if reply.value == -1 {
            Err(Errno(reply.errno))
        } else {
            Ok(reply.value)
        }
    }

    /// Whether a reply reports success, which it does exactly if its value is zero.
    pub fn from_success_code(reply: Reply) -> (r: Result<(), Errno>)
        ensures
            r == (if reply.value == 0 {
                Ok::<(), Errno>(())
            } else {
                Err::<(), Errno>(Errno(reply.errno))
            }),
    {
        if reply.value == 0 {
            Ok(())
        } else {
            Err(Errno(reply.errno))
        }
    }
}

/// The call that duplicates `fd`. The duplicate is not lower than `fd`.
pub fn dup_fd(fd: RawFd, close_on_exec: bool) -> (r: Call)
    ensures
        r.fd == fd,
        r.command == (if close_on_exec {
            Command::DupFdCloexec(fd)
        } else {
            Command::DupFd(fd)
        }),
{
    if close_on_exec {
        Call { fd, command: Command::DupFdCloexec(fd) }
    } else {
        Call { fd, command: Command::DupFd(fd) }
    }
}

/// The duplicate, from the reply to the call of `dup_fd`.
pub fn dup_fd_result(reply: Reply) -> (r: Result<RawFd, Errno>)
    ensures
        r == (if reply.value == -1 {
            Err::<RawFd, Errno>(Errno(reply.errno))
        } else {
            Ok::<RawFd, Errno>(reply.value)
        }),
{
    Errno::from_result(reply)
}

/// The call that reads the flags of `fd`.
pub fn get_fd(fd: RawFd) -> (r: Call)
    ensures
        r == (Call { fd, command: Command::GetFd }),
{
    Call { fd, command: Command::GetFd }
}

/// The flags, from the reply to the call of `get_fd`. Bits that are not `known` are dropped.
pub fn get_fd_result(reply: Reply, known: i32) -> (r: Result<FdFlag, Errno>)
    ensures
        match r {
            Ok(flags) => reply.value != -1 && flags@ == reply.value & known,
            Err(errno) => reply.value == -1 && errno == Errno(reply.errno),
        },
{
    match Errno::from_result(reply) {
        Ok(bits) => Ok(FdFlag::from_bits_truncate(bits, known)),
        Err(errno) => Err(errno),
    }
}

/// The call that writes the flags of `fd`.
pub fn set_fd(fd: RawFd, flags: FdFlag) -> (r: Call)
    ensures
        r == (Call { fd, command: Command::SetFd(flags@) }),
{
    Call { fd, command: Command::SetFd(flags.bits()) }
}

/// Whether the flags were written, from the reply to the call of `set_fd`.
pub fn set_fd_result(reply: Reply) -> (r: Result<(), Errno>)
    ensures
        r == (if reply.value == 0 {
            Ok::<(), Errno>(())
        } else {
            Err::<(), Errno>(Errno(reply.errno))
        }),
{
    Errno::from_success_code(reply)
}

/// The call that reads the flags of the file that is open as `fd`.
pub fn get_fl(fd: RawFd) -> (r: Call)
    ensures
        r == (Call { fd, command: Command::GetFl }),
{
    Call { fd, command: Command::GetFl }
}

/// The flags, from the reply to the call of `get_fl`. Bits that are not `known` are dropped.
pub fn get_fl_result(reply: Reply, known: i32) -> (r: Result<OFlag, Errno>)
    ensures
        match r {
            Ok(flags) => reply.value != -1 && flags@ == reply.value & known,
            Err(errno) => reply.value == -1 && errno == Errno(reply.errno),
        },
{
    match Errno::from_result(reply) {
        Ok(bits) => Ok(OFlag::from_bits_truncate(bits, known)),
        Err(errno) => Err(errno),
    }
}

/// The call that writes the flags of the file that is open as `fd`.
pub fn set_fl(fd: RawFd, flags: OFlag) -> (r: Call)
    ensures
        r == (Call { fd, command: Command::SetFl(flags@) }),
{
    Call { fd, command: Command::SetFl(flags.bits()) }
}

/// Whether the flags were written, from the reply to the call of `set_fl`.
pub fn set_fl_result(reply: Reply) -> (r: Result<(), Errno>)
    ensures
        r == (if reply.value == 0 {
            Ok::<(), Errno>(())
        } else {
            Err::<(), Errno>(Errno(reply.errno))
        }),
{
    Errno::from_success_code(reply)
}

/// Flags that are known are read back as they were written, whatever other bits the system adds.
pub proof fn law_known_flags_are_read_back(flags: i32, known: i32, added: i32)
    requires
        flags & known == flags,
        added & known == 0,
    ensures
        (flags | added) & known == flags,
{
    assert((flags | added) & known == flags) by (bit_vector)
        requires
            flags & known == flags,
            added & known == 0,
    ;
}

/// The flags that are read are all known, so that reading them again changes nothing.
pub proof fn law_flags_read_are_known(bits: i32, known: i32)
    ensures
        (bits & known) & known == bits & known,
        (bits & known) & !known == 0,
{
    assert((bits & known) & known == bits & known) by (bit_vector);
    assert((bits & known) & !known == 0) by (bit_vector);
}

/// A descriptor is duplicated by the call that asks for the wanted treatment at `exec`, on the
/// descriptor itself, and the duplicate may be any descriptor from it on.
pub proof fn law_duplicate_is_of_the_descriptor(fd: RawFd, close_on_exec: bool, r: Call)
    requires
        call_ensures(dup_fd, (fd, close_on_exec), r),
    ensures
        r.fd == fd,
        match r.command {
            Command::DupFd(lowest) => !close_on_exec && lowest == fd,
            Command::DupFdCloexec(lowest) => close_on_exec && lowest == fd,
            _ => false,
        },
{
}

/// The duplicate is the one that the system returned, and the error is the one that it set.
pub proof fn law_duplicate_is_the_one_returned(reply: Reply, r: Result<RawFd, Errno>)
    requires
        call_ensures(dup_fd_result, (reply,), r),
    ensures
        r is Err <==> reply.value == -1,
        r matches Ok(fd) ==> fd == reply.value,
        r matches Err(errno) ==> errno.0 == reply.errno,
{
}

/// Replies are turned into results in the two ways of the system: the value -1 is an error and
/// all others are results, or the value 0 is success and all others are errors.
pub proof fn law_replies_of_the_system(
    reply: Reply,
    result: Result<i32, Errno>,
    success: Result<(), Errno>,
)
    requires
        call_ensures(Errno::from_result, (reply,), result),
        call_ensures(Errno::from_success_code, (reply,), success),
    ensures
        result is Err <==> reply.value == -1,
        result matches Ok(value) ==> value == reply.value,
        result matches Err(errno) ==> errno.0 == reply.errno,
        success is Ok <==> reply.value == 0,
        success matches Err(errno) ==> errno.0 == reply.errno,
{
}

/// Descriptor flags that are written and found again in the reply to a read, whatever unknown bits
/// the system adds, are read back bit by bit; the calls are made on the descriptor in question.
pub proof fn law_descriptor_flags_are_read_back(
    fd: RawFd,
    bits: i32,
    known: i32,
    added: i32,
    flags: FdFlag,
    write: Call,
    read: Call,
    reply: Reply,
    r: Result<FdFlag, Errno>,
    written: i32,
)
    requires
        call_ensures(FdFlag::from_bits_truncate, (bits, known), flags),
        call_ensures(FdFlag::bits, (&flags,), written),
        call_ensures(set_fd, (fd, flags), write),
        call_ensures(get_fd, (fd,), read),
        added & known == 0,
        write.command matches Command::SetFd(value) && reply.value == value | added,
        call_ensures(get_fd_result, (reply, known), r),
    ensures
        write.fd == fd,
        read.fd == fd,
        read.command is GetFd,
        write.command == Command::SetFd(written),
        written == bits & known,
        r is Err <==> reply.value == -1,
        r matches Ok(found) ==> (forall|value: i32| #[trigger]
            call_ensures(FdFlag::bits, (&found,), value) ==> value == written),
        r matches Err(errno) ==> errno.0 == reply.errno,
{
    law_flags_read_are_known(bits, known);
    law_known_flags_are_read_back(bits & known, known, added);
}

/// File flags that are written and found again in the reply to a read, whatever unknown bits the
/// system adds, are read back bit by bit; the calls are made on the descriptor in question.
pub proof fn law_file_flags_are_read_back(
    fd: RawFd,
    bits: i32,
    known: i32,
    added: i32,
    flags: OFlag,
    write: Call,
    read: Call,
    reply: Reply,
    r: Result<OFlag, Errno>,
    written: i32,
)
    requires
        call_ensures(OFlag::from_bits_truncate, (bits, known), flags),
        call_ensures(OFlag::bits, (&flags,), written),
        call_ensures(set_fl, (fd, flags), write),
        call_ensures(get_fl, (fd,), read),
        added & known == 0,
        write.command matches Command::SetFl(value) && reply.value == value | added,
        call_ensures(get_fl_result, (reply, known), r),
    ensures
        write.fd == fd,
        read.fd == fd,
        read.command is GetFl,
        write.command == Command::SetFl(written),
        written == bits & known,
        r is Err <==> reply.value == -1,
        r matches Ok(found) ==> (forall|value: i32| #[trigger]
            call_ensures(OFlag::bits, (&found,), value) ==> value == written),
        r matches Err(errno) ==> errno.0 == reply.errno,
{
    law_flags_read_are_known(bits, known);
    law_known_flags_are_read_back(bits & known, known, added);
}

/// Of the bits in a reply, those that are known are read, each as it is, and no other.
pub proof fn law_known_bits_are_read(
    reply: Reply,
    known: i32,
    fd_flags: Result<FdFlag, Errno>,
    file_flags: Result<OFlag, Errno>,
    fd_bits: i32,
    file_bits: i32,
)
    requires
        call_ensures(get_fd_result, (reply, known), fd_flags),
        call_ensures(get_fl_result, (reply, known), file_flags),
        fd_flags matches Ok(flags) ==> call_ensures(FdFlag::bits, (&flags,), fd_bits),
        file_flags matches Ok(flags) ==> call_ensures(OFlag::bits, (&flags,), file_bits),
    ensures
        fd_flags is Err <==> reply.value == -1,
        file_flags is Err <==> reply.value == -1,
        fd_flags matches Err(errno) ==> errno.0 == reply.errno,
        file_flags matches Err(errno) ==> errno.0 == reply.errno,
        fd_flags is Ok ==> fd_bits == reply.value & known,
        file_flags is Ok ==> file_bits == reply.value & known,
{
}

/// Flags were written exactly if the reply is zero; otherwise the error is the one that was set.
pub proof fn law_flags_are_written_exactly_if_the_reply_is_zero(
    reply: Reply,
    fd_result: Result<(), Errno>,
    file_result: Result<(), Errno>,
)
    requires
        call_ensures(set_fd_result, (reply,), fd_result),
        call_ensures(set_fl_result, (reply,), file_result),
    ensures
        fd_result is Ok <==> reply.value == 0,
        file_result is Ok <==> reply.value == 0,
        fd_result matches Err(errno) ==> errno.0 == reply.errno,
        file_result matches Err(errno) ==> errno.0 == reply.errno,
{
}

} // verus!
