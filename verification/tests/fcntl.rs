use module_setup::fcntl::{
    dup_fd, dup_fd_result, get_fd, get_fd_result, get_fl, get_fl_result, set_fd, set_fd_result,
    set_fl, set_fl_result, Call, Command, Errno, FdFlag, OFlag, Reply,
};
use module_setup::unwind::{AArch64UnwindInfo, UnwindInfoGenerator, UnwindInfoKind};

#[test]
fn duplicates_are_not_lower_than_the_original() {
    assert_eq!(dup_fd(5, false), Call { fd: 5, command: Command::DupFd(5) });
    assert_eq!(dup_fd(6, true), Call { fd: 6, command: Command::DupFdCloexec(6) });
}

#[test]
fn duplicate_is_the_reply() {
    assert_eq!(dup_fd_result(Reply { value: 7, errno: 0 }), Ok(7));
    assert_eq!(dup_fd_result(Reply { value: 0, errno: 9 }), Ok(0));
    assert_eq!(dup_fd_result(Reply { value: -1, errno: 9 }), Err(Errno(9)));
    assert_eq!(dup_fd_result(Reply { value: -2, errno: 9 }), Ok(-2));
}

#[test]
fn descriptor_flags_are_read() {
    assert_eq!(get_fd(3), Call { fd: 3, command: Command::GetFd });
    assert_eq!(
        get_fd_result(Reply { value: 0x13, errno: 0 }, 1),
        Ok(FdFlag::from_bits_truncate(1, 1))
    );
    assert_eq!(get_fd_result(Reply { value: 0x13, errno: 0 }, 1).map(|f| f.bits()), Ok(1));
    assert_eq!(get_fd_result(Reply { value: -1, errno: 22 }, 1), Err(Errno(22)));
}

#[test]
fn descriptor_flags_are_written() {
    let flags = FdFlag::from_bits_truncate(1, 1);
    assert_eq!(set_fd(4, flags), Call { fd: 4, command: Command::SetFd(1) });
    assert_eq!(set_fd_result(Reply { value: 0, errno: 5 }), Ok(()));
    assert_eq!(set_fd_result(Reply { value: -1, errno: 5 }), Err(Errno(5)));
    assert_eq!(set_fd_result(Reply { value: 1, errno: 5 }), Err(Errno(5)));
}

#[test]
fn file_flags_are_read_and_written() {
    let known = 0x1c03;
    assert_eq!(get_fl(8), Call { fd: 8, command: Command::GetFl });
    let flags = get_fl_result(Reply { value: 0x8402, errno: 0 }, known).unwrap();
    assert_eq!(flags.bits(), 0x402);
    assert_eq!(set_fl(8, flags), Call { fd: 8, command: Command::SetFl(0x402) });
    assert_eq!(get_fl_result(Reply { value: -1, errno: 13 }, known), Err(Errno(13)));
    assert_eq!(set_fl_result(Reply { value: 0, errno: 13 }), Ok(()));
    assert_eq!(set_fl_result(Reply { value: -1, errno: 13 }), Err(Errno(13)));
}

#[test]
fn known_flags_are_read_back() {
    let known = 0x1c03;
    let flags = OFlag::from_bits_truncate(0x801, known);
    let read = get_fl_result(Reply { value: flags.bits() | 0x8000, errno: 0 }, known).unwrap();
    assert_eq!(read, flags);
    assert_eq!(OFlag::from_bits_truncate(read.bits(), known), read);
}

#[test]
fn there_is_no_unwind_information() {
    for kind in [UnwindInfoKind::Absent, UnwindInfoKind::SystemV, UnwindInfoKind::Windows] {
        let insts: [u8; 2] = [1, 2];
        let info = AArch64UnwindInfo::create_unwind_info(
            kind,
            &insts,
            &[0, 4],
            &(0, 8, Box::new([(4, 8)])),
        );
        assert!(matches!(info, Ok(None)));
    }
}
