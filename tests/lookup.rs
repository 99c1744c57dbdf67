use gai_error::diagnostic::{Diagnostic, FAILURE_MESSAGE, SUCCESS_MESSAGE};
use gai_error::table::{
    POSIX_NO_DATA, WSAEAFNOSUPPORT, WSAEINVAL, WSAESOCKTNOSUPPORT, WSAHOST_NOT_FOUND,
    WSANO_DATA, WSANO_RECOVERY, WSATRY_AGAIN, WSATYPE_NOT_FOUND, WSA_NOT_ENOUGH_MEMORY,
};
use gai_error::{GaiTable, LookupError, LookupErrorKind, PosixCodes};

#[test]
fn posix_table_classifies_libc_codes() {
    let t = GaiTable::posix();
    assert_eq!(t.classify(libc::EAI_AGAIN), LookupErrorKind::Again);
    assert_eq!(t.classify(libc::EAI_BADFLAGS), LookupErrorKind::Badflags);
    assert_eq!(t.classify(libc::EAI_FAIL), LookupErrorKind::Fail);
    assert_eq!(t.classify(libc::EAI_FAMILY), LookupErrorKind::Family);
    assert_eq!(t.classify(libc::EAI_MEMORY), LookupErrorKind::Memory);
    assert_eq!(t.classify(libc::EAI_NONAME), LookupErrorKind::NoName);
    assert_eq!(t.classify(libc::EAI_SERVICE), LookupErrorKind::Service);
    assert_eq!(t.classify(libc::EAI_SOCKTYPE), LookupErrorKind::Socktype);
    assert_eq!(t.classify(libc::EAI_SYSTEM), LookupErrorKind::System);
}

#[test]
fn kind_new_classifies_libc_codes() {
    assert_eq!(LookupErrorKind::new(libc::EAI_AGAIN), LookupErrorKind::Again);
    assert_eq!(LookupErrorKind::new(libc::EAI_NONAME), LookupErrorKind::NoName);
    assert_eq!(LookupErrorKind::new(libc::EAI_SYSTEM), LookupErrorKind::System);
}

#[test]
fn windows_table_classifies_winsock_codes() {
    let t = GaiTable::windows();
    assert_eq!(t.classify(WSATRY_AGAIN), LookupErrorKind::Again);
    assert_eq!(t.classify(WSAEINVAL), LookupErrorKind::Badflags);
    assert_eq!(t.classify(WSANO_RECOVERY), LookupErrorKind::Fail);
    assert_eq!(t.classify(WSAEAFNOSUPPORT), LookupErrorKind::Family);
    assert_eq!(t.classify(WSA_NOT_ENOUGH_MEMORY), LookupErrorKind::Memory);
    assert_eq!(t.classify(WSAHOST_NOT_FOUND), LookupErrorKind::NoName);
    assert_eq!(t.classify(WSANO_DATA), LookupErrorKind::NoData);
    assert_eq!(t.classify(WSATYPE_NOT_FOUND), LookupErrorKind::Service);
    assert_eq!(t.classify(WSAESOCKTNOSUPPORT), LookupErrorKind::Socktype);
    assert_eq!(WSATRY_AGAIN, 11002);
    assert_eq!(WSAEINVAL, 10022);
}

#[test]
fn minus_five_is_no_data_on_posix() {
    assert_eq!(POSIX_NO_DATA, -5);
    assert_eq!(LookupErrorKind::new(-5), LookupErrorKind::NoData);
    assert_eq!(GaiTable::posix().classify(-5), LookupErrorKind::NoData);
    assert_eq!(LookupError::new(-5, "No address associated with hostname").kind(), LookupErrorKind::NoData);
}

#[test]
fn unlisted_codes_are_io() {
    assert_eq!(LookupErrorKind::new(12345), LookupErrorKind::IO);
    assert_eq!(LookupErrorKind::new(0), LookupErrorKind::IO);
    assert_eq!(GaiTable::windows().classify(-3), LookupErrorKind::IO);
    assert_eq!(GaiTable::windows().classify(0), LookupErrorKind::IO);
    assert_eq!(GaiTable::posix().classify(i32::MAX), LookupErrorKind::IO);
    assert_eq!(GaiTable::posix().classify(i32::MIN), LookupErrorKind::IO);
}

#[test]
fn table_over_given_codes() {
    let c = PosixCodes {
        again: 2,
        badflags: 3,
        fail: 4,
        family: 5,
        memory: 6,
        noname: 8,
        service: 9,
        socktype: 10,
        system: 11,
    };
    let t = GaiTable::posix_with(c);
    assert_eq!(t.classify(2), LookupErrorKind::Again);
    assert_eq!(t.classify(8), LookupErrorKind::NoName);
    assert_eq!(t.classify(-5), LookupErrorKind::NoData);
    assert_eq!(t.classify(11), LookupErrorKind::System);
    assert_eq!(t.classify(7), LookupErrorKind::IO);
    assert_eq!(LookupErrorKind::from_codes(c, 10), LookupErrorKind::Socktype);
    assert_eq!(LookupErrorKind::from_codes(c, 9), LookupErrorKind::Service);
}

#[test]
fn libc_codes_are_distinct_and_nonzero() {
    let c = PosixCodes::from_libc();
    let codes = [
        c.again, c.badflags, c.fail, c.family, c.memory, c.noname, c.service, c.socktype, c.system,
    ];
    for (i, a) in codes.iter().enumerate() {
        assert_ne!(*a, 0);
        assert_ne!(*a, -5);
        for b in codes.iter().skip(i + 1) {
            assert_ne!(a, b);
        }
    }
    assert_eq!(c.again, libc::EAI_AGAIN);
    assert_eq!(c.system, libc::EAI_SYSTEM);
}

#[test]
fn match_zero_is_success() {
    assert!(LookupError::match_gai_error(0, "Success").is_ok());
}

#[test]
fn match_nonzero_is_error_with_code() {
    for code in [libc::EAI_NONAME, libc::EAI_AGAIN, -5, 1, 12345, i32::MIN, i32::MAX] {
        match LookupError::match_gai_error(code, "some failure") {
            Ok(()) => panic!("code {} matched as success", code),
            Err(e) => assert_eq!(e.error_num(), code),
        }
    }
    let e = LookupError::match_gai_error(libc::EAI_NONAME, "Name or service not known").unwrap_err();
    assert_eq!(e.kind(), LookupErrorKind::NoName);
}

#[test]
fn resolver_message_is_prefixed() {
    let e = LookupError::new(libc::EAI_FAIL, "Non-recoverable failure in name resolution");
    assert_eq!(e.kind(), LookupErrorKind::Fail);
    assert_eq!(e.error_num(), libc::EAI_FAIL);
    let io: std::io::Error = e.into();
    assert_eq!(io.kind(), std::io::ErrorKind::Other);
    assert_eq!(
        io.to_string(),
        "failed to lookup address information: Non-recoverable failure in name resolution"
    );
}

#[test]
fn system_code_carries_an_os_error() {
    let e = LookupError::new(libc::EAI_SYSTEM, "System error");
    assert_eq!(e.kind(), LookupErrorKind::System);
    assert_eq!(e.error_num(), libc::EAI_SYSTEM);
    let io: std::io::Error = e.into();
    assert!(!io.to_string().starts_with("failed to lookup address information"));
}

#[test]
fn round_trip_keeps_message() {
    let e = LookupError::new(libc::EAI_AGAIN, "Temporary failure in name resolution");
    assert_eq!(e.kind(), LookupErrorKind::Again);
    let io: std::io::Error = e.into();
    let text = io.to_string();
    let back = LookupError::from(io);
    assert_eq!(back.kind(), LookupErrorKind::IO);
    assert_eq!(back.error_num(), 0);
    let io2: std::io::Error = back.into();
    assert_eq!(io2.to_string(), text);
}

#[test]
fn io_error_becomes_io_kind() {
    let io = std::io::Error::new(std::io::ErrorKind::InvalidInput, "bad host");
    let e: LookupError = io.into();
    assert_eq!(e.kind(), LookupErrorKind::IO);
    assert_eq!(e.error_num(), 0);
    let io: std::io::Error = e.into();
    assert_eq!(io.kind(), std::io::ErrorKind::InvalidInput);
    assert_eq!(io.to_string(), "bad host");
}

#[test]
fn zero_message_is_success_everywhere() {
    let e = LookupError::new(0, "Success");
    let io: std::io::Error = e.into();
    assert_eq!(io.to_string(), "address information lookup success");
    assert_eq!(SUCCESS_MESSAGE, "address information lookup success");
    let posix = Diagnostic::posix(libc::EAI_SYSTEM, 0, "Success");
    assert_eq!(posix.text().as_deref(), Some("address information lookup success"));
    assert_eq!(Diagnostic::windows(0).text().as_deref(), Some("address information lookup success"));
    assert_eq!(Diagnostic::fallback(0).text().as_deref(), Some("address information lookup success"));
}

#[test]
fn posix_diagnostics() {
    assert!(Diagnostic::posix(-11, -11, "System error").text().is_none());
    assert_eq!(
        Diagnostic::posix(-11, -2, "Name or service not known").text().as_deref(),
        Some("failed to lookup address information: Name or service not known")
    );
    assert_eq!(
        Diagnostic::posix(-11, -2, "").text().as_deref(),
        Some("failed to lookup address information: ")
    );
}

#[test]
fn windows_nonzero_uses_os_error() {
    assert!(Diagnostic::windows(WSAHOST_NOT_FOUND).text().is_none());
    assert!(Diagnostic::windows(-1).text().is_none());
}

#[test]
fn fallback_is_io_with_two_messages() {
    let t = GaiTable::fallback();
    for code in [0, -5, -3, 1, WSATRY_AGAIN, i32::MIN, i32::MAX] {
        assert_eq!(t.classify(code), LookupErrorKind::IO);
    }
    assert_eq!(FAILURE_MESSAGE, "failed to lookup address information");
    for code in [-5, -3, 1, i32::MIN, i32::MAX] {
        assert_eq!(Diagnostic::fallback(code).text().as_deref(), Some(FAILURE_MESSAGE));
    }
    assert_eq!(Diagnostic::fallback(0).text().as_deref(), Some(SUCCESS_MESSAGE));
}

#[test]
fn repeated_construction_is_stable() {
    for code in [libc::EAI_AGAIN, libc::EAI_SYSTEM, -5, 0, 777] {
        let a = LookupError::new(code, "detail");
        let b = LookupError::new(code, "detail");
        assert_eq!(a.kind(), b.kind());
        assert_eq!(a.error_num(), b.error_num());
        assert_eq!(a.error_num(), code);
    }
}

#[test]
fn winsock_errors() {
    let e = LookupError::new_winsock(WSAHOST_NOT_FOUND);
    assert_eq!(e.kind(), LookupErrorKind::NoName);
    assert_eq!(e.error_num(), WSAHOST_NOT_FOUND);
    let e = LookupError::new_winsock(-3);
    assert_eq!(e.kind(), LookupErrorKind::IO);
    let io: std::io::Error = LookupError::new_winsock(0).into();
    assert_eq!(io.to_string(), "address information lookup success");
}

#[test]
fn fallback_errors() {
    let e = LookupError::new_fallback(-3);
    assert_eq!(e.kind(), LookupErrorKind::IO);
    assert_eq!(e.error_num(), -3);
    let io: std::io::Error = e.into();
    assert_eq!(io.to_string(), "failed to lookup address information");
    let io: std::io::Error = LookupError::new_fallback(0).into();
    assert_eq!(io.to_string(), "address information lookup success");
}

#[test]
fn extreme_and_unknown_codes_are_io() {
    for code in [12345, i32::MAX, i32::MIN] {
        assert_eq!(LookupErrorKind::new(code), LookupErrorKind::IO);
        let e = LookupError::match_gai_error(code, "Unknown error").unwrap_err();
        assert_eq!(e.kind(), LookupErrorKind::IO);
        assert_eq!(e.error_num(), code);
    }
}

#[test]
fn error_kind_agrees_with_kind_new() {
    for code in [libc::EAI_AGAIN, libc::EAI_BADFLAGS, libc::EAI_SYSTEM, -5, 0, 12345] {
        assert_eq!(LookupError::new(code, "detail").kind(), LookupErrorKind::new(code));
    }
}
