//! The lookup error: its kind, its raw code and the generic I/O error that
//! carries its message.
use vstd::prelude::*;
use crate::diagnostic::{
    fallback_message, posix_message, windows_message, Diagnostic, SUCCESS_MESSAGE,
};
use crate::kind::{posix_kind_is_exact, LookupErrorKind};
use crate::table::{
    kind_in, libc_codes, posix_entries, windows_entries, GaiTable, PosixCodes, LIBC_EAI_HIGHEST,
    LIBC_EAI_LOWEST, POSIX_NO_DATA,
};

verus! {

#[verifier::external_type_specification]
#[verifier::external_body]
pub struct ExIoError(std::io::Error);

/// Relies on std::io::Error::new: an error of kind `Other` that carries the
/// message.
#[verifier::external_body]
fn io_error_other(msg: String) -> (r: std::io::Error) {
    std::io::Error::new(std::io::ErrorKind::Other, msg)
}

/// Relies on std::io::Error::last_os_error: the calling thread's last OS
/// error; nothing is known of it beforehand.
#[verifier::external_body]
fn last_os_error() -> (r: std::io::Error) {
    std::io::Error::last_os_error()
}

/// Struct that stores a lookup error from `getaddrinfo`
/// or `getnameinfo`. Can be converted to an `std::io::Error` with `From`.
///
/// It has no `Debug`: its ghost record of the message has none to derive
/// from. Convert it to the `std::io::Error`, or read `kind` and `error_num`.
pub struct LookupError {
    kind: LookupErrorKind,
    err_num: i32,
    inner: std::io::Error,
    /// The text that `inner` was made with, or `None` where `inner` is an
    /// error that was handed over or read from the OS.
    text: Ghost<Option<Seq<char>>>,
}

impl LookupError {
    pub closed spec fn spec_kind(&self) -> LookupErrorKind {
        self.kind
    }

    pub closed spec fn spec_error_num(&self) -> i32 {
        self.err_num
    }

    /// The generic I/O error that carries the message.
    pub closed spec fn io_error(&self) -> std::io::Error {
        self.inner
    }

    /// The text that the I/O error was made with, or `None` where it is an
    /// error that was handed over or the OS's last error.
    pub closed spec fn message(&self) -> Option<Seq<char>> {
        self.text@
    }

    /// The error that a generic I/O error becomes.
    pub closed spec fn spec_from_io_error(e: std::io::Error) -> LookupError {
        LookupError { kind: LookupErrorKind::IO, err_num: 0, inner: e, text: Ghost(None) }
    }

    /// A lookup error of the given kind and code, with the given message.
    fn from_diagnostic(kind: LookupErrorKind, err: i32, d: Diagnostic) -> (r: Self)
        ensures
            r.spec_kind() == kind,
            r.spec_error_num() == err,
            r.message() == d@,
    {
        let text = Ghost(d@);
        let inner = match d {
            Diagnostic::Text(s) => io_error_other(s),
            Diagnostic::LastOsError => last_os_error(),
        };
        LookupError { kind, err_num: err, inner, text }
    }

    /// The lookup error of `err` under the given C library codes, where
    /// `detail` is the resolver's description of `err`.
    fn from_codes(c: PosixCodes, err: i32, detail: &str) -> (r: Self)
        ensures
            r.spec_kind() == kind_in(posix_entries(c), err),
            r.spec_error_num() == err,
            r.message() == posix_message(c.system, err, detail@),
    {
        let kind = LookupErrorKind::from_codes(c, err);
        let d = Diagnostic::posix(c.system, err, detail);
        LookupError::from_diagnostic(kind, err, d)
    }

    /// Match a `gai` error, returning Ok() if it's
    /// `0`. Otherwise return Err(LookupError) with
    /// the specific error details; `detail` is the resolver's description
    /// of `err` (what `gai_strerror` gives).
    pub fn match_gai_error(err: i32, detail: &str) -> (r: Result<(), Self>)
        ensures
            r is Ok <==> err == 0,
            match r {
                Ok(_) => true,
                Err(e) => {
                    &&& e.spec_error_num() == err
                    &&& e.spec_kind() == kind_in(posix_entries(libc_codes()), err)
                    &&& e.message() == posix_message(libc_codes().system, err, detail@)
                },
            },
    {
        if err == 0 {
            Ok(())
        } else {
            Err(LookupError::new(err, detail))
        }
    }

    /// Create a new LookupError from a `gai` error,
    /// returned by `getaddrinfo` and `getnameinfo`; `detail` is the
    /// resolver's description of `err` (what `gai_strerror` gives).
    pub fn new(err: i32, detail: &str) -> (r: Self)
        ensures
            r.spec_error_num() == err,
            r.spec_kind() == kind_in(posix_entries(libc_codes()), err),
            r.message() == posix_message(libc_codes().system, err, detail@),
            libc_codes().wf(),
            libc_codes().in_libc_range(),
            err == 0 ==> r.message() == Some(SUCCESS_MESSAGE@),
            err == POSIX_NO_DATA ==> r.spec_kind() == LookupErrorKind::NoData,
            err == 0 || err < LIBC_EAI_LOWEST || err > LIBC_EAI_HIGHEST ==> r.spec_kind()
                == LookupErrorKind::IO,
    {
        let c = PosixCodes::from_libc();
        let r = LookupError::from_codes(c, err, detail);
        proof {
            posix_kind_is_exact(c, err);
        }
        r
    }

    /// Create a LookupError from a WinSock `gai` error: its kind by the
    /// WinSock table, its message the last OS error (or the success message
    /// for zero).
    pub fn new_winsock(err: i32) -> (r: Self)
        ensures
            r.spec_error_num() == err,
            r.spec_kind() == kind_in(windows_entries(), err),
            r.message() == windows_message(err),
    {
        let kind = GaiTable::windows().classify(err);
        LookupError::from_diagnostic(kind, err, Diagnostic::windows(err))
    }

    /// Create a LookupError on a platform that is neither POSIX nor Windows:
    /// every code is `IO`, with one of two constant messages.
    pub fn new_fallback(err: i32) -> (r: Self)
        ensures
            r.spec_error_num() == err,
            r.spec_kind() == LookupErrorKind::IO,
            r.message() == fallback_message(err),
    {
        let kind = GaiTable::fallback().classify(err);
        LookupError::from_diagnostic(kind, err, Diagnostic::fallback(err))
    }

    /// Get the error kind explicitly. If this is an
    /// io::Error, use From/Into to convert it.
    #[verifier::when_used_as_spec(spec_kind)]
    pub fn kind(&self) -> (r: LookupErrorKind)
        ensures
            r == self.spec_kind(),
    {
        self.kind
    }

    /// Get the actual error number. This can be used
    /// to find non-standard return codes from some
    /// implementations (be careful of portability here).
    #[verifier::when_used_as_spec(spec_error_num)]
    pub fn error_num(&self) -> (r: i32)
        ensures
            r == self.spec_error_num(),
    {
        self.err_num
    }
}

impl From<LookupError> for std::io::Error {
    fn from(err: LookupError) -> std::io::Error {
        err.inner
    }
}

impl vstd::std_specs::convert::FromSpecImpl<LookupError> for std::io::Error {
    open spec fn obeys_from_spec() -> bool {
        true
    }

    open spec fn from_spec(v: LookupError) -> std::io::Error {
        v.io_error()
    }
}

impl From<std::io::Error> for LookupError {
    fn from(err: std::io::Error) -> LookupError {
        LookupError { kind: LookupErrorKind::IO, err_num: 0, inner: err, text: Ghost(None) }
    }
}

impl vstd::std_specs::convert::FromSpecImpl<std::io::Error> for LookupError {
    open spec fn obeys_from_spec() -> bool {
        true
    }

    open spec fn from_spec(v: std::io::Error) -> LookupError {
        LookupError::spec_from_io_error(v)
    }
}

/// A generic I/O error becomes a lookup error of kind `IO` and code zero that
/// carries it unchanged.
pub proof fn from_io_error_is_io(e: std::io::Error)
    ensures
        LookupError::spec_from_io_error(e).kind() == LookupErrorKind::IO,
        LookupError::spec_from_io_error(e).error_num() == 0,
        LookupError::spec_from_io_error(e).io_error() == e,
{
}

/// Converting a lookup error to the generic I/O error and back gives kind
/// `IO` and the very I/O error, so the same message.
pub proof fn round_trip_through_io_error(e: LookupError)
    ensures
        ({
            let io: std::io::Error = vstd::std_specs::convert::FromSpec::<LookupError>::from_spec(e);
            let back: LookupError = vstd::std_specs::convert::FromSpec::<std::io::Error>::from_spec(io);
            &&& back.kind() == LookupErrorKind::IO
            &&& back.error_num() == 0
            &&& back.io_error() == e.io_error()
        }),
{
}

} // verus!
