//! The message that goes with a lookup error.
use vstd::prelude::*;
use vstd::string::StringExecFns;

verus! {

/// The message of code zero, which is no failure.
pub const SUCCESS_MESSAGE: &'static str = "address information lookup success";

/// The message of a failure where no better one can be had.
pub const FAILURE_MESSAGE: &'static str = "failed to lookup address information";

/// What precedes the resolver's own description of a failure.
pub const FAILURE_PREFIX: &'static str = "failed to lookup address information: ";

/// Where the message of a lookup error comes from.
pub enum Diagnostic {
    /// A message of its own.
    Text(String),
    /// The operating system's last error, which the resolver asks its caller
    /// to consult.
    LastOsError,
}

impl View for Diagnostic {
    /// The text, or `None` where the last OS error speaks.
    type V = Option<Seq<char>>;

    open spec fn view(&self) -> Option<Seq<char>> {
        match self {
            Diagnostic::Text(s) => Some(s@),
            Diagnostic::LastOsError => None,
        }
    }
}

/// The message on POSIX: the success message for zero, the last OS error for
/// the resolver's system-error code, and otherwise the resolver's own
/// description after the failure prefix.
pub open spec fn posix_message(system: i32, err: i32, detail: Seq<char>) -> Option<Seq<char>> {
    if err == 0 {
        Some(SUCCESS_MESSAGE@)
    } else if err == system {
        None
    } else {
        Some(FAILURE_PREFIX@ + detail)
    }
}

/// The message on Windows: the success message for zero, and otherwise the
/// last OS error.
pub open spec fn windows_message(err: i32) -> Option<Seq<char>> {
    if err == 0 {
        Some(SUCCESS_MESSAGE@)
    } else {
        None
    }
}

/// The message on a platform that is neither POSIX nor Windows: one of two
/// constant strings, by whether the code is zero.
pub open spec fn fallback_message(err: i32) -> Option<Seq<char>> {
    if err == 0 {
        Some(SUCCESS_MESSAGE@)
    } else {
        Some(FAILURE_MESSAGE@)
    }
}

impl Diagnostic {
    /// The message of `err` on POSIX, where `system` is the resolver's
    /// system-error code and `detail` its description of `err`.
    pub fn posix(system: i32, err: i32, detail: &str) -> (r: Self)
        ensures
            r@ == posix_message(system, err, detail@),
    {
        if err == 0 {
            Diagnostic::Text(String::from_str(SUCCESS_MESSAGE))
        } else if err == system {
            Diagnostic::LastOsError
        } else {
            Diagnostic::Text(String::from_str(FAILURE_PREFIX).concat(detail))
        }
    }

    /// The message of `err` on Windows.
    pub fn windows(err: i32) -> (r: Self)
        ensures
            r@ == windows_message(err),
    {
        if err == 0 {
            Diagnostic::Text(String::from_str(SUCCESS_MESSAGE))
        } else {
            Diagnostic::LastOsError
        }
    }

    /// The message of `err` on a platform that is neither POSIX nor Windows.
    pub fn fallback(err: i32) -> (r: Self)
        ensures
            r@ == fallback_message(err),
    {
        if err == 0 {
            Diagnostic::Text(String::from_str(SUCCESS_MESSAGE))
        } else {
            Diagnostic::Text(String::from_str(FAILURE_MESSAGE))
        }
    }

    /// The text of the message, where it has one of its own.
    pub fn text(&self) -> (r: Option<String>)
        ensures
            match r {
                Some(s) => self@ == Some(s@),
                None => self@ is None,
            },
    {
        match self {
            Diagnostic::Text(s) => Some(s.clone()),
            Diagnostic::LastOsError => None,
        }
    }
}

/// Code zero has the success message on every platform.
pub proof fn zero_has_success_message(system: i32, detail: Seq<char>)
    ensures
        posix_message(system, 0, detail) == Some(SUCCESS_MESSAGE@),
        windows_message(0) == Some(SUCCESS_MESSAGE@),
        fallback_message(0) == Some(SUCCESS_MESSAGE@),
{
}

/// On a platform that is neither POSIX nor Windows, every code's message is
/// one of two constant strings, chosen by whether the code is zero.
pub proof fn fallback_message_is_one_of_two(err: i32)
    ensures
        fallback_message(err) == Some(SUCCESS_MESSAGE@) || fallback_message(err) == Some(
            FAILURE_MESSAGE@,
        ),
        fallback_message(err) == Some(SUCCESS_MESSAGE@) <==> err == 0,
{
    reveal_strlit("address information lookup success");
    reveal_strlit("failed to lookup address information");
    assert(SUCCESS_MESSAGE@[0] != FAILURE_MESSAGE@[0]);
}

} // verus!
