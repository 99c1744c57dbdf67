use vstd::prelude::*;
use crate::table::{
    has_code, kind_in, libc_codes, posix_entries, posix_kind_names_exactly_one_code,
    posix_code_out_of_libc_range_is_io, unlisted_code_is_io, GaiTable, PosixCodes, LIBC_EAI_HIGHEST,
    LIBC_EAI_LOWEST, POSIX_NO_DATA,
};

verus! {

/// The category of a failed address lookup, the same on every platform.
#[derive(Copy, Clone, Debug, PartialEq, Eq, Structural)]
pub enum LookupErrorKind {
    /// Temporary failure in name resolution.
    Again,
    /// Invalid value for `ai_flags' field.
    Badflags,
    /// NAME or SERVICE is unknown.
    NoName,
    /// The specified network host exists, but has no data defined.
    NoData,
    /// Non-recoverable failure in name res.
    Fail,
    /// `ai_family' not supported.
    Family,
    /// `ai_socktype' not supported.
    Socktype,
    /// SERVICE not supported for `ai_socktype'.
    Service,
    /// Memory allocation failure.
    Memory,
    /// System error returned in `errno'.
    System,
    /// Either a generic C error, or an unknown result
    /// code.
    IO,
}

impl LookupErrorKind {
    /// The kind of a code under the given C library codes.
    pub fn from_codes(c: PosixCodes, err: i32) -> (r: Self)
        ensures
            r == kind_in(posix_entries(c), err),
    {
        GaiTable::posix_with(c).classify(err)
    }

    /// Create a `LookupErrorKind` from a `gai` error, by the POSIX table of
    /// the C library this crate is built against.
    pub fn new(err: i32) -> (r: Self)
        ensures
            r == kind_in(posix_entries(libc_codes()), err),
            libc_codes().wf(),
            libc_codes().in_libc_range(),
            r == LookupErrorKind::System <==> err == libc_codes().system,
            r == LookupErrorKind::NoData <==> err == POSIX_NO_DATA,
            !has_code(posix_entries(libc_codes()), err) ==> r == LookupErrorKind::IO,
            err == 0 || err < LIBC_EAI_LOWEST || err > LIBC_EAI_HIGHEST ==> r
                == LookupErrorKind::IO,
    {
        let c = PosixCodes::from_libc();
        let r = LookupErrorKind::from_codes(c, err);
        proof {
            posix_kind_is_exact(c, err);
        }
        r
    }
}

/// What the POSIX table over well-formed codes in libc's range gives: each
/// of its kinds to one code alone, `IO` to a code that it does not list, to
/// zero, and to every code outside libc's range.
pub proof fn posix_kind_is_exact(c: PosixCodes, err: i32)
    requires
        c.wf(),
        c.in_libc_range(),
    ensures
        kind_in(posix_entries(c), err) == LookupErrorKind::System <==> err == c.system,
        kind_in(posix_entries(c), err) == LookupErrorKind::NoData <==> err == POSIX_NO_DATA,
        !has_code(posix_entries(c), err) ==> kind_in(posix_entries(c), err) == LookupErrorKind::IO,
        err == 0 || err < LIBC_EAI_LOWEST || err > LIBC_EAI_HIGHEST ==> kind_in(posix_entries(c), err)
            == LookupErrorKind::IO,
{
    posix_kind_names_exactly_one_code(c, 9, err);
    posix_kind_names_exactly_one_code(c, 6, err);
    if !has_code(posix_entries(c), err) {
        unlisted_code_is_io(posix_entries(c), err);
    }
    if err < LIBC_EAI_LOWEST || err > LIBC_EAI_HIGHEST {
        posix_code_out_of_libc_range_is_io(c, err);
    }
    if err == 0 {
        let t = posix_entries(c);
        let s = c.codes();
        assert(s[0] == c.again && s[1] == c.badflags && s[2] == c.fail && s[3] == c.family);
        assert(s[4] == c.memory && s[5] == c.noname && s[6] == c.service && s[7] == c.socktype);
        assert(s[8] == c.system);
        assert(!has_code(t, err)) by {
            assert forall|k: int| 0 <= k < t.len() implies t[k].0 != err by {
                if k < 6 {
                    assert(t[k].0 == s[k]);
                } else if k > 6 {
                    assert(t[k].0 == s[k - 1]);
                }
            }
        }
        unlisted_code_is_io(t, err);
    }
}

} // verus!
