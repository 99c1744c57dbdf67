//! Classification tables: which raw code stands for which kind, per platform.
use vstd::prelude::*;
use crate::kind::LookupErrorKind;

verus! {

/// The code that Linux and OpenBSD return for a host without data of the
/// requested kind; libc defines no constant for it on every target.
pub const POSIX_NO_DATA: i32 = -5;

/// WinSock's `WSATRY_AGAIN`.
pub const WSATRY_AGAIN: i32 = 11002;
/// WinSock's `WSAEINVAL`.
pub const WSAEINVAL: i32 = 10022;
/// WinSock's `WSANO_RECOVERY`.
pub const WSANO_RECOVERY: i32 = 11003;
/// WinSock's `WSAEAFNOSUPPORT`.
pub const WSAEAFNOSUPPORT: i32 = 10047;
/// WinSock's `WSA_NOT_ENOUGH_MEMORY` (`ERROR_NOT_ENOUGH_MEMORY`).
pub const WSA_NOT_ENOUGH_MEMORY: i32 = 8;
/// WinSock's `WSAHOST_NOT_FOUND`.
pub const WSAHOST_NOT_FOUND: i32 = 11001;
/// WinSock's `WSANO_DATA`.
pub const WSANO_DATA: i32 = 11004;
/// WinSock's `WSATYPE_NOT_FOUND`.
pub const WSATYPE_NOT_FOUND: i32 = 10109;
/// WinSock's `WSAESOCKTNOSUPPORT`.
pub const WSAESOCKTNOSUPPORT: i32 = 10044;

/// The `EAI_*` codes of the POSIX resolver, as the C library of the target
/// defines them.
#[derive(Copy, Clone, Debug)]
pub struct PosixCodes {
    pub again: i32,
    pub badflags: i32,
    pub fail: i32,
    pub family: i32,
    pub memory: i32,
    pub noname: i32,
    pub service: i32,
    pub socktype: i32,
    pub system: i32,
}

impl PosixCodes {
    /// The codes are pairwise distinct, none is zero (success), and none is
    /// the undocumented no-data code.
    pub open spec fn wf(&self) -> bool {
        let s = self.codes();
        &&& forall|i: int| 0 <= i < s.len() ==> s[i] != 0 && s[i] != POSIX_NO_DATA
        &&& forall|i: int, j: int| 0 <= i < j < s.len() ==> s[i] != s[j]
    }

    pub open spec fn codes(&self) -> Seq<i32> {
        seq![
            self.again,
            self.badflags,
            self.fail,
            self.family,
            self.memory,
            self.noname,
            self.service,
            self.socktype,
            self.system,
        ]
    }

    /// Every code lies between `LIBC_EAI_LOWEST` and `LIBC_EAI_HIGHEST`.
    pub open spec fn in_libc_range(&self) -> bool {
        forall|i: int|
            0 <= i < self.codes().len() ==> LIBC_EAI_LOWEST <= #[trigger] self.codes()[i]
                <= LIBC_EAI_HIGHEST
    }

    /// The codes of the C library that this crate is built against.
    pub fn from_libc() -> (r: Self)
        ensures
            r == libc_codes(),
            r.wf(),
            r.in_libc_range(),
    {
        libc_gai_codes()
    }
}

/// The lowest `EAI_*` code that libc defines on any target.
pub const LIBC_EAI_LOWEST: i32 = -307;

/// The highest `EAI_*` code that libc defines on any target.
pub const LIBC_EAI_HIGHEST: i32 = 204;

/// libc's `EAI_*` constants of the target, by position: `EAI_AGAIN`,
/// `EAI_BADFLAGS`, `EAI_FAIL`, `EAI_FAMILY`, `EAI_MEMORY`, `EAI_NONAME`,
/// `EAI_SERVICE`, `EAI_SOCKTYPE`, `EAI_SYSTEM`.
pub uninterp spec fn libc_eai_code(index: int) -> i32;

/// The codes of the C library that this crate is built against.
pub open spec fn libc_codes() -> PosixCodes {
    PosixCodes {
        again: libc_eai_code(0),
        badflags: libc_eai_code(1),
        fail: libc_eai_code(2),
        family: libc_eai_code(3),
        memory: libc_eai_code(4),
        noname: libc_eai_code(5),
        service: libc_eai_code(6),
        socktype: libc_eai_code(7),
        system: libc_eai_code(8),
    }
}

/// Relies on libc's `EAI_AGAIN`, `EAI_BADFLAGS`, `EAI_FAIL`, `EAI_FAMILY`,
/// `EAI_MEMORY`, `EAI_NONAME`, `EAI_SERVICE`, `EAI_SOCKTYPE` and `EAI_SYSTEM`:
/// constants of the target, on each Unix target distinct and non-zero, none
/// is -5, and all lie in -307..=204 (Linux: -3, -1, -4, -6, -10, -2, -8, -7,
/// -11; the BSDs and Apple: small positive numbers).
#[verifier::external_body]
fn libc_gai_codes() -> (r: PosixCodes)
    ensures
        r.again == libc_eai_code(0),
        r.badflags == libc_eai_code(1),
        r.fail == libc_eai_code(2),
        r.family == libc_eai_code(3),
        r.memory == libc_eai_code(4),
        r.noname == libc_eai_code(5),
        r.service == libc_eai_code(6),
        r.socktype == libc_eai_code(7),
        r.system == libc_eai_code(8),
        r.wf(),
        r.in_libc_range(),
{
    PosixCodes {
        again: libc::EAI_AGAIN,
        badflags: libc::EAI_BADFLAGS,
        fail: libc::EAI_FAIL,
        family: libc::EAI_FAMILY,
        memory: libc::EAI_MEMORY,
        noname: libc::EAI_NONAME,
        service: libc::EAI_SERVICE,
        socktype: libc::EAI_SOCKTYPE,
        system: libc::EAI_SYSTEM,
    }
}

/// The kind that a table gives a code: the kind of the first entry that holds
/// the code, or `IO` where none does.
pub open spec fn kind_in(t: Seq<(i32, LookupErrorKind)>, code: i32) -> LookupErrorKind
    decreases t.len(),
{
    if t.len() == 0 {
        LookupErrorKind::IO
    } else if t[0].0 == code {
        t[0].1
    } else {
        kind_in(t.drop_first(), code)
    }
}

/// Some entry of the table holds the code.
pub open spec fn has_code(t: Seq<(i32, LookupErrorKind)>, code: i32) -> bool {
    exists|i: int| 0 <= i < t.len() && t[i].0 == code
}

/// No code stands in two entries of the table.
pub open spec fn distinct_codes(t: Seq<(i32, LookupErrorKind)>) -> bool {
    forall|i: int, j: int| 0 <= i < j < t.len() ==> t[i].0 != t[j].0
}

/// The POSIX table over the C library's codes.
pub open spec fn posix_entries(c: PosixCodes) -> Seq<(i32, LookupErrorKind)> {
    seq![
        (c.again, LookupErrorKind::Again),
        (c.badflags, LookupErrorKind::Badflags),
        (c.fail, LookupErrorKind::Fail),
        (c.family, LookupErrorKind::Family),
        (c.memory, LookupErrorKind::Memory),
        (c.noname, LookupErrorKind::NoName),
        (POSIX_NO_DATA, LookupErrorKind::NoData),
        (c.service, LookupErrorKind::Service),
        (c.socktype, LookupErrorKind::Socktype),
        (c.system, LookupErrorKind::System),
    ]
}

/// The WinSock table.
pub open spec fn windows_entries() -> Seq<(i32, LookupErrorKind)> {
    seq![
        (WSATRY_AGAIN, LookupErrorKind::Again),
        (WSAEINVAL, LookupErrorKind::Badflags),
        (WSANO_RECOVERY, LookupErrorKind::Fail),
        (WSAEAFNOSUPPORT, LookupErrorKind::Family),
        (WSA_NOT_ENOUGH_MEMORY, LookupErrorKind::Memory),
        (WSAHOST_NOT_FOUND, LookupErrorKind::NoName),
        (WSANO_DATA, LookupErrorKind::NoData),
        (WSATYPE_NOT_FOUND, LookupErrorKind::Service),
        (WSAESOCKTNOSUPPORT, LookupErrorKind::Socktype),
    ]
}

/// A platform's table from raw codes to kinds, read front to back.
pub struct GaiTable {
    entries: Vec<(i32, LookupErrorKind)>,
}

impl View for GaiTable {
    type V = Seq<(i32, LookupErrorKind)>;

    closed spec fn view(&self) -> Seq<(i32, LookupErrorKind)> {
        self.entries@
    }
}

impl GaiTable {
    /// The POSIX table over the given codes.
    pub fn posix_with(c: PosixCodes) -> (r: Self)
        ensures
            r@ == posix_entries(c),
    {
        let entries = vec![
            (c.again, LookupErrorKind::Again),
            (c.badflags, LookupErrorKind::Badflags),
            (c.fail, LookupErrorKind::Fail),
            (c.family, LookupErrorKind::Family),
            (c.memory, LookupErrorKind::Memory),
            (c.noname, LookupErrorKind::NoName),
            (POSIX_NO_DATA, LookupErrorKind::NoData),
            (c.service, LookupErrorKind::Service),
            (c.socktype, LookupErrorKind::Socktype),
            (c.system, LookupErrorKind::System),
        ];
        let r = GaiTable { entries };
        assert(r@ =~= posix_entries(c));
        r
    }

    /// The POSIX table over the C library's codes.
    pub fn posix() -> (r: Self)
        ensures
            r@ == posix_entries(libc_codes()),
            libc_codes().wf(),
            libc_codes().in_libc_range(),
    {
        let c = PosixCodes::from_libc();
        GaiTable::posix_with(c)
    }

    /// The WinSock table.
    pub fn windows() -> (r: Self)
        ensures
            r@ == windows_entries(),
    {
        let entries = vec![
            (WSATRY_AGAIN, LookupErrorKind::Again),
            (WSAEINVAL, LookupErrorKind::Badflags),
            (WSANO_RECOVERY, LookupErrorKind::Fail),
            (WSAEAFNOSUPPORT, LookupErrorKind::Family),
            (WSA_NOT_ENOUGH_MEMORY, LookupErrorKind::Memory),
            (WSAHOST_NOT_FOUND, LookupErrorKind::NoName),
            (WSANO_DATA, LookupErrorKind::NoData),
            (WSATYPE_NOT_FOUND, LookupErrorKind::Service),
            (WSAESOCKTNOSUPPORT, LookupErrorKind::Socktype),
        ];
        let r = GaiTable { entries };
        assert(r@ =~= windows_entries());
        r
    }

    /// The table of a platform that is neither POSIX nor Windows: empty, so
    /// that every code is `IO`.
    pub fn fallback() -> (r: Self)
        ensures
            r@ == Seq::<(i32, LookupErrorKind)>::empty(),
    {
        let r = GaiTable { entries: Vec::new() };
        assert(r@ =~= Seq::<(i32, LookupErrorKind)>::empty());
        r
    }

    /// The kind that this table gives `code`.
    pub fn classify(&self, code: i32) -> (r: LookupErrorKind)
        ensures
            r == kind_in(self@, code),
    {
        let mut i: usize = 0;
        assert(self@.subrange(0, self@.len() as int) =~= self@);
        while i < self.entries.len()
            invariant
                0 <= i <= self@.len(),
                kind_in(self@, code) == kind_in(self@.subrange(i as int, self@.len() as int), code),
            decreases self@.len() - i,
        {
            let (c, k) = self.entries[i];
            proof {
                let rest = self@.subrange(i as int, self@.len() as int);
                assert(rest.drop_first() =~= self@.subrange(i + 1, self@.len() as int));
            }
            if c == code {
                return k;
            }
            i = i + 1;
        }
        LookupErrorKind::IO
    }
}

/// Every code that a table with distinct codes lists is given the kind of
/// its entry.
pub proof fn lemma_listed_code_classifies(t: Seq<(i32, LookupErrorKind)>, i: int)
    requires
        distinct_codes(t),
        0 <= i < t.len(),
    ensures
        kind_in(t, t[i].0) == t[i].1,
    decreases i,
{
    if i > 0 {
        assert(t[0].0 != t[i].0);
        let rest = t.drop_first();
        assert(rest[i - 1] == t[i]);
        assert(distinct_codes(rest)) by {
            assert forall|a: int, b: int| 0 <= a < b < rest.len() implies rest[a].0 != rest[b].0 by {
                assert(rest[a] == t[a + 1] && rest[b] == t[b + 1]);
            }
        }
        lemma_listed_code_classifies(rest, i - 1);
    }
}

/// The POSIX table over well-formed codes lists no code twice.
pub proof fn lemma_posix_codes_distinct(c: PosixCodes)
    requires
        c.wf(),
    ensures
        distinct_codes(posix_entries(c)),
{
    let s = c.codes();
    assert(s[0] == c.again && s[1] == c.badflags && s[2] == c.fail && s[3] == c.family);
    assert(s[4] == c.memory && s[5] == c.noname && s[6] == c.service && s[7] == c.socktype);
    assert(s[8] == c.system);
}

/// The WinSock table lists no code twice.
pub proof fn lemma_windows_codes_distinct()
    ensures
        distinct_codes(windows_entries()),
{
}

/// Each code of the POSIX table is classified as the kind that its entry
/// names: "try again" as `Again`, "bad flags" as `Badflags`, and so on.
pub proof fn posix_table_classifies_each_code(c: PosixCodes, i: int)
    requires
        c.wf(),
        0 <= i < posix_entries(c).len(),
    ensures
        kind_in(posix_entries(c), posix_entries(c)[i].0) == posix_entries(c)[i].1,
{
    lemma_posix_codes_distinct(c);
    lemma_listed_code_classifies(posix_entries(c), i);
}

/// Each code of the WinSock table is classified as the kind that its entry
/// names.
pub proof fn windows_table_classifies_each_code(i: int)
    requires
        0 <= i < windows_entries().len(),
    ensures
        kind_in(windows_entries(), windows_entries()[i].0) == windows_entries()[i].1,
{
    lemma_windows_codes_distinct();
    lemma_listed_code_classifies(windows_entries(), i);
}

/// On POSIX the undocumented code -5 is `NoData`.
pub proof fn posix_minus_five_is_no_data(c: PosixCodes)
    requires
        c.wf(),
    ensures
        kind_in(posix_entries(c), -5i32) == LookupErrorKind::NoData,
{
    posix_table_classifies_each_code(c, 6);
}

/// A code that the table does not list is `IO`.
pub proof fn unlisted_code_is_io(t: Seq<(i32, LookupErrorKind)>, code: i32)
    requires
        !has_code(t, code),
    ensures
        kind_in(t, code) == LookupErrorKind::IO,
    decreases t.len(),
{
    if t.len() > 0 {
        assert(t[0].0 != code);
        let rest = t.drop_first();
        assert(!has_code(rest, code)) by {
            assert forall|a: int| 0 <= a < rest.len() implies rest[a].0 != code by {
                assert(rest[a] == t[a + 1]);
            }
        }
        unlisted_code_is_io(rest, code);
    }
}

/// On a platform that is neither POSIX nor Windows every code is `IO`.
pub proof fn fallback_classifies_every_code_as_io(code: i32)
    ensures
        kind_in(Seq::<(i32, LookupErrorKind)>::empty(), code) == LookupErrorKind::IO,
{
}

/// A code that a table does not give `IO` is the code of an entry with that
/// kind.
pub proof fn lemma_kind_from_entry(t: Seq<(i32, LookupErrorKind)>, code: i32)
    ensures
        kind_in(t, code) == LookupErrorKind::IO || exists|i: int|
            0 <= i < t.len() && t[i].0 == code && t[i].1 == kind_in(t, code),
    decreases t.len(),
{
    if t.len() > 0 && t[0].0 != code {
        let rest = t.drop_first();
        lemma_kind_from_entry(rest, code);
        if kind_in(t, code) != LookupErrorKind::IO {
            let j = choose|j: int|
                0 <= j < rest.len() && rest[j].0 == code && rest[j].1 == kind_in(rest, code);
            assert(t[j + 1] == rest[j]);
        }
    }
}

/// Under well-formed codes each kind of the POSIX table is given to exactly
/// one code: `System` to the system-error code alone, `NoData` to -5 alone,
/// and so on.
pub proof fn posix_kind_names_exactly_one_code(c: PosixCodes, i: int, err: i32)
    requires
        c.wf(),
        0 <= i < posix_entries(c).len(),
    ensures
        kind_in(posix_entries(c), err) == posix_entries(c)[i].1 <==> err == posix_entries(c)[i].0,
{
    let t = posix_entries(c);
    posix_table_classifies_each_code(c, i);
    lemma_kind_from_entry(t, err);
    if kind_in(t, err) == t[i].1 {
        let j = choose|j: int| 0 <= j < t.len() && t[j].0 == err && t[j].1 == kind_in(t, err);
        assert(t[j].1 == t[i].1);
        assert(j == i);
    }
}

/// Under codes in libc's range, a code outside that range is `IO` on POSIX.
pub proof fn posix_code_out_of_libc_range_is_io(c: PosixCodes, err: i32)
    requires
        c.in_libc_range(),
        err < LIBC_EAI_LOWEST || err > LIBC_EAI_HIGHEST,
    ensures
        kind_in(posix_entries(c), err) == LookupErrorKind::IO,
{
    let t = posix_entries(c);
    let s = c.codes();
    assert(s[0] == c.again && s[1] == c.badflags && s[2] == c.fail && s[3] == c.family);
    assert(s[4] == c.memory && s[5] == c.noname && s[6] == c.service && s[7] == c.socktype);
    assert(s[8] == c.system);
    assert(!has_code(t, err)) by {
        assert forall|k: int| 0 <= k < t.len() implies t[k].0 != err by {
            if k < 6 {
                assert(t[k].0 == s[k]);
            } else if k > 6 {
                assert(t[k].0 == s[k - 1]);
            }
        }
    }
    unlisted_code_is_io(t, err);
}

} // verus!
