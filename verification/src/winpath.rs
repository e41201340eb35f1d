//! Windows-side path handling: long-path rewriting, UTF-16 transcoding, and
//! the decision logic around the Windows attribute query.
//!
//! The standard Windows API calls fail on paths longer than about 260
//! characters; the `\\?\` prefix lifts that limit and disables further
//! client-side path parsing. A regular path is rewritten to `\\?\<path>`, a
//! UNC path `\\server\share\...` to `\\?\UNC\server\share\...`, and a path
//! already in long form is kept. A bare drive root `\\?\C:` gets a trailing
//! separator so downstream calls behave predictably.
//!
//! The rewriting and the decisions are pure and verified here; the actual
//! attribute and free-space calls are performed by the embedding layer,
//! which hands their raw outcomes back to the decision functions.

use vstd::prelude::*;
use crate::error::{ErrorDetail, QueryError};
use crate::stats::{sat_sub_u64, VolumeStats};

verus! {

/// The long-path prefix `\\?\`.
pub open spec fn long_prefix() -> Seq<u8> {
    seq![92u8, 92u8, 63u8, 92u8]
}

/// The long-form UNC prefix `\\?\UNC`.
pub open spec fn unc_long_prefix() -> Seq<u8> {
    seq![92u8, 92u8, 63u8, 92u8, 85u8, 78u8, 67u8]
}

/// The path is already in long form: it begins with `\\?\`.
pub open spec fn is_long_form(s: Seq<u8>) -> bool {
    s.len() >= 4 && s[0] == 92 && s[1] == 92 && s[2] == 63 && s[3] == 92
}

/// The path is a UNC path `\\server\share\...` not already in long form.
pub open spec fn is_unc_form(s: Seq<u8>) -> bool {
    s.len() >= 2 && s[0] == 92 && s[1] == 92 && !is_long_form(s)
}

/// An ASCII letter, as a drive designator.
pub open spec fn is_ascii_alpha(b: u8) -> bool {
    (65 <= b && b <= 90) || (97 <= b && b <= 122)
}

/// A bare long-form drive root `\\?\C:` with no trailing separator.
pub open spec fn is_bare_drive_root(s: Seq<u8>) -> bool {
    s.len() == 6 && is_long_form(s) && is_ascii_alpha(s[4]) && s[5] == 58
}

/// The long-path rewriting alone: keep a long-form path, splice the UNC
/// body after `\\?\UNC`, prefix anything else with `\\?\`.
pub open spec fn rewritten(s: Seq<u8>) -> Seq<u8> {
    if is_long_form(s) {
        s
    } else if is_unc_form(s) {
        unc_long_prefix() + s.skip(1)
    } else {
        long_prefix() + s
    }
}

/// The normalized form handed to the OS calls: the rewriting, with a
/// trailing separator appended if it produced a bare drive root.
pub open spec fn win_normalized(s: Seq<u8>) -> Seq<u8> {
    if is_bare_drive_root(rewritten(s)) {
        rewritten(s).push(92u8)
    } else {
        rewritten(s)
    }
}

/// Every byte is ASCII and none is a nul.
pub open spec fn ascii_no_nul(s: Seq<u8>) -> bool {
    forall|i: int| 0 <= i < s.len() ==> 1 <= s[i] && s[i] <= 127
}

/// A UTF-8 continuation byte.
pub open spec fn utf8_cont(b: u8) -> bool {
    0x80 <= b && b <= 0xBF
}

/// The bytes are well-formed UTF-8: each scalar value is encoded in its
/// shortest form, surrogates and values past the last code point are
/// excluded (the byte-class table of RFC 3629).
pub open spec fn is_utf8(s: Seq<u8>) -> bool
    decreases s.len(),
{
    if s.len() == 0 {
        true
    } else {
        let b0 = s[0];
        if b0 <= 0x7F {
            is_utf8(s.skip(1))
        } else if 0xC2 <= b0 && b0 <= 0xDF {
            s.len() >= 2 && utf8_cont(s[1]) && is_utf8(s.skip(2))
        } else if b0 == 0xE0 {
            s.len() >= 3 && 0xA0 <= s[1] && s[1] <= 0xBF && utf8_cont(s[2]) && is_utf8(s.skip(3))
        } else if (0xE1 <= b0 && b0 <= 0xEC) || b0 == 0xEE || b0 == 0xEF {
            s.len() >= 3 && utf8_cont(s[1]) && utf8_cont(s[2]) && is_utf8(s.skip(3))
        } else if b0 == 0xED {
            s.len() >= 3 && 0x80 <= s[1] && s[1] <= 0x9F && utf8_cont(s[2]) && is_utf8(s.skip(3))
        } else if b0 == 0xF0 {
            s.len() >= 4 && 0x90 <= s[1] && s[1] <= 0xBF && utf8_cont(s[2]) && utf8_cont(s[3])
                && is_utf8(s.skip(4))
        } else if 0xF1 <= b0 && b0 <= 0xF3 {
            s.len() >= 4 && utf8_cont(s[1]) && utf8_cont(s[2]) && utf8_cont(s[3]) && is_utf8(
                s.skip(4),
            )
        } else if b0 == 0xF4 {
            s.len() >= 4 && 0x80 <= s[1] && s[1] <= 0x8F && utf8_cont(s[2]) && utf8_cont(s[3])
                && is_utf8(s.skip(4))
        } else {
            false
        }
    }
}

/// No nul byte stands anywhere but the final position (a final nul is the
/// conventional terminator and is accepted by the transcoding).
pub open spec fn no_interior_nul(s: Seq<u8>) -> bool {
    forall|i: int| 0 <= i < s.len() - 1 ==> s[i] != 0
}

/// ASCII bytes without a nul are well-formed UTF-8.
pub proof fn lemma_ascii_is_utf8(s: Seq<u8>)
    requires
        ascii_no_nul(s),
    ensures
        is_utf8(s),
    decreases s.len(),
{
    if s.len() > 0 {
        assert forall|i: int| 0 <= i < s.skip(1).len() implies 1 <= s.skip(1)[i] && s.skip(1)[i]
            <= 127 by {
            assert(s.skip(1)[i] == s[i + 1]);
        }
        lemma_ascii_is_utf8(s.skip(1));
    }
}

/// Executable long-path rewriting, matching `win_normalized`.
pub fn rewrite_long_path(path: &Vec<u8>) -> (r: Vec<u8>)
    ensures
        r@ == win_normalized(path@),
{
    let mut out: Vec<u8> = Vec::new();
    if path.len() >= 4 && path[0] == 92 && path[1] == 92 && path[2] == 63 && path[3] == 92 {
        let mut i: usize = 0;
        while i < path.len()
            invariant
                i <= path.len(),
                out@ == path@.subrange(0, i as int),
            decreases path.len() - i,
        {
            out.push(path[i]);
            i = i + 1;
        }
        proof {
            assert(out@ =~= rewritten(path@));
        }
    } else if path.len() >= 2 && path[0] == 92 && path[1] == 92 {
        out.push(92);
        out.push(92);
        out.push(63);
        out.push(92);
        out.push(85);
        out.push(78);
        out.push(67);
        let mut i: usize = 1;
        while i < path.len()
            invariant
                1 <= i <= path.len(),
                out@ == unc_long_prefix() + path@.subrange(1, i as int),
            decreases path.len() - i,
        {
            proof {
                assert(out@.push(path@[i as int]) =~= unc_long_prefix() + path@.subrange(
                    1,
                    i + 1 as int,
                ));
            }
            out.push(path[i]);
            i = i + 1;
        }
        proof {
            assert(out@ =~= rewritten(path@));
        }
    } else {
        out.push(92);
        out.push(92);
        out.push(63);
        out.push(92);
        let mut i: usize = 0;
        while i < path.len()
            invariant
                i <= path.len(),
                out@ == long_prefix() + path@.subrange(0, i as int),
            decreases path.len() - i,
        {
            proof {
                assert(out@.push(path@[i as int]) =~= long_prefix() + path@.subrange(
                    0,
                    i + 1 as int,
                ));
            }
            out.push(path[i]);
            i = i + 1;
        }
        proof {
            assert(out@ =~= rewritten(path@));
        }
    }
    let bare_root = out.len() == 6 && out[0] == 92 && out[1] == 92 && out[2] == 63 && out[3] == 92
        && ((65 <= out[4] && out[4] <= 90) || (97 <= out[4] && out[4] <= 122)) && out[5] == 58;
    if bare_root {
        out.push(92);
    }
    out
}

/// The UTF-16 code units that encode the characters of a UTF-8 byte
/// sequence, without a terminator.
pub uninterp spec fn utf16_of_utf8(bytes: Seq<u8>) -> Seq<u16>;

/// Relies on widestring::U16CString::from_str, applied to the UTF-8
/// decoding of the bytes (String::from_utf8): the result is the UTF-16
/// encoding of the characters, a function of the bytes alone. The decoding
/// succeeds exactly on well-formed UTF-8, and from_str fails exactly on a
/// nul anywhere but the final position (a final nul is taken as the
/// terminator, which the result strips). ASCII bytes without a nul thus
/// always convert, each to the code unit of the same value.
#[verifier::external_body]
fn utf8_to_wide(bytes: Vec<u8>) -> (r: Result<Vec<u16>, ()>)
    ensures
        (r is Ok) <==> (is_utf8(bytes@) && no_interior_nul(bytes@)),
        r matches Ok(w) ==> w@ == utf16_of_utf8(bytes@),
        ascii_no_nul(bytes@) ==> (r matches Ok(w) ==> (w@.len() == bytes@.len() && forall|i: int|
            0 <= i < w@.len() ==> w@[i] == bytes@[i] as u16)),
{
    match String::from_utf8(bytes) {
        Ok(s) => match widestring::U16CString::from_str(&s) {
            Ok(w) => Ok(w.into_vec()),
            Err(_) => Err(()),
        },
        Err(_) => Err(()),
    }
}

/// Normalization preserves ASCII-without-nul: the spliced prefixes hold
/// only ASCII bytes and every other byte comes from the input.
pub proof fn lemma_normalized_ascii(s: Seq<u8>)
    requires
        ascii_no_nul(s),
    ensures
        ascii_no_nul(win_normalized(s)),
{
    assert forall|i: int| 0 <= i < rewritten(s).len() implies 1 <= rewritten(s)[i] && rewritten(
        s,
    )[i] <= 127 by {
        if is_long_form(s) {
        } else if is_unc_form(s) {
            if i >= 7 {
                assert(rewritten(s)[i] == s[i - 6]);
            }
        } else {
            if i >= 4 {
                assert(rewritten(s)[i] == s[i - 4]);
            }
        }
    }
}

/// The normalized path the statistics call receives: the raw path checked
/// non-empty, rewritten to long form, and transcoded to UTF-16.
///
/// The result is `InvalidPath` on the empty path and on it alone;
/// `PathConversionFailed` exactly when the normalized path is not
/// well-formed UTF-8 or holds an interior nul; otherwise the UTF-16
/// encoding of the normalized path. A non-empty path of ASCII bytes
/// without a nul always converts.
pub fn prepare_windows_path(path: &Vec<u8>) -> (r: Result<Vec<u16>, QueryError>)
    ensures
        path@.len() == 0 <==> (r matches Err(e) && e is InvalidPath),
        r matches Ok(w) ==> w@ == utf16_of_utf8(win_normalized(path@)),
        r matches Err(e) ==> (e is InvalidPath || e is PathConversionFailed),
        path@.len() > 0 ==> (r is Ok <==> is_utf8(win_normalized(path@)) && no_interior_nul(
            win_normalized(path@),
        )),
        path@.len() > 0 && ascii_no_nul(path@) ==> r is Ok,
{
    if path.len() == 0 {
        return Err(QueryError::InvalidPath);
    }
    proof {
        if ascii_no_nul(path@) {
            lemma_normalized_ascii(path@);
            lemma_ascii_is_utf8(win_normalized(path@));
        }
    }
    let rewritten_path = rewrite_long_path(path);
    match utf8_to_wide(rewritten_path) {
        Ok(w) => Ok(w),
        Err(()) => Err(QueryError::PathConversionFailed),
    }
}

/// The directory bit of the Windows file-attribute word.
pub open spec fn attrs_are_directory(attrs: u32) -> bool {
    attrs & 0x10 != 0
}

/// Classifies the outcome of the Windows attribute query, which the
/// embedding layer performs and hands back raw: a failed query (the API
/// reported no attributes) becomes `OsApiFailed` carrying the last-error
/// detail — an existence-check failure is distinct from a wrong file type —
/// and attributes without the directory bit become `NotDirectory` with no
/// detail.
pub fn windows_directory_gate(attrs: Result<u32, ErrorDetail>) -> (r: Result<(), QueryError>)
    ensures
        attrs matches Ok(a) && attrs_are_directory(a) ==> r is Ok,
        attrs matches Ok(a) && !attrs_are_directory(a) ==> r == Err::<(), QueryError>(
            QueryError::NotDirectory(None),
        ),
        attrs matches Err(d) ==> (r matches Err(QueryError::OsApiFailed(dd)) && dd == d),
{
    match attrs {
        Ok(a) => {
            if a & 0x10 != 0 {
                Ok(())
            } else {
                Err(QueryError::NotDirectory(None))
            }
        },
        Err(d) => Err(QueryError::OsApiFailed(d)),
    }
}

/// Converts the outcome of the Windows free-space call, which the
/// embedding layer performs and hands back raw as `(available, total,
/// free)` byte counts: `used` is derived with saturating subtraction, and
/// a failure becomes `OsApiFailed` carrying the last-error detail.
pub fn windows_stats_outcome(raw: Result<(u64, u64, u64), ErrorDetail>) -> (r: Result<
    VolumeStats,
    QueryError,
>)
    ensures
        raw matches Ok(t) ==> (r matches Ok(s) && s.available == t.0 && s.total == t.1 && s.free
            == t.2 && s.used == sat_sub_u64(t.1, t.2) && s.wf()),
        raw matches Err(d) ==> (r matches Err(QueryError::OsApiFailed(dd)) && dd == d),
{
    match raw {
        Ok((available, total, free)) => Ok(VolumeStats::from_bytes(available, free, total)),
        Err(d) => Err(QueryError::OsApiFailed(d)),
    }
}

/// A path in neither long nor UNC form is rewritten to `\\?\` followed by
/// the path itself (with a separator appended if that made a bare drive
/// root).
pub proof fn lemma_regular_path_prefixed(s: Seq<u8>)
    requires
        !is_long_form(s),
        !is_unc_form(s),
    ensures
        win_normalized(s).len() >= 4 + s.len(),
        win_normalized(s).subrange(0, 4) == long_prefix(),
        win_normalized(s).subrange(4, 4 + s.len() as int) == s,
{
    assert(win_normalized(s).subrange(0, 4) =~= long_prefix());
    assert(win_normalized(s).subrange(4, 4 + s.len() as int) =~= s);
}

/// A UNC path `\\server\share\...` is rewritten to `\\?\UNC\server\...`:
/// the long UNC prefix followed by the path from its second byte on.
pub proof fn lemma_unc_path_prefixed(s: Seq<u8>)
    requires
        is_unc_form(s),
    ensures
        win_normalized(s) == unc_long_prefix() + s.skip(1),
        win_normalized(s).len() >= 8,
        win_normalized(s).subrange(0, 7) == unc_long_prefix(),
        win_normalized(s)[7] == 92,
{
    assert(!is_bare_drive_root(rewritten(s))) by {
        assert(rewritten(s).len() == 7 + s.len() - 1);
    }
    assert(win_normalized(s).subrange(0, 7) =~= unc_long_prefix());
    assert(win_normalized(s)[7] == s.skip(1)[0]);
}

/// A bare long-form drive root `\\?\C:` gains exactly a trailing
/// separator.
pub proof fn lemma_bare_drive_root_separator(s: Seq<u8>)
    requires
        is_bare_drive_root(s),
    ensures
        win_normalized(s) == s.push(92u8),
{
}

/// A long-form path that is not a bare drive root is kept unchanged.
pub proof fn lemma_long_form_kept(s: Seq<u8>)
    requires
        is_long_form(s),
        !is_bare_drive_root(s),
    ensures
        win_normalized(s) == s,
{
}

/// Every normalized non-empty path is in long form.
pub proof fn lemma_normalized_long_form(s: Seq<u8>)
    requires
        s.len() > 0,
    ensures
        is_long_form(win_normalized(s)),
{
}

/// Normalization is idempotent: a normalized path is left unchanged by a
/// second normalization.
pub proof fn lemma_normalized_fixed_point(s: Seq<u8>)
    requires
        s.len() > 0,
    ensures
        win_normalized(win_normalized(s)) == win_normalized(s),
{
    lemma_normalized_long_form(s);
    assert(!is_bare_drive_root(win_normalized(s)));
}

} // verus!
