//! Update verdicts: what the lookups against remote version sources mean
//! for the versions in use. The lookups themselves are made by the caller;
//! each one that fails leaves its verdict undetermined.
use vstd::prelude::*;
use vstd::string::StringExecFns;
use crate::text::{char_text, chars_of, contains, contains_chars};
use crate::version::{compare_versions, is_newer_version};

verus! {

/// The verdict from a looked-up latest version: undetermined when none was
/// found, else whether it is newer than `current`.
pub open spec fn verdict_of(current: Seq<char>, latest: Option<Seq<char>>) -> Option<bool> {
    match latest {
        Some(l) => Some(is_newer_version(current, l)),
        None => None,
    }
}

/// The release line whose installs are known to have a newer release.
pub open spec fn known_outdated_prefix() -> Seq<char> {
    "4.42.0"@
}

/// The desktop verdict when its update endpoint gave no answer: the
/// installer's version header decides if it was read; a download page
/// that mentions versions leaves it undetermined; else an install of the
/// known outdated line has an update.
pub open spec fn fallback_verdict_of(
    current: Seq<char>,
    installer: Option<bool>,
    page_mentions_version: bool,
) -> Option<bool> {
    if installer is Some {
        installer
    } else if page_mentions_version {
        None
    } else if current.len() >= known_outdated_prefix().len() && current.take(
        known_outdated_prefix().len() as int,
    ) == known_outdated_prefix() {
        Some(true)
    } else {
        None
    }
}

/// At most the first `n` dot-separated components of `s`, with the dots
/// between them.
pub open spec fn keep_components(s: Seq<char>, n: nat) -> Seq<char>
    decreases s.len(),
{
    if s.len() == 0 || n == 0 {
        Seq::<char>::empty()
    } else if s[0] == '.' {
        if n <= 1 {
            Seq::<char>::empty()
        } else {
            seq!['.'] + keep_components(s.drop_first(), (n - 1) as nat)
        }
    } else {
        seq![s[0]] + keep_components(s.drop_first(), n)
    }
}

/// Whether a download page's text mentions a version or a download, in
/// which case guessing a verdict from the version in use is not attempted.
pub fn page_mentions_version(html: &str) -> (r: bool)
    ensures
        r == (contains(html@, "version"@) || contains(html@, "download"@)),
{
    let text = chars_of(html);
    contains_chars(&text, &chars_of("version")) || contains_chars(&text, &chars_of("download"))
}

/// The verdict from a looked-up latest version.
pub fn verdict_from_latest(current: &str, latest: Option<&str>) -> (r: Option<bool>)
    ensures
        r == verdict_of(
            current@,
            match latest {
                Some(l) => Some(l@),
                None => None,
            },
        ),
{
    match latest {
        Some(l) => Some(compare_versions(current, l)),
        None => None,
    }
}

/// Whether `s` begins with `prefix`.
pub fn starts_with_text(s: &str, prefix: &str) -> (r: bool)
    ensures
        r == (s@.len() >= prefix@.len() && s@.take(prefix@.len() as int) == prefix@),
{
    let a = chars_of(s);
    let b = chars_of(prefix);
    if a.len() < b.len() {
        return false;
    }
    let mut i: usize = 0;
    while i < b.len()
        invariant
            a@ == s@,
            b@ == prefix@,
            b@.len() <= a@.len(),
            0 <= i <= b@.len(),
            forall|k: int| 0 <= k < i ==> a@[k] == b@[k],
        decreases b@.len() - i,
    {
        if a[i] != b[i] {
            assert(s@.take(prefix@.len() as int)[i as int] != prefix@[i as int]);
            return false;
        }
        i = i + 1;
    }
    assert(s@.take(prefix@.len() as int) =~= prefix@);
    true
}

/// The desktop verdict when its update endpoint gave no answer.
pub fn fallback_verdict(
    current: &str,
    installer: Option<bool>,
    page_mentions_version: bool,
) -> (r: Option<bool>)
    ensures
        r == fallback_verdict_of(current@, installer, page_mentions_version),
{
    if installer.is_some() {
        installer
    } else if page_mentions_version {
        None
    } else if starts_with_text(current, "4.42.0") {
        Some(true)
    } else {
        None
    }
}

/// A version reduced to its first three components (major, minor, patch),
/// as installers that pad with further components report it.
pub fn normalize_desktop_version(raw: &str) -> (r: String)
    ensures
        r@ == keep_components(raw@, 3),
{
    let v = chars_of(raw);
    let mut out = String::new();
    let mut left: u64 = 3;
    let mut i: usize = 0;
    assert(raw@.subrange(0, raw@.len() as int) =~= raw@);
    assert(out@ + keep_components(raw@, 3) =~= keep_components(raw@, 3));
    while i < v.len()
        invariant
            v@ == raw@,
            0 <= i <= v@.len(),
            1 <= left <= 3,
            keep_components(raw@, 3) == out@ + keep_components(
                raw@.subrange(i as int, raw@.len() as int),
                left as nat,
            ),
        decreases v@.len() - i,
    {
        let c = v[i];
        let ghost rest = raw@.subrange(i as int, raw@.len() as int);
        assert(rest.drop_first() =~= raw@.subrange(i as int + 1, raw@.len() as int));
        assert(rest[0] == c);
        if c == '.' {
            if left <= 1 {
                return out;
            }
            left = left - 1;
        }
        let ghost before = out@;
        out.append(char_text(c).as_str());
        assert(out@ =~= before + seq![c]);
        i = i + 1;
    }
    assert(raw@.subrange(i as int, raw@.len() as int) =~= Seq::<char>::empty());
    out
}

} // verus!
