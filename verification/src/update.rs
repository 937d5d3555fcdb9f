//! The update check's decision logic: the latest release tag is read off
//! the releases redirect URL and compared with the running version.  The
//! surrounding process performs the HTTPS request and hands the final URL
//! in; any failure there is equivalent to "no update found".

use vstd::prelude::*;
use vstd::string::StrSliceExecFns;
use vstd::string::StringExecFns;

use crate::codec::prefix_len;
use crate::consts::GITHUB_REPO_URL;
use crate::text::str_eq;

verus! {

/// A discovered newer release.
#[derive(Debug, Clone)]
pub struct UpdateInfo {
    /// The newer version, without its leading `v`.
    pub latest_version: String,
    /// The release page the redirect ended at.
    pub release_url: String,
}

/// Whether `latest` names a strictly newer semantic version than `current`;
/// nothing when either fails to parse.
pub uninterp spec fn spec_version_newer(latest: Seq<char>, current: Seq<char>) -> Option<bool>;

/// Compares two version strings as semantic versions.
///
/// Relies on `semver::Version::parse` and `Version`'s ordering: the outcome
/// depends on the two strings alone; a parse failure becomes `None`.
#[verifier::external_body]
fn version_newer(latest: &str, current: &str) -> (r: Option<bool>)
    ensures
        r == spec_version_newer(latest@, current@),
{
    match (semver::Version::parse(latest), semver::Version::parse(current)) {
        (Ok(l), Ok(c)) => Some(l > c),
        _ => None,
    }
}

/// The predicate of the letter `v`, as a first-class function.
pub open spec fn v_pred() -> spec_fn(char) -> bool {
    |c: char| c == 'v'
}

/// What stands after the last slash of `s`; all of `s` when it has none.
pub open spec fn spec_after_last_slash(s: Seq<char>) -> Seq<char> {
    if exists|i: int| 0 <= i < s.len() && s[i] == '/' {
        let i = choose|i: int|
            0 <= i < s.len() && s[i] == '/' && forall|j: int| i < j < s.len() ==> s[j] != '/';
        s.subrange(i + 1, s.len() as int)
    } else {
        s
    }
}

/// The release tag a redirect URL carries: what stands after its last
/// slash, with every leading `v` removed.
pub open spec fn spec_latest_tag(url: Seq<char>) -> Seq<char> {
    let tag = spec_after_last_slash(url);
    tag.subrange(prefix_len(tag, v_pred()) as int, tag.len() as int)
}

/// The position of the last `/` in `s`, if any.
fn rfind_slash(s: &str) -> (r: Option<usize>)
    ensures
        r matches Some(i) ==> i < s@.len() && s@[i as int] == '/' && forall|j: int|
            i < j < s@.len() ==> s@[j] != '/',
        r is None ==> forall|j: int| 0 <= j < s@.len() ==> s@[j] != '/',
{
    let n = s.unicode_len();
    let mut i: usize = n;
    while i > 0
        invariant
            n == s@.len(),
            0 <= i <= n,
            forall|j: int| i <= j < n ==> s@[j] != '/',
        decreases i,
    {
        i = i - 1;
        if s.get_char(i) == '/' {
            return Option::Some(i);
        }
    }
    Option::None
}

/// Reads the release tag out of a redirect URL.
fn extract_latest_tag(release_url: &str) -> (r: String)
    ensures
        r@ == spec_latest_tag(release_url@),
{
    let n = release_url.unicode_len();
    let start: usize = match rfind_slash(release_url) {
        Option::Some(i) => {
            proof {
                let w = choose|w: int|
                    0 <= w < release_url@.len() && release_url@[w] == '/' && forall|j: int|
                        w < j < release_url@.len() ==> release_url@[j] != '/';
                if w < i {
                    assert(release_url@[i as int] != '/');
                }
                if i < w {
                    assert(release_url@[w] != '/');
                }
                assert(w == i);
            }
            i + 1
        },
        Option::None => 0,
    };
    let ghost tag = spec_after_last_slash(release_url@);
    proof {
        assert(tag =~= release_url@.subrange(start as int, n as int));
    }
    let mut i: usize = start;
    loop
        invariant_except_break
            start <= i <= n,
            n == release_url@.len(),
            forall|j: int| start <= j < i ==> release_url@[j] == 'v',
        ensures
            start <= i <= n,
            forall|j: int| start <= j < i ==> release_url@[j] == 'v',
            i == n || release_url@[i as int] != 'v',
        decreases n - i,
    {
        if i >= n {
            break ;
        }
        if release_url.get_char(i) != 'v' {
            break ;
        }
        i = i + 1;
    }
    proof {
        assert forall|j: int| 0 <= j < i - start implies v_pred()(#[trigger] tag[j]) by {
            assert(tag[j] == release_url@[start + j]);
        }
        if i - start < tag.len() {
            assert(tag[i - start] == release_url@[i as int]);
        }
        crate::codec::lemma_prefix_len_is(tag, v_pred(), i - start);
        assert(release_url@.subrange(i as int, n as int) =~= tag.subrange(
            i - start,
            tag.len() as int,
        ));
    }
    release_url.substring_char(i, n).to_owned()
}

/// Decides whether a newer release is available, given the running version
/// and the URL the releases redirect ended at.  A development build never
/// updates; an unparsable or not-newer tag means no update.
pub fn check(current_version: &str, release_url: &str) -> (r: Option<UpdateInfo>)
    ensures
        r is Some <==> (current_version@ != "0.0.0-development"@ && spec_version_newer(
            spec_latest_tag(release_url@),
            current_version@,
        ) == Some(true)),
        r matches Some(u) ==> u.latest_version@ == spec_latest_tag(release_url@) && u.release_url@
            == release_url@,
{
    if str_eq(current_version, "0.0.0-development") {
        return Option::None;
    }
    let tag = extract_latest_tag(release_url);
    match version_newer(tag.as_str(), current_version) {
        Option::Some(true) => Option::Some(
            UpdateInfo { latest_version: tag, release_url: release_url.to_owned() },
        ),
        _ => Option::None,
    }
}

/// The platform installer's download URL for a discovered release.
pub fn get_download_url(info: &UpdateInfo) -> (r: String)
    ensures
        r@ == GITHUB_REPO_URL@ + "/releases/download/v"@ + info.latest_version@
            + "/Clipboard.Sync-"@ + info.latest_version@ + ".Setup.exe"@,
{
    let mut out = String::new();
    out.append(GITHUB_REPO_URL);
    out.append("/releases/download/v");
    out.append(info.latest_version.as_str());
    out.append("/Clipboard.Sync-");
    out.append(info.latest_version.as_str());
    out.append(".Setup.exe");
    out
}

} // verus!
