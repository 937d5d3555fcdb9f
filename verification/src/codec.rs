//! The filename wire protocol: artifacts are exchanged as files named
//! `{beat}-{hostname}.{suffix}` where the suffix is exactly one of
//! `text.json`, `png`, or `{count}_files`.  This module encodes artifact
//! names, decodes arbitrary file names against that exact grammar, and
//! reduces a path inside the sync folder to the artifact it belongs to.

use vstd::prelude::*;
use vstd::string::StrSliceExecFns;
use vstd::string::StringExecFns;

use crate::text::{
    dec_repr, dec_value, is_digit_char, is_host_char, lemma_dec_repr_digits,
    lemma_dec_value_of_repr, parse_decimal_u64, push_char, push_decimal, spec_ends_with,
    spec_starts_with, str_ends_with, str_eq, str_eq_from, str_starts_with, u64_to_string,
};
use crate::types::{ClipboardContentType, ClipboardOrigin, ParsedClipboardFile};

verus! {

broadcast use vstd::string::group_string_axioms;

/// Current wall-clock time in milliseconds since the Unix epoch.
///
/// Relies on `std`'s `SystemTime::now`; the result depends on the system
/// clock, so nothing is promised of it.
#[verifier::external_body]
pub fn now_ms() -> u64 {
    std::time::SystemTime::now().duration_since(std::time::UNIX_EPOCH).map(
        |d| d.as_millis() as u64,
    ).unwrap_or(0)
}

/// A path separator, on either family of platforms.
pub open spec fn is_sep_char(c: char) -> bool {
    c == '/' || c == '\\'
}

/// The predicate of decimal digit characters, as a first-class function.
pub open spec fn digit_pred() -> spec_fn(char) -> bool {
    |c: char| is_digit_char(c)
}

/// The predicate of hostname characters, as a first-class function.
pub open spec fn host_pred() -> spec_fn(char) -> bool {
    |c: char| is_host_char(c)
}

/// The predicate of path separators, as a first-class function.
pub open spec fn sep_pred() -> spec_fn(char) -> bool {
    |c: char| is_sep_char(c)
}

/// The predicate of non-separator characters, as a first-class function.
pub open spec fn non_sep_pred() -> spec_fn(char) -> bool {
    |c: char| !is_sep_char(c)
}

/// The length of the longest prefix of `s` whose characters all satisfy
/// `pred`.
pub open spec fn prefix_len(s: Seq<char>, pred: spec_fn(char) -> bool) -> nat
    decreases s.len(),
{
    if s.len() == 0 || !pred(s[0]) {
        0
    } else {
        1 + prefix_len(s.drop_first(), pred)
    }
}

/// What `prefix_len` returns: a position within the sequence, all characters
/// before it satisfying the predicate and the one at it (if any) failing it.
pub proof fn lemma_prefix_len_bounds(s: Seq<char>, pred: spec_fn(char) -> bool)
    ensures
        prefix_len(s, pred) <= s.len(),
        forall|i: int| 0 <= i < prefix_len(s, pred) ==> pred(#[trigger] s[i]),
        prefix_len(s, pred) < s.len() ==> !pred(s[prefix_len(s, pred) as int]),
    decreases s.len(),
{
    if s.len() > 0 && pred(s[0]) {
        lemma_prefix_len_bounds(s.drop_first(), pred);
        assert forall|i: int| 0 <= i < prefix_len(s, pred) implies pred(#[trigger] s[i]) by {
            if i > 0 {
                assert(pred(s.drop_first()[i - 1]));
            }
        }
        if prefix_len(s, pred) < s.len() {
            assert(!pred(s.drop_first()[prefix_len(s, pred) - 1]));
        }
    }
}

/// Any position with those three properties is `prefix_len`.
pub proof fn lemma_prefix_len_is(s: Seq<char>, pred: spec_fn(char) -> bool, k: int)
    requires
        0 <= k <= s.len(),
        forall|i: int| 0 <= i < k ==> pred(#[trigger] s[i]),
        k < s.len() ==> !pred(s[k]),
    ensures
        prefix_len(s, pred) == k,
    decreases s.len(),
{
    if k > 0 {
        assert(pred(s[0]));
        assert forall|i: int| 0 <= i < k - 1 implies pred(#[trigger] s.drop_first()[i]) by {
            assert(pred(s[i + 1]));
        }
        if k - 1 < s.drop_first().len() {
            assert(s.drop_first()[k - 1] == s[k]);
        }
        lemma_prefix_len_is(s.drop_first(), pred, k - 1);
    }
}

/// The fields read out of an artifact file name, at the specification level.
pub struct SpecParsedName {
    /// The logical timestamp before the hyphen.
    pub beat: nat,
    /// The hostname between the hyphen and the first dot.
    pub host: Seq<char>,
    /// The content kind the suffix denotes.
    pub kind: ClipboardContentType,
    /// The file count of a `_files` suffix; zero for the other kinds.
    pub count: nat,
}

/// Parses a file name against the artifact grammar
/// `^([1-9][0-9]*)-([0-9a-zA-Z-]+)\.((text\.json)|png|([1-9][0-9]*)_files)$`.
/// Any string that does not match yields `None`.
pub open spec fn spec_parse_name(s: Seq<char>) -> Option<SpecParsedName> {
    let k = prefix_len(s, digit_pred()) as int;
    if k == 0 || s[0] == '0' || k >= s.len() || s[k] != '-' {
        Option::None
    } else {
        let rest = s.subrange(k + 1, s.len() as int);
        let h = prefix_len(rest, host_pred()) as int;
        if h == 0 || h >= rest.len() || rest[h] != '.' {
            Option::None
        } else {
            let beat = dec_value(s.subrange(0, k));
            let host = rest.subrange(0, h);
            let suffix = rest.subrange(h + 1, rest.len() as int);
            if suffix == "text.json"@ {
                Option::Some(
                    SpecParsedName { beat, host, kind: ClipboardContentType::Text, count: 0 },
                )
            } else if suffix == "png"@ {
                Option::Some(
                    SpecParsedName { beat, host, kind: ClipboardContentType::Image, count: 0 },
                )
            } else {
                let d = prefix_len(suffix, digit_pred()) as int;
                if d == 0 || suffix[0] == '0' || suffix.subrange(d, suffix.len() as int)
                    != "_files"@ {
                    Option::None
                } else {
                    Option::Some(
                        SpecParsedName {
                            beat,
                            host,
                            kind: ClipboardContentType::Files,
                            count: dec_value(suffix.subrange(0, d)),
                        },
                    )
                }
            }
        }
    }
}

/// Whether a parse of `s` yields values that fit the machine types: the beat
/// in a `u64` and the file count in a `u32`.
pub open spec fn spec_parse_fits(s: Seq<char>) -> bool {
    match spec_parse_name(s) {
        Option::None => false,
        Option::Some(p) => p.beat <= u64::MAX && p.count <= u32::MAX,
    }
}

/// An artifact file name decoded into machine values.
pub struct DecodedName {
    /// The logical timestamp before the hyphen.
    pub beat: u64,
    /// The hostname between the hyphen and the first dot.
    pub hostname: String,
    /// The content kind the suffix denotes.
    pub content_type: ClipboardContentType,
    /// The file count of a `_files` suffix; absent for the other kinds.
    pub files_count: Option<u32>,
}

/// What a decoded name holds, relative to the specification parse.
pub open spec fn decoded_matches(d: DecodedName, p: SpecParsedName) -> bool {
    &&& d.beat == p.beat
    &&& d.hostname@ == p.host
    &&& d.content_type == p.kind
    &&& (p.kind == ClipboardContentType::Files ==> (d.files_count matches Some(c) && c
        == p.count))
    &&& (p.kind != ClipboardContentType::Files ==> d.files_count is None)
}

/// The longest digit run of `s` starting at `from`, as an end position.
fn scan_digits(s: &str, from: usize) -> (r: usize)
    requires
        from <= s@.len(),
    ensures
        from <= r <= s@.len(),
        r - from == prefix_len(s@.subrange(from as int, s@.len() as int), digit_pred()),
{
    let slen = s.unicode_len();
    let mut i: usize = from;
    loop
        invariant_except_break
            from <= i <= slen,
            slen == s@.len(),
            forall|j: int| from <= j < i ==> is_digit_char(#[trigger] s@[j]),
        ensures
            from <= i <= slen,
            slen == s@.len(),
            forall|j: int| from <= j < i ==> is_digit_char(#[trigger] s@[j]),
            i == slen || !is_digit_char(s@[i as int]),
        decreases slen - i,
    {
        if i >= slen {
            break ;
        }
        let c = s.get_char(i);
        let u = c as u32;
        if !(48 <= u && u <= 57) {
            break ;
        }
        i = i + 1;
    }
    proof {
        let sub = s@.subrange(from as int, s@.len() as int);
        assert forall|j: int| 0 <= j < i - from implies digit_pred()(#[trigger] sub[j]) by {
            assert(sub[j] == s@[from + j]);
        }
        if i - from < sub.len() {
            assert(sub[i - from] == s@[i as int]);
        }
        lemma_prefix_len_is(sub, digit_pred(), i - from);
    }
    i
}

/// The longest hostname-character run of `s` starting at `from`, as an end
/// position.
fn scan_host_chars(s: &str, from: usize) -> (r: usize)
    requires
        from <= s@.len(),
    ensures
        from <= r <= s@.len(),
        r - from == prefix_len(s@.subrange(from as int, s@.len() as int), host_pred()),
{
    let slen = s.unicode_len();
    let mut i: usize = from;
    loop
        invariant_except_break
            from <= i <= slen,
            slen == s@.len(),
            forall|j: int| from <= j < i ==> is_host_char(#[trigger] s@[j]),
        ensures
            from <= i <= slen,
            slen == s@.len(),
            forall|j: int| from <= j < i ==> is_host_char(#[trigger] s@[j]),
            i == slen || !is_host_char(s@[i as int]),
        decreases slen - i,
    {
        if i >= slen {
            break ;
        }
        let c = s.get_char(i);
        let u = c as u32;
        if !(48 <= u && u <= 57 || 97 <= u && u <= 122 || 65 <= u && u <= 90 || c == '-') {
            break ;
        }
        i = i + 1;
    }
    proof {
        let sub = s@.subrange(from as int, s@.len() as int);
        assert forall|j: int| 0 <= j < i - from implies host_pred()(#[trigger] sub[j]) by {
            assert(sub[j] == s@[from + j]);
        }
        if i - from < sub.len() {
            assert(sub[i - from] == s@[i as int]);
        }
        lemma_prefix_len_is(sub, host_pred(), i - from);
    }
    i
}

/// Decodes a bare file name against the artifact grammar.  Returns `None`
/// exactly when the name does not match the grammar or a numeric field does
/// not fit its machine type.
#[verifier::rlimit(100)]
pub fn decode_file_name(name: &str) -> (r: Option<DecodedName>)
    ensures
        r is Some <==> spec_parse_fits(name@),
        r matches Some(d) ==> decoded_matches(d, spec_parse_name(name@)->Some_0),
{
    let slen = name.unicode_len();
    let k = scan_digits(name, 0);
    proof {
        assert(name@.subrange(0, slen as int) =~= name@);
    }
    if k == 0 {
        return Option::None;
    }
    if name.get_char(0) == '0' {
        return Option::None;
    }
    if k >= slen || name.get_char(k) != '-' {
        return Option::None;
    }
    let ghost rest = name@.subrange(k + 1, slen as int);
    let h_end = scan_host_chars(name, k + 1);
    proof {
        let sub = name@.subrange(k + 1, slen as int);
        assert(sub =~= rest);
    }
    let ghost h = h_end - (k + 1);
    if h_end == k + 1 {
        return Option::None;
    }
    if h_end >= slen || name.get_char(h_end) != '.' {
        proof {
            if h_end < slen {
                assert(rest[h as int] == name@[h_end as int]);
            }
        }
        return Option::None;
    }
    proof {
        assert(rest[h as int] == name@[h_end as int]);
    }
    let ghost suffix = rest.subrange(h + 1, rest.len() as int);
    proof {
        assert(suffix =~= name@.subrange(h_end + 1, slen as int));
    }
    let suffix_start = h_end + 1;
    let suffix_len = slen - suffix_start;

    proof {
        lemma_prefix_len_bounds(name@, digit_pred());
        assert forall|i: int| 0 <= i < k implies is_digit_char(#[trigger] name@[i]) by {
            assert(digit_pred()(name@[i]));
        }
    }
    let beat = match parse_decimal_u64(name, 0, k) {
        Option::Some(b) => b,
        Option::None => {
            return Option::None;
        },
    };
    let hostname = name.substring_char(k + 1, h_end).to_owned();
    proof {
        assert(rest.subrange(0, h as int) =~= name@.subrange(k + 1, h_end as int));
    }

    // "text.json"
    proof {
        reveal_strlit("text.json");
        reveal_strlit("png");
        reveal_strlit("_files");
    }
    if suffix_len == 9 && str_eq_from(name, suffix_start, "text.json") {
        proof {
            assert(suffix =~= "text.json"@);
        }
        return Option::Some(
            DecodedName {
                beat,
                hostname,
                content_type: ClipboardContentType::Text,
                files_count: Option::None,
            },
        );
    }
    if suffix_len == 3 && str_eq_from(name, suffix_start, "png") {
        proof {
            assert(suffix =~= "png"@);
            assert(suffix != "text.json"@);
        }
        return Option::Some(
            DecodedName {
                beat,
                hostname,
                content_type: ClipboardContentType::Image,
                files_count: Option::None,
            },
        );
    }
    proof {
        if suffix == "text.json"@ {
            assert(suffix.len() == 9);
            assert(spec_contains_at_suffix(name@, suffix_start as int, "text.json"@));
        }
        if suffix == "png"@ {
            assert(suffix.len() == 3);
            assert(spec_contains_at_suffix(name@, suffix_start as int, "png"@));
        }
    }
    // "{count}_files"
    let d_end = scan_digits(name, suffix_start);
    let ghost d = d_end - suffix_start;
    proof {
        let sufsub = name@.subrange(suffix_start as int, slen as int);
        assert(sufsub =~= suffix);
    }
    if d_end == suffix_start {
        return Option::None;
    }
    if name.get_char(suffix_start) == '0' {
        proof {
            assert(suffix[0] == name@[suffix_start as int]);
        }
        return Option::None;
    }
    if slen - d_end != 6 || !str_eq_from(name, d_end, "_files") {
        proof {
            reveal_strlit("_files");
            assert("_files"@.len() == 6);
            if suffix.subrange(d as int, suffix.len() as int) == "_files"@ {
                assert(suffix.len() - d == 6);
                assert(name@.subrange(d_end as int, slen as int) =~= suffix.subrange(
                    d as int,
                    suffix.len() as int,
                ));
            }
        }
        return Option::None;
    }
    proof {
        assert(name@.subrange(d_end as int, slen as int) =~= suffix.subrange(
            d as int,
            suffix.len() as int,
        ));
        assert(suffix.subrange(d as int, suffix.len() as int) == "_files"@);
        assert(suffix[0] == name@[suffix_start as int]);
        assert(name@.subrange(suffix_start as int, d_end as int) =~= suffix.subrange(0, d as int));
    }
    proof {
        let sufsub = name@.subrange(suffix_start as int, slen as int);
        lemma_prefix_len_bounds(sufsub, digit_pred());
        assert forall|i: int| suffix_start <= i < d_end implies is_digit_char(
            #[trigger] name@[i],
        ) by {
            assert(digit_pred()(sufsub[i - suffix_start]));
            assert(sufsub[i - suffix_start] == name@[i]);
        }
    }
    let count64 = match parse_decimal_u64(name, suffix_start, d_end) {
        Option::Some(c) => c,
        Option::None => {
            proof {
                crate::text::lemma_pow10_values();
                crate::text::lemma_dec_value_upper(suffix.subrange(0, d as int));
            }
            return Option::None;
        },
    };
    if count64 > 0xffff_ffff {
        return Option::None;
    }
    Option::Some(
        DecodedName {
            beat,
            hostname,
            content_type: ClipboardContentType::Files,
            files_count: Option::Some(count64 as u32),
        },
    )
}

/// Whether `file` lies under `folder`: it starts with it, and the first
/// character after the prefix (when the prefix does not itself end in a
/// separator) is a separator.
pub open spec fn spec_strip_ok(file: Seq<char>, folder: Seq<char>) -> bool {
    &&& spec_starts_with(file, folder)
    &&& (file.len() > folder.len() && folder.len() > 0 && !is_sep_char(folder.last())
        ==> is_sep_char(file[folder.len() as int]))
}

/// The first path component of `file` below `folder`: what stands between
/// the folder prefix (and any separators) and the next separator.  Empty
/// when there is no component.
pub open spec fn spec_base_name(file: Seq<char>, folder: Seq<char>) -> Seq<char> {
    let rel = file.subrange(folder.len() as int, file.len() as int);
    let skip = prefix_len(rel, sep_pred()) as int;
    let rel2 = rel.subrange(skip, rel.len() as int);
    rel2.subrange(0, prefix_len(rel2, non_sep_pred()) as int)
}

/// `folder` and `base` joined into one path.
pub open spec fn spec_join(folder: Seq<char>, base: Seq<char>) -> Seq<char> {
    if folder.len() == 0 {
        base
    } else if is_sep_char(folder.last()) {
        folder + base
    } else {
        folder + seq!['/'] + base
    }
}

/// The origin of an artifact: this host if the encoded hostname equals the
/// local one, a peer otherwise.
pub open spec fn spec_origin(host: Seq<char>, local: Seq<char>) -> ClipboardOrigin {
    if host == local {
        ClipboardOrigin::Myself
    } else {
        ClipboardOrigin::Others
    }
}

/// A path separator, executably.
fn is_sep_char_e(c: char) -> (r: bool)
    ensures
        r == is_sep_char(c),
{
    c == '/' || c == '\\'
}

/// Everything `parse_clipboard_filename` requires to yield an artifact:
/// the path lies under the folder, has a first component, that component
/// matches the grammar with values in range, and the origin passes the
/// filter.
pub open spec fn spec_parse_accepts(
    file: Seq<char>,
    folder: Seq<char>,
    local: Seq<char>,
    filter: Option<ClipboardOrigin>,
) -> bool {
    &&& spec_strip_ok(file, folder)
    &&& spec_base_name(file, folder).len() > 0
    &&& spec_parse_fits(spec_base_name(file, folder))
    &&& (filter matches Some(f) ==> spec_origin(
        spec_parse_name(spec_base_name(file, folder))->Some_0.host,
        local,
    ) == f)
}

/// What a parsed artifact holds, relative to the specification parse of the
/// base name.
pub open spec fn parsed_file_matches(
    r: ParsedClipboardFile,
    file: Seq<char>,
    folder: Seq<char>,
    local: Seq<char>,
) -> bool {
    let base = spec_base_name(file, folder);
    let sp = spec_parse_name(base)->Some_0;
    &&& r.path@ == spec_join(folder, base)
    &&& r.beat == sp.beat
    &&& r.content_type == sp.kind
    &&& r.origin == spec_origin(sp.host, local)
    &&& (sp.kind == ClipboardContentType::Files ==> (r.files_count matches Some(c) && c
        == sp.count))
    &&& (sp.kind != ClipboardContentType::Files ==> r.files_count is None)
}

/// Parses a path inside the sync folder as an artifact.  Only the first path
/// component below the folder counts, so entries nested inside a `_files`
/// directory are reduced to their containing artifact.  A path that does not
/// denote an artifact of the requested origin yields `None`.
#[verifier::rlimit(100)]
pub fn parse_clipboard_filename(
    file: &str,
    sync_folder: &str,
    hostname: &str,
    filter: Option<ClipboardOrigin>,
) -> (r: Option<ParsedClipboardFile>)
    ensures
        r is Some <==> spec_parse_accepts(file@, sync_folder@, hostname@, filter),
        r matches Some(p) ==> parsed_file_matches(p, file@, sync_folder@, hostname@),
{
    let flen = file.unicode_len();
    let dlen = sync_folder.unicode_len();
    if !str_starts_with(file, sync_folder) {
        return Option::None;
    }
    if flen > dlen && dlen > 0 {
        let last = sync_folder.get_char(dlen - 1);
        proof {
            assert(file@.subrange(0, dlen as int)[dlen - 1] == file@[dlen - 1]);
        }
        if !is_sep_char_e(last) && !is_sep_char_e(file.get_char(dlen)) {
            proof {
                assert(sync_folder@.last() == file@[dlen - 1]);
            }
            return Option::None;
        }
    }
    let ghost rel = file@.subrange(dlen as int, flen as int);
    // Skip the separators after the folder prefix.
    let mut i: usize = dlen;
    loop
        invariant_except_break
            dlen <= i <= flen,
            flen == file@.len(),
            forall|j: int| dlen <= j < i ==> is_sep_char(#[trigger] file@[j]),
        ensures
            dlen <= i <= flen,
            forall|j: int| dlen <= j < i ==> is_sep_char(#[trigger] file@[j]),
            i == flen || !is_sep_char(file@[i as int]),
        decreases flen - i,
    {
        if i >= flen {
            break ;
        }
        if !is_sep_char_e(file.get_char(i)) {
            break ;
        }
        i = i + 1;
    }
    proof {
        assert forall|j: int| 0 <= j < i - dlen implies sep_pred()(#[trigger] rel[j]) by {
            assert(rel[j] == file@[dlen + j]);
        }
        if i - dlen < rel.len() {
            assert(rel[i - dlen] == file@[i as int]);
        }
        lemma_prefix_len_is(rel, sep_pred(), i - dlen);
    }
    let ghost rel2 = rel.subrange(i - dlen, rel.len() as int);
    // Scan the first component.
    let mut j: usize = i;
    loop
        invariant_except_break
            i <= j <= flen,
            flen == file@.len(),
            forall|m: int| i <= m < j ==> !is_sep_char(#[trigger] file@[m]),
        ensures
            i <= j <= flen,
            forall|m: int| i <= m < j ==> !is_sep_char(#[trigger] file@[m]),
            j == flen || is_sep_char(file@[j as int]),
        decreases flen - j,
    {
        if j >= flen {
            break ;
        }
        if is_sep_char_e(file.get_char(j)) {
            break ;
        }
        j = j + 1;
    }
    proof {
        assert forall|m: int| 0 <= m < j - i implies non_sep_pred()(#[trigger] rel2[m]) by {
            assert(rel2[m] == file@[i + m]);
        }
        if j - i < rel2.len() {
            assert(rel2[j - i] == file@[j as int]);
        }
        lemma_prefix_len_is(rel2, non_sep_pred(), j - i);
        assert(spec_base_name(file@, sync_folder@) =~= file@.subrange(i as int, j as int));
    }
    if j == i {
        return Option::None;
    }
    let base = file.substring_char(i, j);
    let decoded = match decode_file_name(base) {
        Option::Some(d) => d,
        Option::None => {
            return Option::None;
        },
    };
    let origin = if str_eq(decoded.hostname.as_str(), hostname) {
        ClipboardOrigin::Myself
    } else {
        ClipboardOrigin::Others
    };
    match filter {
        Option::Some(f) => {
            if origin != f {
                return Option::None;
            }
        },
        Option::None => {},
    }
    let mut path = String::new();
    if dlen == 0 {
        path.append(base);
    } else {
        path.append(sync_folder);
        let last = sync_folder.get_char(dlen - 1);
        if !is_sep_char_e(last) {
            push_char(&mut path, '/');
        }
        path.append(base);
        proof {
            assert(path@ =~= spec_join(sync_folder@, base@));
        }
    }
    proof {
        assert(path@ =~= spec_join(sync_folder@, base@));
    }
    Option::Some(
        ParsedClipboardFile {
            path,
            beat: decoded.beat,
            content_type: decoded.content_type,
            origin,
            files_count: decoded.files_count,
        },
    )
}

/// A presence marker name: anything that ends in the marker suffix.
pub open spec fn spec_is_marker_name(s: Seq<char>) -> bool {
    spec_ends_with(s, ".is-receiving.txt"@)
}

/// Whether a file name is a presence marker ("is-receiving") file.
pub fn is_receiving_file(name: &str) -> (r: bool)
    ensures
        r == spec_is_marker_name(name@),
{
    str_ends_with(name, ".is-receiving.txt")
}

/// `pat` stands at position `i` of `s` and reaches its end.
pub open spec fn spec_contains_at_suffix(s: Seq<char>, i: int, pat: Seq<char>) -> bool {
    i + pat.len() == s.len() && s.subrange(i, s.len() as int) == pat
}

/// A hostname is one or more digits, ASCII letters or hyphens.
pub open spec fn valid_hostname(h: Seq<char>) -> bool {
    h.len() >= 1 && forall|i: int| 0 <= i < h.len() ==> is_host_char(#[trigger] h[i])
}

/// Whether a string can serve as this host's name on the wire: one or more
/// digits, ASCII letters or hyphens.
pub fn is_valid_hostname(hostname: &str) -> (r: bool)
    ensures
        r == valid_hostname(hostname@),
{
    let n = hostname.unicode_len();
    if n == 0 {
        return false;
    }
    let end = scan_host_chars(hostname, 0);
    proof {
        assert(hostname@.subrange(0, n as int) =~= hostname@);
        lemma_prefix_len_bounds(hostname@, host_pred());
        if end == n {
            assert forall|i: int| 0 <= i < hostname@.len() implies is_host_char(
                #[trigger] hostname@[i],
            ) by {
                assert(host_pred()(hostname@[i]));
            }
        }
    }
    end == n
}

/// The suffix that encodes a content kind.
pub open spec fn spec_suffix(kind: ClipboardContentType, count: nat) -> Seq<char> {
    match kind {
        ClipboardContentType::Text => "text.json"@,
        ClipboardContentType::Image => "png"@,
        ClipboardContentType::Files => dec_repr(count) + "_files"@,
    }
}

/// The encoded artifact file name `{beat}-{host}.{suffix}`.
pub open spec fn spec_encode_name(
    beat: nat,
    host: Seq<char>,
    kind: ClipboardContentType,
    count: nat,
) -> Seq<char> {
    dec_repr(beat) + seq!['-'] + host + seq!['.'] + spec_suffix(kind, count)
}

/// Encodes an artifact file name from its fields.
pub fn encode_file_name(
    beat: u64,
    hostname: &str,
    kind: ClipboardContentType,
    files_count: u32,
) -> (r: String)
    requires
        beat >= 1,
        valid_hostname(hostname@),
        kind == ClipboardContentType::Files ==> files_count >= 1,
    ensures
        r@ == spec_encode_name(beat as nat, hostname@, kind, files_count as nat),
{
    let mut out = u64_to_string(beat);
    push_char(&mut out, '-');
    out.append(hostname);
    push_char(&mut out, '.');
    match kind {
        ClipboardContentType::Text => {
            out.append("text.json");
            proof {
                assert(out@ =~= spec_encode_name(beat as nat, hostname@, kind, files_count as nat));
            }
        },
        ClipboardContentType::Image => {
            out.append("png");
            proof {
                assert(out@ =~= spec_encode_name(beat as nat, hostname@, kind, files_count as nat));
            }
        },
        ClipboardContentType::Files => {
            push_decimal(&mut out, files_count as u64);
            out.append("_files");
            proof {
                assert(out@ =~= spec_encode_name(beat as nat, hostname@, kind, files_count as nat));
            }
        },
    }
    out
}

/// Round trip of the codec: decoding an encoded artifact name yields exactly
/// the beat, hostname, kind and file count it was encoded from, for every
/// beat of at least one, every valid hostname, and every kind (with a file
/// count of at least one for a files artifact).
#[verifier::rlimit(100)]
pub proof fn lemma_encode_decode_round_trip(
    beat: nat,
    host: Seq<char>,
    kind: ClipboardContentType,
    count: nat,
)
    requires
        beat >= 1,
        valid_hostname(host),
        kind == ClipboardContentType::Files ==> count >= 1,
    ensures
        spec_parse_name(spec_encode_name(beat, host, kind, count)) matches Some(q) && q.beat == beat
            && q.host == host && q.kind == kind && q.count == (
        if kind == ClipboardContentType::Files {
            count
        } else {
            0
        }),
{
    reveal_strlit("text.json");
    reveal_strlit("png");
    reveal_strlit("_files");
    let s = spec_encode_name(beat, host, kind, count);
    let rb = dec_repr(beat);
    let kb = rb.len() as int;
    let suf = spec_suffix(kind, count);
    lemma_dec_repr_digits(beat);
    lemma_dec_value_of_repr(beat);
    assert(s.len() == kb + 1 + host.len() + 1 + suf.len());
    // The digit prefix is exactly the encoded beat.
    assert forall|i: int| 0 <= i < kb implies digit_pred()(#[trigger] s[i]) by {
        assert(s[i] == rb[i]);
    }
    assert(s[kb] == '-');
    assert(!digit_pred()(s[kb]));
    lemma_prefix_len_is(s, digit_pred(), kb);
    assert(s[0] == rb[0]);
    assert(s[0] != '0');
    assert(s.subrange(0, kb) =~= rb);
    // The hostname run is exactly the encoded hostname.
    let rest = s.subrange(kb + 1, s.len() as int);
    assert(rest =~= host + seq!['.'] + suf);
    assert forall|i: int| 0 <= i < host.len() implies host_pred()(#[trigger] rest[i]) by {
        assert(rest[i] == host[i]);
    }
    assert(rest[host.len() as int] == '.');
    assert(!host_pred()(rest[host.len() as int]));
    lemma_prefix_len_is(rest, host_pred(), host.len() as int);
    assert(rest.subrange(0, host.len() as int) =~= host);
    let suffix = rest.subrange(host.len() as int + 1, rest.len() as int);
    assert(suffix =~= suf);
    match kind {
        ClipboardContentType::Text => {
            assert(suffix == "text.json"@);
        },
        ClipboardContentType::Image => {
            assert("png"@.len() == 3 && "text.json"@.len() == 9);
            assert(suffix != "text.json"@);
            assert(suffix == "png"@);
        },
        ClipboardContentType::Files => {
            let rc = dec_repr(count);
            let dc = rc.len() as int;
            lemma_dec_repr_digits(count);
            lemma_dec_value_of_repr(count);
            assert(suffix.len() == dc + 6);
            assert(suffix != "text.json"@) by {
                if suffix == "text.json"@ {
                    assert(suffix[0] == 't');
                    assert(suffix[0] == rc[0]);
                    assert(is_digit_char('t') == false);
                }
            }
            assert(suffix != "png"@) by {
                assert("png"@.len() == 3);
                assert(dec_repr(count).len() >= 1);
            }
            assert forall|i: int| 0 <= i < dc implies digit_pred()(#[trigger] suffix[i]) by {
                assert(suffix[i] == rc[i]);
            }
            assert(suffix[dc] == '_');
            assert(!digit_pred()(suffix[dc]));
            lemma_prefix_len_is(suffix, digit_pred(), dc);
            assert(suffix[0] == rc[0]);
            assert(suffix[0] != '0');
            assert(suffix.subrange(dc, suffix.len() as int) =~= "_files"@);
            assert(suffix.subrange(0, dc) =~= rc);
        },
    }
}

/// A presence marker file name never decodes as an artifact: every suffix
/// the grammar accepts ends in 'n', 'g' or 's', while a marker name ends in
/// 't'.
pub proof fn lemma_marker_name_never_parses(s: Seq<char>)
    requires
        spec_is_marker_name(s),
    ensures
        spec_parse_name(s) is None,
{
    reveal_strlit(".is-receiving.txt");
    reveal_strlit("text.json");
    reveal_strlit("png");
    reveal_strlit("_files");
    let pat = ".is-receiving.txt"@;
    assert(pat.len() == 17);
    assert(s.subrange(s.len() - 17, s.len() as int) == pat);
    assert(s[s.len() - 1] == s.subrange(s.len() - 17, s.len() as int)[16]);
    assert(s[s.len() - 1] == 't');
    if spec_parse_name(s) is Some {
        let k = prefix_len(s, digit_pred()) as int;
        let rest = s.subrange(k + 1, s.len() as int);
        let h = prefix_len(rest, host_pred()) as int;
        let suffix = rest.subrange(h + 1, rest.len() as int);
        assert(rest[rest.len() - 1] == s[s.len() - 1]);
        assert(suffix.len() > 0 ==> suffix[suffix.len() - 1] == s[s.len() - 1]);
        if suffix == "text.json"@ {
            assert(suffix[8] == 'n');
            assert(false);
        } else if suffix == "png"@ {
            assert(suffix[2] == 'g');
            assert(false);
        } else {
            let d = prefix_len(suffix, digit_pred()) as int;
            lemma_prefix_len_bounds(suffix, digit_pred());
            assert(suffix.subrange(d, suffix.len() as int) == "_files"@);
            assert(suffix.subrange(d, suffix.len() as int).len() == suffix.len() - d);
            assert(suffix.len() == d + 6);
            assert(suffix[d + 5] == suffix.subrange(d, suffix.len() as int)[5]);
            assert(suffix[d + 5] == 's');
            assert(false);
        }
    }
}

} // verus!
