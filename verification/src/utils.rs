//! Small helpers shared by the pipelines: content hashing, hostname
//! normalization, and executable-directory paths.

use vstd::prelude::*;
use vstd::string::StrSliceExecFns;
use vstd::string::StringExecFns;

use sha2::Digest;

use crate::codec::{is_sep_char, spec_join};
use crate::consts::CONFIG_FILE_NAME;
use crate::text::{push_char, str_find_char};

verus! {

/// The digest that SHA-256 assigns to a byte string.
pub uninterp spec fn spec_sha256(data: Seq<u8>) -> Seq<u8>;

/// The SHA-256 digest of a byte slice.
///
/// Relies on the `sha2` crate's `Sha256`: the digest depends on the bytes
/// alone.
#[verifier::external_body]
fn sha256_digest(data: &[u8]) -> (r: Vec<u8>)
    ensures
        r@ == spec_sha256(data@),
{
    sha2::Sha256::digest(data).to_vec()
}

/// The lower-case hex character of a value below sixteen.
pub open spec fn hex_char(d: int) -> char
    recommends
        0 <= d < 16,
{
    if d == 0 {
        '0'
    } else if d == 1 {
        '1'
    } else if d == 2 {
        '2'
    } else if d == 3 {
        '3'
    } else if d == 4 {
        '4'
    } else if d == 5 {
        '5'
    } else if d == 6 {
        '6'
    } else if d == 7 {
        '7'
    } else if d == 8 {
        '8'
    } else if d == 9 {
        '9'
    } else if d == 10 {
        'a'
    } else if d == 11 {
        'b'
    } else if d == 12 {
        'c'
    } else if d == 13 {
        'd'
    } else if d == 14 {
        'e'
    } else {
        'f'
    }
}

/// The lower-case hex encoding of a byte string: two characters per byte,
/// high nibble first.
pub open spec fn spec_to_hex_lower(data: Seq<u8>) -> Seq<char>
    decreases data.len(),
{
    if data.len() == 0 {
        Seq::<char>::empty()
    } else {
        spec_to_hex_lower(data.drop_last()).push(hex_char(data.last() as int / 16)).push(
            hex_char(data.last() as int % 16),
        )
    }
}

/// The lower-case hex character of a value below sixteen, executably.
fn hex_char_of(d: u8) -> (c: char)
    requires
        d < 16,
    ensures
        c == hex_char(d as int),
{
    if d == 0 {
        '0'
    } else if d == 1 {
        '1'
    } else if d == 2 {
        '2'
    } else if d == 3 {
        '3'
    } else if d == 4 {
        '4'
    } else if d == 5 {
        '5'
    } else if d == 6 {
        '6'
    } else if d == 7 {
        '7'
    } else if d == 8 {
        '8'
    } else if d == 9 {
        '9'
    } else if d == 10 {
        'a'
    } else if d == 11 {
        'b'
    } else if d == 12 {
        'c'
    } else if d == 13 {
        'd'
    } else if d == 14 {
        'e'
    } else {
        'f'
    }
}

/// Encodes bytes as lower-case hex.
fn to_hex_lower(data: &Vec<u8>) -> (r: String)
    ensures
        r@ == spec_to_hex_lower(data@),
{
    let mut out = String::new();
    let n = data.len();
    let mut i: usize = 0;
    proof {
        assert(data@.subrange(0, 0) =~= Seq::<u8>::empty());
    }
    while i < n
        invariant
            n == data@.len(),
            0 <= i <= n,
            out@ == spec_to_hex_lower(data@.subrange(0, i as int)),
        decreases n - i,
    {
        let b = data[i];
        push_char(&mut out, hex_char_of(b / 16));
        push_char(&mut out, hex_char_of(b % 16));
        proof {
            assert(data@.subrange(0, i + 1).drop_last() =~= data@.subrange(0, i as int));
            assert(data@.subrange(0, i + 1).last() == data@[i as int]);
        }
        i = i + 1;
    }
    proof {
        assert(data@.subrange(0, n as int) =~= data@);
    }
    out
}

/// The lower-case hex digest that SHA-256 assigns to a byte string.
pub open spec fn spec_sha256_hex(data: Seq<u8>) -> Seq<char> {
    spec_to_hex_lower(spec_sha256(data))
}

/// The SHA-256 hash of a byte slice, as a lower-case hex string.
pub fn calculate_sha256(data: &[u8]) -> (r: String)
    ensures
        r@ == spec_sha256_hex(data@),
{
    let digest = sha256_digest(data);
    to_hex_lower(&digest)
}

/// The hostname proper: everything before the first dot of a full host
/// name, or the whole name when it has no dot.
pub open spec fn spec_host_prefix(full: Seq<char>) -> Seq<char> {
    if exists|i: int| 0 <= i < full.len() && full[i] == '.' {
        let i = choose|i: int|
            0 <= i < full.len() && full[i] == '.' && forall|j: int| 0 <= j < i ==> full[j] != '.';
        full.subrange(0, i)
    } else {
        full
    }
}

/// Cuts a full host name down to its first dot-separated part.
pub fn get_hostname(full: &str) -> (r: String)
    ensures
        r@ == spec_host_prefix(full@),
{
    match str_find_char(full, '.') {
        Option::Some(i) => {
            let r = full.substring_char(0, i).to_owned();
            proof {
                let w = choose|w: int|
                    0 <= w < full@.len() && full@[w] == '.' && forall|j: int|
                        0 <= j < w ==> full@[j] != '.';
                assert(w == i);
            }
            r
        },
        Option::None => full.to_owned(),
    }
}

/// The position of the last path separator in `p`, if any.
pub fn rfind_sep(p: &str) -> (r: Option<usize>)
    ensures
        r matches Some(i) ==> i < p@.len() && is_sep_char(p@[i as int]) && forall|j: int|
            i < j < p@.len() ==> !is_sep_char(p@[j]),
        r is None ==> forall|j: int| 0 <= j < p@.len() ==> !is_sep_char(p@[j]),
{
    let n = p.unicode_len();
    let mut i: usize = n;
    while i > 0
        invariant
            n == p@.len(),
            0 <= i <= n,
            forall|j: int| i <= j < n ==> !is_sep_char(p@[j]),
        decreases i,
    {
        i = i - 1;
        let c = p.get_char(i);
        if c == '/' || c == '\\' {
            return Option::Some(i);
        }
    }
    Option::None
}

/// The directory part of a path: what stands before its last separator; a
/// lone leading separator is kept, and a path without separators has an
/// empty directory.
pub open spec fn spec_parent_dir(p: Seq<char>) -> Seq<char> {
    if exists|i: int| 0 <= i < p.len() && is_sep_char(p[i]) {
        let i = choose|i: int|
            0 <= i < p.len() && is_sep_char(p[i]) && forall|j: int|
                i < j < p.len() ==> !is_sep_char(p[j]);
        if i == 0 {
            p.subrange(0, 1)
        } else {
            p.subrange(0, i)
        }
    } else {
        Seq::<char>::empty()
    }
}

/// The directory a path lives in, given the path of the executable.
pub fn get_executable_directory(exe_path: &str) -> (r: String)
    ensures
        r@ == spec_parent_dir(exe_path@),
{
    match rfind_sep(exe_path) {
        Option::Some(i) => {
            proof {
                let w = choose|w: int|
                    0 <= w < exe_path@.len() && is_sep_char(exe_path@[w]) && forall|j: int|
                        w < j < exe_path@.len() ==> !is_sep_char(exe_path@[j]);
                if w < i {
                    assert(!is_sep_char(exe_path@[i as int]));
                }
                if i < w {
                    assert(!is_sep_char(exe_path@[w]));
                }
                assert(w == i);
            }
            if i == 0 {
                exe_path.substring_char(0, 1).to_owned()
            } else {
                exe_path.substring_char(0, i).to_owned()
            }
        },
        Option::None => String::new(),
    }
}

/// Platform-specific process setup.  Nothing is needed here; a desktop
/// build hooks its registry or notification bootstrap around the library,
/// outside the verified core.
pub fn init_platform() {
}

/// The path of the configuration file inside the executable's directory.
pub fn get_config_file_path(executable_directory: &str) -> (r: String)
    ensures
        r@ == spec_join(executable_directory@, CONFIG_FILE_NAME@),
{
    let mut out = String::new();
    let dlen = executable_directory.unicode_len();
    if dlen == 0 {
        out.append(CONFIG_FILE_NAME);
        proof {
            assert(out@ =~= spec_join(executable_directory@, CONFIG_FILE_NAME@));
        }
        return out;
    }
    out.append(executable_directory);
    let last = executable_directory.get_char(dlen - 1);
    if !(last == '/' || last == '\\') {
        push_char(&mut out, '/');
    }
    out.append(CONFIG_FILE_NAME);
    proof {
        assert(out@ =~= spec_join(executable_directory@, CONFIG_FILE_NAME@));
    }
    out
}

} // verus!
