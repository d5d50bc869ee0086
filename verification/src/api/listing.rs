use vstd::prelude::*;
use vstd::string::StringExecFns;

use crate::api::cors::string_texts;
use crate::api::errors::{api_error, ApiError};
use crate::api::types::{ListedFile, RawListedFile};
use crate::paths::{is_payload_path, payload_path, recorded_base_name, recorded_file_base_name};
use crate::text::{str_chars, starts_with};

verus! {

/// What a directory walk does with one entry.
#[derive(Debug)]
pub enum WalkStep {
    /// Hidden entries (names starting with `.`, such as the vault config) are skipped.
    Skip,
    /// A subdirectory, walked under this relative path.
    Descend(String),
    /// A file, listed under this relative path.
    File(String),
}

/// The path of an entry relative to the vault: `<prefix>/<name>`, or the name alone at the
/// top.
pub open spec fn relative_entry_path(prefix: Seq<char>, name: Seq<char>) -> Seq<char> {
    if prefix.len() == 0 {
        name
    } else {
        prefix + seq!['/'] + name
    }
}

/// Decides what the walk does with the entry `name` found under the relative `prefix`.
pub fn walk_step(prefix: &str, name: &str, is_dir: bool) -> (s: WalkStep)
    ensures
        name@.len() > 0 && name@[0] == '.' ==> s is Skip,
        !(name@.len() > 0 && name@[0] == '.') ==> match s {
            WalkStep::Descend(p) => is_dir && p@ == relative_entry_path(prefix@, name@),
            WalkStep::File(p) => !is_dir && p@ == relative_entry_path(prefix@, name@),
            WalkStep::Skip => false,
        },
{
    let chars = str_chars(name);
    if chars.len() > 0 && chars[0] == '.' {
        return WalkStep::Skip;
    }
    let relative = if prefix.is_empty() {
        String::from_str(name)
    } else {
        let mut r = String::from_str(prefix);
        r.append("/");
        r.append(name);
        proof {
            reveal_strlit("/");
        }
        r
    };
    if is_dir {
        WalkStep::Descend(relative)
    } else {
        WalkStep::File(relative)
    }
}

/// The `500` answer when the size of a listed payload cannot be read:
/// `Failed to read encrypted file metadata for '<path>': <detail>`.
pub fn listing_size_error(path: &str, detail: &str) -> (e: ApiError)
    ensures
        api_error(e, 500, "Failed to read encrypted file metadata for '"@ + path@ + "': "@ + detail@),
{
    let mut m = String::from_str("Failed to read encrypted file metadata for '");
    m.append(path);
    m.append("': ");
    m.append(detail);
    ApiError { status: 500, message: m }
}

/// What reading a payload's sidecar gave.
#[derive(Debug)]
pub enum SidecarRead {
    /// There is no sidecar on disk.
    Absent,
    /// The sidecar was decrypted and parsed: the recorded file name and origin.
    Read(Option<String>, Option<String>),
    /// The sidecar exists but could not be read, decrypted or parsed; the detail says why.
    Failed(String),
}

/// The entry of a payload in the decrypted listing, from its size and what its sidecar gave:
/// without a sidecar the payload is listed with no file name or origin; with one that reads,
/// with the base name of the recorded file name and the recorded origin; a sidecar that does
/// not read fails the listing with `500` and the detail.
pub fn listed_file(path: String, size: u64, sidecar: SidecarRead) -> (r: Result<ListedFile, ApiError>)
    ensures
        match sidecar {
            SidecarRead::Absent => r matches Ok(f) && f.path@ == path@ && f.size == size
                && f.filename is None && f.origin is None,
            SidecarRead::Read(name, origin) => r matches Ok(f) && f.path@ == path@ && f.size == size
                && f.origin == origin && match recorded_base_name(
                match name {
                    Some(s) => Some(s@),
                    None => None,
                },
            ) {
                Some(b) => f.filename matches Some(n) && n@ == b,
                None => f.filename is None,
            },
            SidecarRead::Failed(detail) => r matches Err(e) && api_error(e, 500, detail@),
        },
{
    match sidecar {
        SidecarRead::Absent => Ok(ListedFile { path, filename: None, origin: None, size }),
        SidecarRead::Read(name, origin) => {
            let filename = recorded_file_base_name(&name);
            Ok(ListedFile { path, filename, origin, size })
        },
        SidecarRead::Failed(detail) => Err(ApiError { status: 500, message: detail }),
    }
}

/// Whether a walked file is listed at all: only encrypted payloads are, not sidecars or
/// other files.
pub fn is_listed_path(path: &str) -> (b: bool)
    ensures
        b == payload_path(path@),
{
    is_payload_path(path)
}

/// The walked files that a listing shows: the encrypted payloads, in walk order.
pub open spec fn listed_paths(paths: Seq<Seq<char>>) -> Seq<Seq<char>>
    decreases paths.len(),
{
    if paths.len() == 0 {
        Seq::empty()
    } else {
        let rest = listed_paths(paths.drop_last());
        if payload_path(paths.last()) {
            rest.push(paths.last())
        } else {
            rest
        }
    }
}

/// Picks the encrypted payloads out of the walked files (sidecars and other files are left
/// out), keeping their order.
pub fn select_listed(files: &Vec<String>) -> (r: Vec<String>)
    ensures
        string_texts(r@) == listed_paths(string_texts(files@)),
{
    let mut out: Vec<String> = Vec::new();
    let mut i: usize = 0;
    assert(string_texts(files@).subrange(0, 0) =~= Seq::<Seq<char>>::empty());
    while i < files.len()
        invariant
            i <= files@.len(),
            string_texts(out@) == listed_paths(string_texts(files@).subrange(0, i as int)),
        decreases files@.len() - i,
    {
        let ghost all = string_texts(files@);
        assert(all.subrange(0, i + 1).drop_last() =~= all.subrange(0, i as int));
        assert(all.subrange(0, i + 1).last() == files@[i as int]@);
        if is_payload_path(files[i].as_str()) {
            let ghost before = out@;
            out.push(files[i].clone());
            assert(string_texts(out@) =~= string_texts(before).push(files@[i as int]@));
        }
        i = i + 1;
    }
    assert(string_texts(files@).subrange(0, i as int) =~= string_texts(files@));
    out
}

/// The entry of a payload in the raw listing: its path and ciphertext size, or nothing when
/// its sidecar is missing.
pub fn raw_listed_file(path: String, size: u64, sidecar_exists: bool) -> (r: Option<RawListedFile>)
    ensures
        sidecar_exists ==> (r matches Some(f) && f.path@ == path@ && f.size == size),
        !sidecar_exists ==> r is None,
{
    if !sidecar_exists {
        return None;
    }
    Some(RawListedFile { path, size })
}

} // verus!
