use vstd::prelude::*;

use crate::text::{
    contains_char, contains_run, copy_range, ends_with, ends_with_exec, str_chars, string_from_chars,
    trim_end_matches, trim_end_matches_exec,
};
use crate::validation::{parent_ref, valid_name, valid_subpath};

verus! {

/// The extension of an encrypted payload.
pub open spec fn age_ext() -> Seq<char> {
    seq!['.', 'a', 'g', 'e']
}

/// The extension of an encrypted metadata sidecar.
pub open spec fn meta_age_ext() -> Seq<char> {
    seq!['.', 'm', 'e', 't', 'a', '.', 'a', 'g', 'e']
}

/// A path names an encrypted payload: it ends in `.age` but not in `.meta.age`.
pub open spec fn payload_path(path: Seq<char>) -> bool {
    ends_with(path, age_ext()) && !ends_with(path, meta_age_ext())
}

/// The sidecar file name that belongs to a payload file name: its last `.age` is replaced by
/// `.meta.age`. Other names have no sidecar.
pub open spec fn sidecar_name(file_name: Seq<char>) -> Option<Seq<char>> {
    if payload_path(file_name) {
        Some(file_name.subrange(0, file_name.len() - 4) + meta_age_ext())
    } else {
        None
    }
}

/// The final component of a path, as std's `Path::file_name` gives it, as text.
pub uninterp spec fn path_file_name_text(path: Seq<char>) -> Option<Seq<char>>;

/// The path that std's `Path::with_file_name` makes from `path` and a new file name, as text.
pub uninterp spec fn path_with_file_name_text(path: Seq<char>, file_name: Seq<char>) -> Seq<char>;

/// Calls std's `Path::file_name` on `path` and returns the component as text (`OsStr::to_str`).
/// The contract names the outcome; it states nothing of how std splits a path.
#[verifier::external_body]
fn path_file_name(path: &str) -> (r: Option<String>)
    ensures
        match r {
            Some(n) => path_file_name_text(path@) == Some(n@),
            None => path_file_name_text(path@) is None,
        },
{
    std::path::Path::new(path).file_name().and_then(|n| n.to_str()).map(|n| n.to_string())
}

/// Calls std's `Path::with_file_name` and returns the new path as text. The contract names the
/// outcome; it states nothing of how std replaces the last component.
#[verifier::external_body]
fn path_with_file_name(path: &str, file_name: &str) -> (r: String)
    ensures
        r@ == path_with_file_name_text(path@, file_name@),
{
    std::path::Path::new(path).with_file_name(file_name).to_string_lossy().into_owned()
}

/// Whether `path` names an encrypted payload (`.age`, not `.meta.age`).
pub fn is_payload_path(path: &str) -> (b: bool)
    ensures
        b == payload_path(path@),
{
    let chars = str_chars(path);
    let age: Vec<char> = vec!['.', 'a', 'g', 'e'];
    let meta: Vec<char> = vec!['.', 'm', 'e', 't', 'a', '.', 'a', 'g', 'e'];
    assert(age@ == age_ext());
    assert(meta@ == meta_age_ext());
    ends_with_exec(&chars, &age) && !ends_with_exec(&chars, &meta)
}

/// The sidecar file name for a payload file name (`x.age` -> `x.meta.age`).
pub fn metadata_sidecar_name(file_name: &str) -> (r: Option<String>)
    ensures
        match r {
            Some(m) => sidecar_name(file_name@) == Some(m@),
            None => sidecar_name(file_name@) is None,
        },
{
    if !is_payload_path(file_name) {
        return None;
    }
    let chars = str_chars(file_name);
    let mut out = copy_range(&chars, 0, chars.len() - 4);
    let ghost stem = out@;
    out.push('.');
    out.push('m');
    out.push('e');
    out.push('t');
    out.push('a');
    out.push('.');
    out.push('a');
    out.push('g');
    out.push('e');
    assert(out@ =~= stem + meta_age_ext());
    Some(string_from_chars(&out))
}

/// Where the metadata sidecar of the file at `path` lives.
pub open spec fn sidecar_path(path: Seq<char>) -> Option<Seq<char>> {
    match path_file_name_text(path) {
        None => None,
        Some(f) => match sidecar_name(f) {
            None => None,
            Some(m) => Some(path_with_file_name_text(path, m)),
        },
    }
}

/// Converts `something.age` -> `something.meta.age`, keeping the directory part.
/// Returns `None` when the path has no file name, when the file name does not end in `.age`,
/// or when it already ends in `.meta.age`.
pub fn metadata_sidecar_for(path: &str) -> (r: Option<String>)
    ensures
        match r {
            Some(p) => sidecar_path(path@) == Some(p@),
            None => sidecar_path(path@) is None,
        },
{
    let file_name = match path_file_name(path) {
        Some(n) => n,
        None => {
            return None;
        },
    };
    match metadata_sidecar_name(file_name.as_str()) {
        Some(meta_name) => Some(path_with_file_name(path, meta_name.as_str())),
        None => None,
    }
}

/// The name offered for a decrypted download when the sidecar holds none: the payload's
/// file name without its trailing `.age`, or `file`.
pub open spec fn fallback_download_name(path: Seq<char>) -> Seq<char> {
    match path_file_name_text(path) {
        Some(n) => trim_end_matches(n, age_ext()),
        None => seq!['f', 'i', 'l', 'e'],
    }
}

/// Computes the fallback download name of the payload at `path`.
pub fn fallback_download_filename(path: &str) -> (r: String)
    ensures
        r@ == fallback_download_name(path@),
{
    match path_file_name(path) {
        Some(n) => {
            let chars = str_chars(n.as_str());
            let age: Vec<char> = vec!['.', 'a', 'g', 'e'];
            assert(age@ == age_ext());
            let trimmed = trim_end_matches_exec(&chars, &age);
            string_from_chars(&trimmed)
        },
        None => {
            let v: Vec<char> = vec!['f', 'i', 'l', 'e'];
            string_from_chars(&v)
        },
    }
}

/// The name offered for a raw (still encrypted) download: the payload's file name, or
/// `file.age`.
pub open spec fn raw_download_name(path: Seq<char>) -> Seq<char> {
    match path_file_name_text(path) {
        Some(n) => n,
        None => seq!['f', 'i', 'l', 'e', '.', 'a', 'g', 'e'],
    }
}

/// Computes the download name of a raw payload at `path`.
pub fn raw_download_filename(path: &str) -> (r: String)
    ensures
        r@ == raw_download_name(path@),
{
    match path_file_name(path) {
        Some(n) => n,
        None => {
            let v: Vec<char> = vec!['f', 'i', 'l', 'e', '.', 'a', 'g', 'e'];
            string_from_chars(&v)
        },
    }
}

/// The base name under which a file recorded in metadata is shown: the last component of
/// the recorded name, if it has one.
pub open spec fn recorded_base_name(recorded: Option<Seq<char>>) -> Option<Seq<char>> {
    match recorded {
        Some(n) => path_file_name_text(n),
        None => None,
    }
}

/// Reduces a filename recorded in metadata to its base name.
pub fn recorded_file_base_name(recorded: &Option<String>) -> (r: Option<String>)
    ensures
        match r {
            Some(n) => recorded_base_name(
                match recorded {
                    Some(s) => Some(s@),
                    None => None,
                },
            ) == Some(n@),
            None => recorded_base_name(
                match recorded {
                    Some(s) => Some(s@),
                    None => None,
                },
            ) is None,
        },
{
    match recorded {
        Some(name) => path_file_name(name.as_str()),
        None => None,
    }
}

/// A payload's sidecar name ends in `.meta.age`, differs from the payload's name and has no
/// sidecar of its own; and no two payload names share one sidecar name.
pub proof fn law_sidecar_names(f: Seq<char>, g: Seq<char>)
    requires
        payload_path(f),
    ensures
        sidecar_name(f) matches Some(s) && ends_with(s, meta_age_ext()) && s != f
            && sidecar_name(s) is None,
        sidecar_name(g) == sidecar_name(f) ==> g == f,
{
    let s = f.subrange(0, f.len() - 4) + meta_age_ext();
    assert(s.subrange(s.len() - 9, s.len() as int) =~= meta_age_ext());
    assert(s.len() == f.len() + 5);
    if sidecar_name(g) == sidecar_name(f) {
        assert(payload_path(g));
        assert(g.len() == f.len());
        assert(g.subrange(0, g.len() - 4) =~= s.subrange(0, s.len() - 9));
        assert(f.subrange(0, f.len() - 4) =~= s.subrange(0, s.len() - 9));
        assert(g.subrange(g.len() - 4, g.len() as int) =~= age_ext());
        assert(f.subrange(f.len() - 4, f.len() as int) =~= age_ext());
        assert(g =~= g.subrange(0, g.len() - 4) + g.subrange(g.len() - 4, g.len() as int));
        assert(f =~= f.subrange(0, f.len() - 4) + f.subrange(f.len() - 4, f.len() as int));
    }
}

} // verus!
