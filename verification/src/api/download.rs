use vstd::prelude::*;
use vstd::string::StringExecFns;

use crate::decimal::{decimal, push_decimal};
use crate::http_range::{
    content_range, content_range_text, parse_single_range, single_range, unsatisfied_content_range,
    unsatisfied_range_text,
};
use crate::paths::{
    fallback_download_filename, fallback_download_name, metadata_sidecar_for, recorded_base_name,
    recorded_file_base_name, sidecar_path,
};
use crate::text::string_from_chars;
use crate::api::errors::{api_error, make_error, ApiError};
use crate::metadata::FileMetadata;

verus! {

/// How a download answers a `Range` header.
#[derive(Debug)]
pub enum RangeAnswer {
    /// `206 Partial Content` with the inclusive byte range, its length and its
    /// `Content-Range` value.
    Partial { start: u64, end: u64, length: u64, content_range: String },
    /// `416 Range Not Satisfiable` with its `Content-Range` value.
    Unsatisfiable { content_range: String },
}

/// The answer that a `Range` header value gets against a resource of `total` bytes.
pub open spec fn range_answer_ok(a: RangeAnswer, header: Seq<char>, total: u64) -> bool {
    match single_range(header, total) {
        Some((s, e)) => a matches RangeAnswer::Partial { start, end, length, content_range }
            && start == s && end == e && length == e - s + 1 && content_range@
            == content_range_text(s, e, total),
        None => a matches RangeAnswer::Unsatisfiable { content_range } && content_range@
            == unsatisfied_range_text(total),
    }
}

/// Decides the answer to a `Range` header against a resource of `total` bytes.
pub fn range_answer(range_header: &str, total: u64) -> (a: RangeAnswer)
    ensures
        range_answer_ok(a, range_header@, total),
{
    match parse_single_range(range_header, total) {
        Some((start, end)) => RangeAnswer::Partial {
            start,
            end,
            length: end - start + 1,
            content_range: content_range(start, end, total),
        },
        None => RangeAnswer::Unsatisfiable { content_range: unsatisfied_content_range(total) },
    }
}

/// How a decrypted download is served.
#[derive(Debug)]
pub enum DownloadPlan {
    /// No `Range` header: the whole plaintext is streamed with `200`.
    Whole,
    /// The sidecar records the plaintext size: the range is answered against it at once.
    Range(RangeAnswer),
    /// The sidecar records no size: the whole plaintext is decrypted first, and the `Range`
    /// value (kept here) is answered against its length.
    RangeAfterFullDecrypt(String),
}

/// Decides how a decrypted download is served, from the request's `Range` value and the
/// plaintext size recorded in the sidecar.
pub fn download_plan(range_header: Option<String>, recorded_size: Option<u64>) -> (p: DownloadPlan)
    ensures
        match range_header {
            None => p is Whole,
            Some(h) => match recorded_size {
                Some(total) => p matches DownloadPlan::Range(a) && range_answer_ok(a, h@, total),
                None => p matches DownloadPlan::RangeAfterFullDecrypt(v) && v@ == h@,
            },
        },
{
    match range_header {
        None => DownloadPlan::Whole,
        Some(h) => match recorded_size {
            Some(total) => DownloadPlan::Range(range_answer(h.as_str(), total)),
            None => DownloadPlan::RangeAfterFullDecrypt(h),
        },
    }
}

/// The decimal text of a length (for `Content-Length`).
pub fn length_text(n: u64) -> (s: String)
    ensures
        s@ == decimal(n as nat),
{
    let mut out: Vec<char> = Vec::new();
    push_decimal(&mut out, n);
    assert(out@ =~= decimal(n as nat));
    string_from_chars(&out)
}

/// `attachment; filename="<name>"`.
pub fn attachment_disposition(filename: &str) -> (s: String)
    ensures
        s@ == "attachment; filename=\""@ + filename@ + "\""@,
{
    let mut s = String::from_str("attachment; filename=\"");
    s.append(filename);
    s.append("\"");
    s
}

/// The name offered for a decrypted download: the base name recorded in the sidecar, or else
/// the payload's name without `.age`.
pub fn resolve_download_name(meta_filename: Option<String>, path: &str) -> (s: String)
    ensures
        match meta_filename {
            Some(n) => s@ == n@,
            None => s@ == fallback_download_name(path@),
        },
{
    match meta_filename {
        Some(n) => n,
        None => fallback_download_filename(path),
    }
}

/// What a download reads from the sidecar: the recorded file name reduced to its base name,
/// and the recorded (plaintext) size.
pub fn download_metadata_info(filename: Option<String>, filesize: Option<u64>) -> (r: (
    Option<String>,
    Option<u64>,
))
    ensures
        match recorded_base_name(
            match filename {
                Some(s) => Some(s@),
                None => None,
            },
        ) {
            Some(n) => r.0 matches Some(m) && m@ == n,
            None => r.0 is None,
        },
        r.1 == filesize,
{
    (recorded_file_base_name(&filename), filesize)
}

/// The body of a `416` answer (plain text).
pub open spec fn unsatisfiable_text() -> Seq<char> {
    "Range not satisfiable"@
}

/// The body of a `416` answer.
pub fn unsatisfiable_body() -> (s: String)
    ensures
        s@ == unsatisfiable_text(),
{
    String::from_str("Range not satisfiable")
}

/// Where the metadata endpoint reads the sidecar of the payload at `encrypted_path`:
/// `400 Invalid encrypted file path` when the path has none.
pub fn metadata_target(encrypted_path: &str) -> (r: Result<String, ApiError>)
    ensures
        match sidecar_path(encrypted_path@) {
            Some(p) => r matches Ok(s) && s@ == p,
            None => r matches Err(e) && api_error(e, 400, "Invalid encrypted file path"@),
        },
{
    match metadata_sidecar_for(encrypted_path) {
        Some(p) => Ok(p),
        None => Err(make_error(400, "Invalid encrypted file path")),
    }
}

/// `404 Metadata not found` unless the sidecar exists.
pub fn check_metadata_exists(sidecar_exists: bool) -> (r: Result<(), ApiError>)
    ensures
        sidecar_exists ==> r is Ok,
        !sidecar_exists ==> (r matches Err(e) && api_error(e, 404, "Metadata not found"@)),
{
    if !sidecar_exists {
        return Err(make_error(404, "Metadata not found"));
    }
    Ok(())
}

/// What the metadata endpoint answers: the recorded metadata, with `filesize` replaced by the
/// payload's size on disk (its ciphertext size).
pub fn metadata_answer(metadata: FileMetadata, ciphertext_size: u64) -> (r: FileMetadata)
    ensures
        r.filename == metadata.filename,
        r.origin == metadata.origin,
        r.extended == metadata.extended,
        r.filesize == Some(ciphertext_size),
{
    let FileMetadata { filename, origin, filesize: _, extended } = metadata;
    FileMetadata { filename, origin, filesize: Some(ciphertext_size), extended }
}

/// `500 Failed to delete file`: the payload could not be removed.
pub fn delete_failed() -> (e: ApiError)
    ensures
        api_error(e, 500, "Failed to delete file"@),
{
    make_error(500, "Failed to delete file")
}

} // verus!
