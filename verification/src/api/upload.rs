use vstd::prelude::*;
use vstd::string::StringExecFns;

use age::x25519::Recipient;

use crate::api::access::{allows, check_config_allows, Operation};
use crate::api::errors::{api_error, config_error_answer, make_error, ApiError};
use crate::config::VaultConfig;
use crate::crypto::{age_recipient_accepts, age_recipient_from_str, parsed_recipient};
use crate::decimal::{parse_u64, parse_u64_text};
use crate::errors::InboxCoreError;
use crate::metadata::{ext_map, keys_distinct, ExtendedValue, FileMetadata};
use crate::text::{starts_with, starts_with_exec, str_chars, string_from_chars, copy_range};
use crate::validation::{is_valid_subpath, valid_subpath};

verus! {

/// Decides where an upload goes: the config must have been read and allow uploads; an upload
/// into a subfolder needs `allow_subfolders` (`403 Subfolders not allowed by vault config`) and
/// a valid subpath (`400 Invalid subfolder path`).
pub fn check_upload_target(
    config: Result<VaultConfig, InboxCoreError>,
    subpath: Option<&str>,
) -> (r: Result<VaultConfig, ApiError>)
    ensures
        match config {
            Err(e) => r matches Err(a) && config_error_answer(a, e),
            Ok(c) => if !c.permissions.allow_upload {
                r matches Err(a) && api_error(a, 403, "Permission denied for this operation"@)
            } else {
                match subpath {
                    None => r matches Ok(rc) && rc.public_key@ == c.public_key@ && rc.permissions
                        == c.permissions,
                    Some(p) => if !c.permissions.allow_subfolders {
                        r matches Err(a) && api_error(a, 403, "Subfolders not allowed by vault config"@)
                    } else if !valid_subpath(p@) {
                        r matches Err(a) && api_error(a, 400, "Invalid subfolder path"@)
                    } else {
                        r matches Ok(rc) && rc.public_key@ == c.public_key@ && rc.permissions
                            == c.permissions
                    },
                }
            },
        },
{
    let config = check_config_allows(config, Operation::Upload)?;
    if let Some(p) = subpath {
        if !config.permissions.allow_subfolders {
            return Err(make_error(403, "Subfolders not allowed by vault config"));
        }
        if !is_valid_subpath(p) {
            return Err(make_error(400, "Invalid subfolder path"));
        }
    }
    Ok(config)
}

/// The recipient that uploads are encrypted to: the vault's public key, or `500 Invalid
/// public key` when age does not accept it.
pub fn upload_recipient(public_key: &str) -> (r: Result<Recipient, ApiError>)
    ensures
        r is Ok <==> age_recipient_accepts(public_key@),
        r matches Ok(rc) ==> rc == parsed_recipient(public_key@),
        r matches Err(e) ==> api_error(e, 500, "Invalid public key"@),
{
    match age_recipient_from_str(public_key) {
        Ok(recipient) => Ok(recipient),
        Err(_) => Err(make_error(500, "Invalid public key")),
    }
}

/// The content type of a multipart upload.
pub open spec fn multipart_type() -> Seq<char> {
    "multipart/form-data"@
}

/// `415 Content-Type must be multipart/form-data` unless the request's content type (when it
/// is readable text) starts with `multipart/form-data`.
pub fn check_multipart(content_type: Option<&str>) -> (r: Result<(), ApiError>)
    ensures
        (content_type matches Some(t) && starts_with(t@, multipart_type())) ==> r is Ok,
        !(content_type matches Some(t) && starts_with(t@, multipart_type())) ==> (r matches Err(e)
            && api_error(e, 415, "Content-Type must be multipart/form-data"@)),
{
    let ok = match content_type {
        Some(t) => {
            let chars = str_chars(t);
            let prefix = str_chars("multipart/form-data");
            starts_with_exec(&chars, &prefix)
        },
        None => false,
    };
    if !ok {
        return Err(make_error(415, "Content-Type must be multipart/form-data"));
    }
    Ok(())
}

/// The path of an upload relative to the vault: `<subpath>/<drop name>`, or the drop name.
pub fn uploaded_path(subpath: Option<&str>, drop_name: &str) -> (s: String)
    ensures
        match subpath {
            Some(p) => s@ == p@ + "/"@ + drop_name@,
            None => s@ == drop_name@,
        },
{
    match subpath {
        Some(p) => {
            let mut s = String::from_str(p);
            s.append("/");
            s.append(drop_name);
            s
        },
        None => String::from_str(drop_name),
    }
}

/// The temporary file a file is written to before it is committed: `<path>.tmp`.
pub fn temp_path(path: &str) -> (s: String)
    ensures
        s@ == path@ + ".tmp"@,
{
    let mut s = String::from_str(path);
    s.append(".tmp");
    s
}


/// `400 Invalid multipart: <detail>`: the request body is not a readable multipart form.
pub fn invalid_multipart(detail: &str) -> (e: ApiError)
    ensures
        api_error(e, 400, "Invalid multipart: "@ + detail@),
{
    let mut m = String::from_str("Invalid multipart: ");
    m.append(detail);
    ApiError { status: 400, message: m }
}

/// The most bytes a non-file form field may hold (64 KiB).
pub open spec fn field_limit() -> u64 {
    65536
}

/// `413 Field '<name>' exceeds the 64KB limit` once a non-file field has grown past 64 KiB.
pub fn check_field_size(name: &str, len: u64) -> (r: Result<(), ApiError>)
    ensures
        len <= field_limit() ==> r is Ok,
        len > field_limit() ==> (r matches Err(e) && api_error(
            e,
            413,
            "Field '"@ + name@ + "' exceeds the 64KB limit"@,
        )),
{
    if len > 65536 {
        let mut m = String::from_str("Field '");
        m.append(name);
        m.append("' exceeds the 64KB limit");
        return Err(ApiError { status: 413, message: m });
    }
    Ok(())
}

/// Reads the `MAX_UPLOAD_SIZE_BYTES` setting: a `u64`, or nothing when it does not parse.
pub fn upload_size_limit(raw: &str) -> (r: Option<u64>)
    ensures
        r == parse_u64_text(raw@),
{
    let chars = str_chars(raw);
    parse_u64(&chars)
}

/// A character with Unicode's `White_Space` property (what `char::is_whitespace` tests).
pub open spec fn is_white_space(c: char) -> bool {
    ('\u{9}' <= c && c <= '\u{d}') || c == ' ' || c == '\u{85}' || c == '\u{a0}' || c
        == '\u{1680}' || ('\u{2000}' <= c && c <= '\u{200a}') || c == '\u{2028}' || c == '\u{2029}'
        || c == '\u{202f}' || c == '\u{205f}' || c == '\u{3000}'
}

fn white_space(c: char) -> (b: bool)
    ensures
        b == is_white_space(c),
{
    ('\u{9}' <= c && c <= '\u{d}') || c == ' ' || c == '\u{85}' || c == '\u{a0}' || c
        == '\u{1680}' || ('\u{2000}' <= c && c <= '\u{200a}') || c == '\u{2028}' || c == '\u{2029}'
        || c == '\u{202f}' || c == '\u{205f}' || c == '\u{3000}'
}

/// `s` without its leading white space.
pub open spec fn trim_start_ws(s: Seq<char>) -> Seq<char>
    decreases s.len(),
{
    if s.len() > 0 && is_white_space(s[0]) {
        trim_start_ws(s.drop_first())
    } else {
        s
    }
}

/// `s` without its trailing white space.
pub open spec fn trim_end_ws(s: Seq<char>) -> Seq<char>
    decreases s.len(),
{
    if s.len() > 0 && is_white_space(s.last()) {
        trim_end_ws(s.drop_last())
    } else {
        s
    }
}

/// `s` without leading and trailing white space (std's `str::trim`).
pub open spec fn trimmed(s: Seq<char>) -> Seq<char> {
    trim_end_ws(trim_start_ws(s))
}

/// Trims leading and trailing white space, as `str::trim` does.
pub fn trim(s: &str) -> (r: String)
    ensures
        r@ == trimmed(s@),
{
    let chars = str_chars(s);
    let mut start: usize = 0;
    assert(chars@.subrange(0, chars@.len() as int) =~= chars@);
    while start < chars.len() && white_space(chars[start])
        invariant
            start <= chars@.len(),
            trim_start_ws(chars@.subrange(start as int, chars@.len() as int)) == trim_start_ws(
                chars@,
            ),
        decreases chars@.len() - start,
    {
        let ghost cur = chars@.subrange(start as int, chars@.len() as int);
        assert(cur.drop_first() =~= chars@.subrange(start + 1, chars@.len() as int));
        start = start + 1;
    }
    let mut end: usize = chars.len();
    let ghost front = chars@.subrange(start as int, chars@.len() as int);
    assert(trim_start_ws(front) == front);
    assert(front.subrange(0, front.len() as int) =~= front);
    while end > start && white_space(chars[end - 1])
        invariant
            start <= end <= chars@.len(),
            front == chars@.subrange(start as int, chars@.len() as int),
            trim_end_ws(chars@.subrange(start as int, end as int)) == trim_end_ws(front),
        decreases end,
    {
        let ghost cur = chars@.subrange(start as int, end as int);
        assert(cur.drop_last() =~= chars@.subrange(start as int, end - 1));
        end = end - 1;
    }
    let out = copy_range(&chars, start, end);
    string_from_chars(&out)
}

/// The kinds of multipart fields an upload understands.
#[derive(Clone, Copy, Debug, PartialEq, Eq, Structural)]
pub enum FormField {
    /// The payload (`file`, or the first unnamed field).
    File,
    /// `origin`: free text kept in the metadata.
    Origin,
    /// `filename`: the explicit file name.
    Filename,
    /// `extended`: a JSON object merged into the metadata.
    Extended,
    /// Any other field: kept in the metadata as text under its name.
    Other,
}

/// The kind of a field: `file`, or an unnamed field while no file was seen, is the payload.
pub open spec fn field_kind(name: Seq<char>, found_file: bool) -> FormField {
    if name == "file"@ || (name.len() == 0 && !found_file) {
        FormField::File
    } else if name == "origin"@ {
        FormField::Origin
    } else if name == "filename"@ {
        FormField::Filename
    } else if name == "extended"@ {
        FormField::Extended
    } else {
        FormField::Other
    }
}

fn same_text(a: &str, b: &str) -> (r: bool)
    ensures
        r == (a@ == b@),
{
    let x = String::from_str(a);
    let y = String::from_str(b);
    x == y
}

/// The metadata gathered while a multipart upload is read.
pub struct UploadForm {
    /// The trimmed file name carried by the payload part, if non-empty.
    pub multipart_file_name: Option<String>,
    /// The trimmed `filename` field, if non-empty.
    pub form_filename: Option<String>,
    /// Whether a payload field was seen.
    pub found_file: bool,
    /// Bytes of the payload field being read.
    pub file_bytes: u64,
    /// The metadata recorded so far (its file name is settled by `finish`).
    pub metadata: FileMetadata,
}

/// The entries of the JSON object that a text holds, each value as its compact JSON text, or
/// `None` when `serde_json` does not parse the text as an object (a map from strings to
/// values).
pub uninterp spec fn json_object_entries(text: Seq<char>) -> Option<Map<Seq<char>, Seq<char>>>;

/// Runs `serde_json::from_str::<HashMap<String, Value>>` and hands back the object's entries,
/// each value converted to its compact JSON text (`Value`'s `Display`), in the map's order
/// (left unsaid). Which texts parse, and to what, is named, not stated; a map holds each key
/// once.
#[verifier::external_body]
fn parse_json_object(text: &str) -> (r: Option<Vec<(String, String)>>)
    ensures
        r is Some <==> json_object_entries(text@) is Some,
        r matches Some(v) ==> (forall|i: int, j: int|
            0 <= i < j < v@.len() ==> #[trigger] v@[i].0@ != #[trigger] v@[j].0@),
        r matches Some(v) ==> forall|i: int|
            0 <= i < v@.len() ==> json_object_entries(text@)->0.contains_key(#[trigger] v@[i].0@)
                && json_object_entries(text@)->0[v@[i].0@] == v@[i].1@,
        r matches Some(v) ==> forall|k: Seq<char>|
            #[trigger] json_object_entries(text@)->0.contains_key(k) ==> exists|i: int|
                0 <= i < v@.len() && #[trigger] v@[i].0@ == k,
{
    let map = serde_json::from_str::<std::collections::HashMap<String, serde_json::Value>>(text).ok()?;
    let mut entries = Vec::new();
    for (key, value) in map {
        entries.push((key, value.to_string()));
    }
    Some(entries)
}

/// The entries of a list of key/JSON-text pairs as extended values; a later key wins.
pub open spec fn json_entries_map(s: Seq<(String, String)>) -> Map<Seq<char>, (bool, Seq<char>)>
    decreases s.len(),
{
    if s.len() == 0 {
        Map::empty()
    } else {
        json_entries_map(s.drop_last()).insert(s.last().0@, (true, s.last().1@))
    }
}

/// The JSON object's entries as extended values.
pub open spec fn json_object_values(obj: Map<Seq<char>, Seq<char>>) -> Map<
    Seq<char>,
    (bool, Seq<char>),
> {
    obj.map_values(|t: Seq<char>| (true, t))
}

proof fn lemma_json_entries_map(s: Seq<(String, String)>)
    requires
        forall|i: int, j: int| 0 <= i < j < s.len() ==> #[trigger] s[i].0@ != #[trigger] s[j].0@,
    ensures
        forall|k: Seq<char>|
            #[trigger] json_entries_map(s).contains_key(k) <==> exists|i: int|
                0 <= i < s.len() && #[trigger] s[i].0@ == k,
        forall|i: int| 0 <= i < s.len() ==> #[trigger] json_entries_map(s)[s[i].0@] == (true, s[i].1@),
    decreases s.len(),
{
    if s.len() > 0 {
        let d = s.drop_last();
        assert forall|i: int, j: int| 0 <= i < j < d.len() implies #[trigger] d[i].0@ != #[trigger] d[j].0@ by {
            assert(d[i] == s[i] && d[j] == s[j]);
        }
        lemma_json_entries_map(d);
        assert forall|k: Seq<char>| #[trigger] json_entries_map(s).contains_key(k) implies exists|i: int|
            0 <= i < s.len() && #[trigger] s[i].0@ == k by {
            if k != s.last().0@ {
                assert(json_entries_map(d).contains_key(k));
                let i = choose|i: int| 0 <= i < d.len() && #[trigger] d[i].0@ == k;
                assert(s[i] == d[i]);
            } else {
                assert(s[s.len() - 1].0@ == k);
            }
        }
        assert forall|k: Seq<char>| (exists|i: int| 0 <= i < s.len() && #[trigger] s[i].0@ == k) implies #[trigger] json_entries_map(s).contains_key(k) by {
            let i = choose|i: int| 0 <= i < s.len() && #[trigger] s[i].0@ == k;
            if i < s.len() - 1 {
                assert(d[i] == s[i]);
                assert(d[i].0@ == k);
                assert(json_entries_map(d).contains_key(k));
            }
        }
        assert forall|i: int| 0 <= i < s.len() implies #[trigger] json_entries_map(s)[s[i].0@] == (true, s[i].1@) by {
            if i < s.len() - 1 {
                assert(d[i] == s[i]);
                assert(json_entries_map(d)[d[i].0@] == (true, d[i].1@));
                assert(s[i].0@ != s[s.len() - 1].0@);
            }
        }
    }
}

impl UploadForm {
    /// Nothing read yet.
    pub fn new() -> (f: Self)
        ensures
            f.multipart_file_name is None,
            f.form_filename is None,
            !f.found_file,
            f.file_bytes == 0,
            f.metadata.filename is None,
            f.metadata.origin is None,
            f.metadata.filesize is None,
            f.metadata.extended@.len() == 0,
            f.metadata.wf(),
    {
        UploadForm {
            multipart_file_name: None,
            form_filename: None,
            found_file: false,
            file_bytes: 0,
            metadata: FileMetadata::default(),
        }
    }

    /// The kind of the next field, by its name.
    pub fn kind_of(&self, field_name: &str) -> (k: FormField)
        ensures
            k == field_kind(field_name@, self.found_file),
    {
        if same_text(field_name, "file") || (field_name.is_empty() && !self.found_file) {
            FormField::File
        } else if same_text(field_name, "origin") {
            FormField::Origin
        } else if same_text(field_name, "filename") {
            FormField::Filename
        } else if same_text(field_name, "extended") {
            FormField::Extended
        } else {
            FormField::Other
        }
    }

    /// A payload field starts; `part_file_name` is the file name its part header carries.
    pub fn begin_file(&mut self, part_file_name: Option<&str>)
        ensures
            final(self).found_file,
            final(self).file_bytes == 0,
            match part_file_name {
                Some(n) => if trimmed(n@).len() > 0 {
                    final(self).multipart_file_name matches Some(m) && m@ == trimmed(n@)
                } else {
                    final(self).multipart_file_name == old(self).multipart_file_name
                },
                None => final(self).multipart_file_name == old(self).multipart_file_name,
            },
            final(self).form_filename == old(self).form_filename,
            final(self).metadata == old(self).metadata,
    {
        if let Some(name) = part_file_name {
            let t = trim(name);
            if !t.as_str().is_empty() {
                self.multipart_file_name = Some(t);
            }
        }
        self.found_file = true;
        self.file_bytes = 0;
    }

    /// A chunk of `len` payload bytes was written (the count stops at `u64::MAX`).
    pub fn file_chunk(&mut self, len: u64)
        ensures
            final(self).file_bytes == if old(self).file_bytes + len <= u64::MAX {
                (old(self).file_bytes + len) as u64
            } else {
                u64::MAX
            },
            final(self).found_file == old(self).found_file,
            final(self).multipart_file_name == old(self).multipart_file_name,
            final(self).form_filename == old(self).form_filename,
            final(self).metadata == old(self).metadata,
    {
        self.file_bytes = self.file_bytes.saturating_add(len);
    }

    /// The payload field ended: its byte count is the recorded size.
    pub fn end_file(&mut self)
        ensures
            final(self).metadata.filesize == Some(old(self).file_bytes),
            final(self).metadata.filename == old(self).metadata.filename,
            final(self).metadata.origin == old(self).metadata.origin,
            final(self).metadata.extended == old(self).metadata.extended,
            final(self).file_bytes == old(self).file_bytes,
            final(self).found_file == old(self).found_file,
            final(self).multipart_file_name == old(self).multipart_file_name,
            final(self).form_filename == old(self).form_filename,
    {
        self.metadata.filesize = Some(self.file_bytes);
    }

    /// The `origin` field's text.
    pub fn set_origin(&mut self, text: String)
        ensures
            final(self).metadata.origin == Some(text),
            final(self).metadata.filename == old(self).metadata.filename,
            final(self).metadata.filesize == old(self).metadata.filesize,
            final(self).metadata.extended == old(self).metadata.extended,
            final(self).file_bytes == old(self).file_bytes,
            final(self).found_file == old(self).found_file,
            final(self).multipart_file_name == old(self).multipart_file_name,
            final(self).form_filename == old(self).form_filename,
    {
        self.metadata.origin = Some(text);
    }

    /// The `filename` field's text: kept trimmed, when it is not blank.
    pub fn set_filename_field(&mut self, text: &str)
        ensures
            if trimmed(text@).len() > 0 {
                final(self).form_filename matches Some(m) && m@ == trimmed(text@)
            } else {
                final(self).form_filename == old(self).form_filename
            },
            final(self).file_bytes == old(self).file_bytes,
            final(self).found_file == old(self).found_file,
            final(self).multipart_file_name == old(self).multipart_file_name,
            final(self).metadata == old(self).metadata,
    {
        let t = trim(text);
        if !t.as_str().is_empty() {
            self.form_filename = Some(t);
        }
    }

    /// The `extended` field's text: when it is a JSON object, its entries are merged into the
    /// extended fields gathered so far (an entry of the object wins over an earlier field with
    /// its key); otherwise it is ignored.
    pub fn set_extended(&mut self, text: &str)
        ensures
            match json_object_entries(text@) {
                Some(obj) => ext_map(final(self).metadata.extended@) == ext_map(
                    old(self).metadata.extended@,
                ).union_prefer_right(json_object_values(obj)),
                None => final(self).metadata.extended == old(self).metadata.extended,
            },
            old(self).metadata.wf() ==> final(self).metadata.wf(),
            final(self).metadata.filename == old(self).metadata.filename,
            final(self).metadata.origin == old(self).metadata.origin,
            final(self).metadata.filesize == old(self).metadata.filesize,
            final(self).file_bytes == old(self).file_bytes,
            final(self).found_file == old(self).found_file,
            final(self).multipart_file_name == old(self).multipart_file_name,
            final(self).form_filename == old(self).form_filename,
    {
        match parse_json_object(text) {
            Some(entries) => {
                let ghost all = entries@;
                let ghost before = self.metadata.extended@;
                let ghost obj = json_object_entries(text@)->0;
                proof {
                    lemma_json_entries_map(all);
                    assert(json_entries_map(all) =~= json_object_values(obj));
                    assert(all.subrange(0, 0) =~= Seq::<(String, String)>::empty());
                    assert(ext_map(before).union_prefer_right(json_entries_map(all.subrange(0, 0)))
                        =~= ext_map(before));
                }
                let mut i: usize = 0;
                while i < entries.len()
                    invariant
                        entries@ == all,
                        i <= all.len(),
                        ext_map(self.metadata.extended@) == ext_map(before).union_prefer_right(
                            json_entries_map(all.subrange(0, i as int)),
                        ),
                        keys_distinct(before) ==> keys_distinct(self.metadata.extended@),
                        self.metadata.filename == old(self).metadata.filename,
                        self.metadata.origin == old(self).metadata.origin,
                        self.metadata.filesize == old(self).metadata.filesize,
                        self.file_bytes == old(self).file_bytes,
                        self.found_file == old(self).found_file,
                        self.multipart_file_name == old(self).multipart_file_name,
                        self.form_filename == old(self).form_filename,
                    decreases all.len() - i,
                {
                    let key = entries[i].0.clone();
                    let value = entries[i].1.clone();
                    let ghost m = json_entries_map(all.subrange(0, i as int));
                    assert(all.subrange(0, i + 1).drop_last() =~= all.subrange(0, i as int));
                    self.metadata.set_field(key, ExtendedValue::Json(value));
                    assert(ext_map(before).union_prefer_right(m.insert(all[i as int].0@, (true, all[i as int].1@)))
                        =~= ext_map(before).union_prefer_right(m).insert(all[i as int].0@, (true, all[i as int].1@)));
                    i = i + 1;
                }
                assert(all.subrange(0, i as int) =~= all);
            },
            None => {},
        }
    }

    /// Any other field's text, kept under the field's name (replacing an earlier value).
    pub fn set_text_field(&mut self, name: String, text: String)
        ensures
            ext_map(final(self).metadata.extended@) == ext_map(old(self).metadata.extended@).insert(
                name@,
                (false, text@),
            ),
            old(self).metadata.wf() ==> final(self).metadata.wf(),
            final(self).metadata.filename == old(self).metadata.filename,
            final(self).metadata.origin == old(self).metadata.origin,
            final(self).metadata.filesize == old(self).metadata.filesize,
            final(self).file_bytes == old(self).file_bytes,
            final(self).found_file == old(self).found_file,
            final(self).multipart_file_name == old(self).multipart_file_name,
            final(self).form_filename == old(self).form_filename,
    {
        self.metadata.set_text_field(name, text);
    }

    /// Ends the form: `400 Missing 'file' field in multipart form` without a payload field,
    /// `400 Missing filename: ...` without a non-blank `filename` field or part file name; the
    /// `filename` field wins over the part's file name.
    pub fn finish(self) -> (r: Result<FileMetadata, ApiError>)
        ensures
            !self.found_file ==> (r matches Err(e) && api_error(
                e,
                400,
                "Missing 'file' field in multipart form"@,
            )),
            self.found_file && self.form_filename is None && self.multipart_file_name is None ==> (r matches Err(e) && api_error(
                e,
                400,
                "Missing filename: provide non-empty 'filename' field or a filename in the multipart file part"@,
            )),
            self.found_file ==> (self.form_filename matches Some(f) ==> (r matches Ok(m)
                && m.filename == Some(f))),
            self.found_file && self.form_filename is None ==> (self.multipart_file_name matches Some(f) ==> (r matches Ok(m)
                && m.filename == Some(f))),
            r matches Ok(m) ==> m.origin == self.metadata.origin && m.filesize == self.metadata.filesize
                && m.extended == self.metadata.extended && (self.metadata.wf() ==> m.wf()),
    {
        if !self.found_file {
            return Err(make_error(400, "Missing 'file' field in multipart form"));
        }
        let UploadForm { multipart_file_name, form_filename, found_file: _, file_bytes: _, metadata } =
            self;
        let filename = match form_filename {
            Some(f) => f,
            None => match multipart_file_name {
                Some(f) => f,
                None => {
                    return Err(
                        make_error(
                            400,
                            "Missing filename: provide non-empty 'filename' field or a filename in the multipart file part",
                        ),
                    );
                },
            },
        };
        let FileMetadata { filename: _, origin, filesize, extended } = metadata;
        Ok(FileMetadata { filename: Some(filename), origin, filesize, extended })
    }
}

} // verus!
