use age_inbox::api::upload::{FormField, UploadForm};
use age_inbox::drop_name::{drop_filename, generate_drop_filename};
use age_inbox::metadata::{ExtendedValue, FileMetadata};
use age_inbox::paths::metadata_sidecar_for;
use age_inbox::validation::{is_valid_name, is_valid_subpath};

fn refusal<T>(r: Result<T, age_inbox::api::errors::ApiError>) -> age_inbox::api::errors::ApiError {
    match r {
        Err(e) => e,
        Ok(_) => panic!("expected a refusal"),
    }
}


/// Field names pick the field's role; an unnamed field is the payload until one was seen.
#[test]
fn field_kinds() {
    let mut form = UploadForm::new();
    assert_eq!(form.kind_of("file"), FormField::File);
    assert_eq!(form.kind_of(""), FormField::File);
    assert_eq!(form.kind_of("origin"), FormField::Origin);
    assert_eq!(form.kind_of("filename"), FormField::Filename);
    assert_eq!(form.kind_of("extended"), FormField::Extended);
    assert_eq!(form.kind_of("note"), FormField::Other);
    form.begin_file(None);
    assert_eq!(form.kind_of(""), FormField::Other);
    assert_eq!(form.kind_of("file"), FormField::File);
}

/// Without a payload field the form is refused.
#[test]
fn form_without_file() {
    let form = UploadForm::new();
    let e = refusal(form.finish());
    assert_eq!((e.status, e.message.as_str()), (400, "Missing 'file' field in multipart form"));
}

/// Without any non-blank file name the form is refused.
#[test]
fn form_without_filename() {
    let mut form = UploadForm::new();
    form.begin_file(Some("   "));
    form.set_filename_field("\t");
    form.end_file();
    let e = refusal(form.finish());
    assert_eq!(e.status, 400);
    assert_eq!(
        e.message,
        "Missing filename: provide non-empty 'filename' field or a filename in the multipart file part"
    );
}

/// The part's file name is used, trimmed, when no `filename` field is given.
#[test]
fn form_uses_part_file_name() {
    let mut form = UploadForm::new();
    form.begin_file(Some("  photo.jpg "));
    form.file_chunk(10);
    form.file_chunk(5);
    form.end_file();
    let m = form.finish().unwrap();
    assert_eq!(m.filename.as_deref(), Some("photo.jpg"));
    assert_eq!(m.filesize, Some(15));
}

/// The `filename` field wins over the part's file name; origin and text fields are kept.
#[test]
fn form_filename_field_wins() {
    let mut form = UploadForm::new();
    form.set_filename_field(" report.pdf ");
    form.begin_file(Some("upload.bin"));
    form.end_file();
    form.set_origin("scanner".to_string());
    form.set_text_field("note".to_string(), "first".to_string());
    form.set_text_field("tag".to_string(), "x".to_string());
    form.set_text_field("note".to_string(), "second".to_string());
    let m = form.finish().unwrap();
    assert_eq!(m.filename.as_deref(), Some("report.pdf"));
    assert_eq!(m.origin.as_deref(), Some("scanner"));
    assert_eq!(m.filesize, Some(0));
    assert_eq!(m.extended.len(), 2);
    assert_eq!(m.extended[0].0, "note");
    assert!(matches!(&m.extended[0].1, ExtendedValue::Text(t) if t == "second"));
    assert_eq!(m.extended[1].0, "tag");
}

/// The byte count stops at the largest `u64`.
#[test]
fn form_size_saturates() {
    let mut form = UploadForm::new();
    form.begin_file(Some("a"));
    form.file_chunk(u64::MAX);
    form.file_chunk(7);
    form.end_file();
    assert_eq!(form.finish().unwrap().filesize, Some(u64::MAX));
}

fn extended_value<'a>(m: &'a FileMetadata, key: &str) -> Option<&'a ExtendedValue> {
    m.extended.iter().find(|e| e.0 == key).map(|e| &e.1)
}

/// An `extended` JSON object is merged into the extended fields (its entries win); text that
/// is not a JSON object is ignored.
#[test]
fn form_extended_object() {
    let mut form = UploadForm::new();
    form.begin_file(Some("a"));
    form.set_text_field("note".to_string(), "x".to_string());
    form.set_extended("not json");
    assert_eq!(form.metadata.extended.len(), 1);
    form.set_extended("[1, 2]");
    assert_eq!(form.metadata.extended.len(), 1);
    form.set_extended("{\"k1\": 1, \"k2\": {\"a\": true}}");
    let mut keys: Vec<String> = form.metadata.extended.iter().map(|e| e.0.clone()).collect();
    keys.sort();
    assert_eq!(keys, vec!["k1".to_string(), "k2".to_string(), "note".to_string()]);
    assert!(matches!(extended_value(&form.metadata, "k1"), Some(ExtendedValue::Json(t)) if t == "1"));
    assert!(matches!(extended_value(&form.metadata, "k2"), Some(ExtendedValue::Json(t)) if t == "{\"a\":true}"));
    assert!(matches!(extended_value(&form.metadata, "note"), Some(ExtendedValue::Text(t)) if t == "x"));
    form.set_extended("{}");
    assert_eq!(form.metadata.extended.len(), 3);
    form.set_extended("{\"note\": 5}");
    assert_eq!(form.metadata.extended.len(), 3);
    assert!(matches!(extended_value(&form.metadata, "note"), Some(ExtendedValue::Json(t)) if t == "5"));
}

/// Fields sent before `extended` are kept beside the object's entries.
#[test]
fn form_extended_merges_with_earlier_fields() {
    let mut form = UploadForm::new();
    form.set_text_field("a".to_string(), "1".to_string());
    form.set_extended("{\"b\":2}");
    form.begin_file(Some("f.txt"));
    form.file_chunk(1);
    form.end_file();
    let m = form.finish().unwrap();
    assert_eq!(m.extended.len(), 2);
    assert!(matches!(extended_value(&m, "a"), Some(ExtendedValue::Text(t)) if t == "1"));
    assert!(matches!(extended_value(&m, "b"), Some(ExtendedValue::Json(t)) if t == "2"));
    assert_eq!(m.filename.as_deref(), Some("f.txt"));
    assert_eq!(m.filesize, Some(1));
}

/// Setting a text field on metadata replaces an equal key in place.
#[test]
fn metadata_text_field_replaces() {
    let mut m = FileMetadata::default();
    m.set_text_field("a".to_string(), "1".to_string());
    m.set_text_field("b".to_string(), "2".to_string());
    m.set_text_field("a".to_string(), "3".to_string());
    assert_eq!(m.extended.len(), 2);
    assert_eq!(m.extended[0].0, "a");
    assert!(matches!(&m.extended[0].1, ExtendedValue::Text(t) if t == "3"));
}

/// Drop names are `drop-` and the bytes' lower-case hex, ending in `.age`.
#[test]
fn drop_name_exact() {
    let bytes: Vec<u8> = (0u8..16).map(|i| i * 17).collect();
    assert_eq!(drop_filename(&bytes), "drop-00112233445566778899aabbccddeeff.age");
    assert_eq!(drop_filename(&[0xab, 0x01]), "drop-ab01.age");
}

/// A generated drop name is a valid payload path with its own sidecar.
#[test]
fn generated_drop_name_shape() {
    let name = generate_drop_filename();
    assert_eq!(name.len(), 41);
    assert!(name.starts_with("drop-") && name.ends_with(".age"));
    assert!(name[5..37].chars().all(|c| c.is_ascii_hexdigit() && !c.is_ascii_uppercase()));
    assert!(is_valid_name(&name) && is_valid_subpath(&name));
    let sidecar = metadata_sidecar_for(&name).unwrap();
    assert_eq!(sidecar, format!("{}.meta.age", &name[..37]));
    assert_ne!(generate_drop_filename(), name);
}

/// Sidecars of nested payloads stay in the payload's directory; only the last `.age` goes,
/// so different payloads get different sidecars.
#[test]
fn sidecar_paths_exact() {
    assert_eq!(metadata_sidecar_for("folder/file.age").as_deref(), Some("folder/file.meta.age"));
    assert_eq!(metadata_sidecar_for("x.age.age").as_deref(), Some("x.age.meta.age"));
    assert_eq!(metadata_sidecar_for("x.age").as_deref(), Some("x.meta.age"));
    assert_eq!(metadata_sidecar_for("x.meta.age"), None);
    assert_eq!(metadata_sidecar_for("folder/").as_deref(), None);
}
