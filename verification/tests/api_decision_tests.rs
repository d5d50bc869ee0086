use age_inbox::api::access::{
    check_config_allows, check_delete_session, check_file_exists, check_name_and_path,
    check_payload_request, check_session, check_vault_absent, check_vault_exists,
    check_vault_name, take_session, Operation, PayloadEndpoint,
};
use age_inbox::api::cors::{
    allowed_origins, cors_list, cors_max_age, cors_settings, env_value, exposed_headers, parse_bool,
    parse_csv, CorsItem, CorsList,
};
use age_inbox::api::download::{
    attachment_disposition, check_metadata_exists, delete_failed, download_metadata_info,
    metadata_answer, metadata_target, resolve_download_name, unsatisfiable_body,
};
use age_inbox::api::errors::{config_read_error, create_inbox_error, lock_error, unlock_error, permission_denied};
use age_inbox::api::listing::{
    is_listed_path, listed_file, listing_size_error, raw_listed_file, select_listed, walk_step,
    SidecarRead, WalkStep,
};
use age_inbox::api::types::{
    build_permissions, create_inbox_response, lock_answer, locked_message, unlocked_message,
    uploaded_message,
    CreateInboxReq, PermissionOverrides,
};
use age_inbox::api::upload::{
    check_field_size, check_multipart, check_upload_target, invalid_multipart, temp_path, trim,
    upload_recipient, upload_size_limit, uploaded_path,
};
use age_inbox::metadata::FileMetadata;
use age_inbox::config::{VaultConfig, VaultPermissions};
use age_inbox::errors::InboxCoreError;
use age_inbox::paths::{fallback_download_filename, raw_download_filename};
use age_inbox::sessions::{unlock_vault_at, UnlockedVaults};
use age_inbox::vault::prepare_vault_creation;

fn refusal<T>(r: Result<T, age_inbox::api::errors::ApiError>) -> age_inbox::api::errors::ApiError {
    match r {
        Err(e) => e,
        Ok(_) => panic!("expected a refusal"),
    }
}


fn config_with(p: VaultPermissions) -> VaultConfig {
    VaultConfig { public_key: "age1key".to_string(), permissions: p }
}

/// Name and path checks answer 400.
#[test]
fn name_and_path_checks() {
    assert!(check_vault_name("box").is_ok());
    let e = refusal(check_vault_name("a/b"));
    assert_eq!((e.status, e.message.as_str()), (400, "Invalid vault name"));
    assert!(check_name_and_path("box", "sub/x.age").is_ok());
    let e = refusal(check_name_and_path("box", "../x"));
    assert_eq!((e.status, e.message.as_str()), (400, "Invalid name or path"));
}

/// Payload endpoints refuse sidecars and other files, each with its own message.
#[test]
fn payload_path_checks() {
    assert!(check_payload_request("box", "drop.age", PayloadEndpoint::Download).is_ok());
    let e = refusal(check_payload_request("box", "drop.meta.age", PayloadEndpoint::Download));
    assert_eq!(e.status, 400);
    assert_eq!(e.message, "Path must point to an encrypted file (.age). Use /metadata for metadata.");
    let e = refusal(check_payload_request("box", "drop.meta.age", PayloadEndpoint::Metadata));
    assert_eq!(e.message, "Path must point to an encrypted file (.age), not a metadata sidecar");
    let e = refusal(check_payload_request("box", "notes.txt", PayloadEndpoint::RawDownload));
    assert_eq!(e.message, "Path must point to an encrypted file (.age).");
    let e = refusal(check_payload_request("", "drop.age", PayloadEndpoint::RawDownload));
    assert_eq!(e.message, "Invalid name or path");
}

/// Existence checks.
#[test]
fn existence_checks() {
    assert!(check_vault_exists(true).is_ok());
    let e = refusal(check_vault_exists(false));
    assert_eq!((e.status, e.message.as_str()), (404, "Vault not found"));
    let e = refusal(check_vault_absent(true));
    assert_eq!((e.status, e.message.as_str()), (409, "Vault already exists"));
    assert!(check_vault_absent(false).is_ok());
    let e = refusal(check_file_exists(false));
    assert_eq!((e.status, e.message.as_str()), (404, "File not found"));
}

/// A refused operation is answered 403; a config error keeps its own answer.
#[test]
fn permission_gating() {
    let mut p = VaultPermissions::default();
    p.allow_download = false;
    let e = refusal(check_config_allows(Ok(config_with(p)), Operation::Download));
    assert_eq!((e.status, e.message.as_str()), (403, "Permission denied for this operation"));
    let c = check_config_allows(Ok(config_with(p)), Operation::List).unwrap();
    assert_eq!(c.public_key, "age1key");
    let e = refusal(check_config_allows(Err(InboxCoreError::VaultConfigMissing), Operation::List));
    assert_eq!((e.status, e.message.as_str()), (404, "Vault config missing"));
    let e = refusal(check_config_allows(Err(InboxCoreError::InvalidConfig), Operation::List));
    assert_eq!((e.status, e.message.as_str()), (500, "Invalid config"));
    let e = permission_denied();
    assert_eq!(e.status, 403);
}

/// Core errors map to the endpoints' answers.
#[test]
fn error_answers() {
    let e = config_read_error(InboxCoreError::Io("disk".to_string()));
    assert_eq!((e.status, e.message.as_str()), (500, "disk"));
    let e = create_inbox_error(InboxCoreError::InvalidName);
    assert_eq!((e.status, e.message.as_str()), (400, "Invalid vault name"));
    let e = create_inbox_error(InboxCoreError::VaultExists);
    assert_eq!((e.status, e.message.as_str()), (409, "Vault already exists"));
    let e = lock_error(InboxCoreError::VaultNotFound);
    assert_eq!((e.status, e.message.as_str()), (404, "Vault not found"));
    let e = unlock_error(InboxCoreError::InvalidPassword);
    assert_eq!((e.status, e.message.as_str()), (401, "Invalid password"));
    let e = unlock_error(InboxCoreError::Crypto("lock/unlock disabled in config".to_string()));
    assert_eq!((e.status, e.message.as_str()), (500, "lock/unlock disabled in config"));
    let e = unlock_error(InboxCoreError::VaultLocked);
    assert_eq!((e.status, e.message.as_str()), (500, "Vault is locked"));
    assert_eq!(InboxCoreError::Io("x".to_string()).message(), "I/O error: x");
    assert_eq!(InboxCoreError::InvalidConfig.message(), "Invalid vault config");
}

/// Reads need a live session; listing leaves an expired one, decrypting reads remove it.
#[test]
fn session_checks() {
    let config = prepare_vault_creation("box", "pw", VaultPermissions::default(), false).unwrap().config;
    let mut vaults = UnlockedVaults::new();
    let e = refusal(check_session(&vaults, "box", 0));
    assert_eq!((e.status, e.message.as_str()), (401, "Vault is locked"));
    let e = refusal(check_delete_session(&vaults, "box"));
    assert_eq!((e.status, e.message.as_str()), (403, "Vault is locked"));
    unlock_vault_at(&mut vaults, "box", true, Ok(config), "pw", 0, 10).unwrap();
    assert!(check_session(&vaults, "box", 10).is_ok());
    let e = refusal(check_session(&vaults, "box", 11));
    assert_eq!((e.status, e.message.as_str()), (401, "Vault unlock expired"));
    assert!(vaults.contains_key("box"));
    assert!(check_delete_session(&vaults, "box").is_ok());
    let e = refusal(take_session(&mut vaults, "box", 11));
    assert_eq!((e.status, e.message.as_str()), (401, "Vault unlock expired"));
    assert!(!vaults.contains_key("box"));
}

/// Upload targets: permission, subfolder permission, subfolder path.
#[test]
fn upload_targets() {
    let mut p = VaultPermissions::default();
    assert!(check_upload_target(Ok(config_with(p)), None).is_ok());
    let e = refusal(check_upload_target(Ok(config_with(p)), Some("sub")));
    assert_eq!((e.status, e.message.as_str()), (403, "Subfolders not allowed by vault config"));
    p.allow_subfolders = true;
    assert!(check_upload_target(Ok(config_with(p)), Some("sub/dir")).is_ok());
    let e = refusal(check_upload_target(Ok(config_with(p)), Some("../up")));
    assert_eq!((e.status, e.message.as_str()), (400, "Invalid subfolder path"));
    p.allow_upload = false;
    let e = refusal(check_upload_target(Ok(config_with(p)), None));
    assert_eq!((e.status, e.message.as_str()), (403, "Permission denied for this operation"));
}

/// Uploads must be multipart.
#[test]
fn multipart_check() {
    assert!(check_multipart(Some("multipart/form-data; boundary=x")).is_ok());
    let e = refusal(check_multipart(Some("application/json")));
    assert_eq!((e.status, e.message.as_str()), (415, "Content-Type must be multipart/form-data"));
    assert!(check_multipart(None).is_err());
}

/// The recipient comes from the stored public key.
#[test]
fn upload_recipient_from_key() {
    let keys = age_inbox::crypto::derive_keys("pw", "box").unwrap();
    let r = upload_recipient(&keys.public_key).unwrap();
    assert_eq!(r.to_string(), keys.public_key);
    let e = refusal(upload_recipient("not-a-key"));
    assert_eq!((e.status, e.message.as_str()), (500, "Invalid public key"));
}

/// Paths and messages of an upload.
#[test]
fn upload_paths_and_messages() {
    assert_eq!(uploaded_path(Some("sub"), "drop-1.age"), "sub/drop-1.age");
    assert_eq!(uploaded_path(None, "drop-1.age"), "drop-1.age");
    assert_eq!(temp_path("/v/drop-1.age"), "/v/drop-1.age.tmp");
    assert_eq!(uploaded_message("sub/drop-1.age").message, "File sub/drop-1.age uploaded successfully");
    assert_eq!(unlocked_message("box").message, "Vault box unlocked for 1 hour");
    assert_eq!(locked_message("box").message, "Vault box locked");
    let r = create_inbox_response("age1x".to_string());
    assert!(r.success);
    assert_eq!(r.public_key, "age1x");
}

/// Trimming removes Unicode white space at both ends, as `str::trim` does.
#[test]
fn trim_like_std() {
    for s in ["  a b  ", "\t\nx\r\n", "", "   ", "\u{a0}y\u{3000}", "z"] {
        assert_eq!(trim(s), s.trim());
    }
}

/// Creation overrides replace only the given defaults.
#[test]
fn permission_overrides() {
    let none = CreateInboxReq { name: "b".to_string(), password: "p".to_string(), permissions: None };
    assert_eq!(build_permissions(&none), VaultPermissions::default());
    let o = PermissionOverrides {
        allow_subfolders: Some(true),
        allow_upload: None,
        allow_download: Some(false),
        allow_list: None,
        allow_delete: None,
        allow_metadata: None,
        allow_lock_unlock: Some(false),
    };
    let req = CreateInboxReq { name: "b".to_string(), password: "p".to_string(), permissions: Some(o) };
    let p = build_permissions(&req);
    let mut expected = VaultPermissions::default();
    expected.allow_subfolders = true;
    expected.allow_download = false;
    expected.allow_lock_unlock = false;
    assert_eq!(p, expected);
}

/// Download names: the recorded base name, else the payload name without `.age`.
#[test]
fn download_names() {
    assert_eq!(resolve_download_name(Some("report.pdf".to_string()), "sub/drop-1.age"), "report.pdf");
    assert_eq!(resolve_download_name(None, "sub/drop-1.age"), "drop-1");
    assert_eq!(fallback_download_filename("a/b.age.age"), "b");
    assert_eq!(raw_download_filename("sub/drop-1.age"), "drop-1.age");
    assert_eq!(attachment_disposition("r.pdf"), "attachment; filename=\"r.pdf\"");
    let (name, size) = download_metadata_info(Some("../../etc/passwd".to_string()), Some(12));
    assert_eq!(name.as_deref(), Some("passwd"));
    assert_eq!(size, Some(12));
}

/// The walk skips hidden entries and builds relative paths.
#[test]
fn walk_steps() {
    assert!(matches!(walk_step("", ".inbox-age.config", false), WalkStep::Skip));
    match walk_step("", "drop.age", false) {
        WalkStep::File(p) => assert_eq!(p, "drop.age"),
        _ => panic!("expected a file"),
    }
    match walk_step("sub", "inner", true) {
        WalkStep::Descend(p) => assert_eq!(p, "sub/inner"),
        _ => panic!("expected a directory"),
    }
}

/// Listing entries.
#[test]
fn listing_entries() {
    assert!(is_listed_path("sub/drop.age"));
    assert!(!is_listed_path("sub/drop.meta.age"));
    assert!(!is_listed_path("drop.age.tmp"));
    let f = listed_file(
        "drop.age".to_string(),
        42,
        SidecarRead::Read(Some("dir/a.txt".to_string()), Some("web".to_string())),
    )
    .unwrap();
    assert_eq!((f.path.as_str(), f.size), ("drop.age", 42));
    assert_eq!(f.filename.as_deref(), Some("a.txt"));
    assert_eq!(f.origin.as_deref(), Some("web"));
    let f = listed_file("drop.age".to_string(), 7, SidecarRead::Absent).unwrap();
    assert_eq!((f.path.as_str(), f.size), ("drop.age", 7));
    assert!(f.filename.is_none() && f.origin.is_none());
    let e = refusal(listed_file("drop.age".to_string(), 7, SidecarRead::Failed("bad sidecar".to_string())));
    assert_eq!((e.status, e.message.as_str()), (500, "bad sidecar"));
    assert!(raw_listed_file("drop.age".to_string(), 7, false).is_none());
    assert_eq!(raw_listed_file("drop.age".to_string(), 7, true).unwrap().size, 7);
    let e = listing_size_error("drop.age", "gone");
    assert_eq!(e.status, 500);
    assert_eq!(e.message, "Failed to read encrypted file metadata for 'drop.age': gone");
}

/// CORS settings read from the environment.
#[test]
fn cors_value_settings() {
    assert_eq!(env_value(Some("  x  ".to_string())).as_deref(), Some("x"));
    assert_eq!(env_value(Some("   ".to_string())), None);
    assert_eq!(env_value(None), None);
    assert_eq!(parse_csv(" a, ,b ,,c"), vec!["a".to_string(), "b".to_string(), "c".to_string()]);
    assert!(parse_csv("").is_empty());
    for yes in ["1", "true", "TRUE", "Yes", "on"] {
        assert!(parse_bool(yes));
    }
    for no in ["0", "false", "", "y", "onn"] {
        assert!(!parse_bool(no));
    }
    assert!(matches!(cors_list("*", CorsItem::Method), CorsList::Any));
    match cors_list("GET, POST", CorsItem::Method) {
        CorsList::Items(v) => assert_eq!(v, vec!["GET".to_string(), "POST".to_string()]),
        CorsList::Any => panic!("expected items"),
    }
    match cors_list("GET, B@D, POST", CorsItem::Method) {
        CorsList::Items(v) => assert_eq!(v, vec!["GET".to_string(), "POST".to_string()]),
        CorsList::Any => panic!("expected items"),
    }
    match cors_list("content-type, bad header", CorsItem::Header) {
        CorsList::Items(v) => assert_eq!(v, vec!["content-type".to_string()]),
        CorsList::Any => panic!("expected items"),
    }
    assert_eq!(exposed_headers("x-a, bad header, x-b"), vec!["x-a".to_string(), "x-b".to_string()]);
    assert_eq!(cors_max_age("600"), Some(600));
    assert_eq!(cors_max_age("ten"), None);
}

/// Lock answers: locked when a session was removed, 404 otherwise.
#[test]
fn lock_answers() {
    assert_eq!(lock_answer("box", true).unwrap().message, "Vault box locked");
    let e = refusal(lock_answer("box", false));
    assert_eq!((e.status, e.message.as_str()), (404, "Vault not unlocked"));
}

/// Non-file fields are limited to 64 KiB.
#[test]
fn field_size_limit() {
    assert!(check_field_size("note", 65536).is_ok());
    let e = refusal(check_field_size("note", 65537));
    assert_eq!((e.status, e.message.as_str()), (413, "Field 'note' exceeds the 64KB limit"));
    let e = invalid_multipart("bad boundary");
    assert_eq!((e.status, e.message.as_str()), (400, "Invalid multipart: bad boundary"));
    assert_eq!(upload_size_limit("1048576"), Some(1_048_576));
    assert_eq!(upload_size_limit("big"), None);
}

/// The metadata endpoint reads the payload's sidecar and reports the ciphertext size.
#[test]
fn metadata_endpoint_decisions() {
    assert_eq!(metadata_target("v/sub/drop-1.age").unwrap(), "v/sub/drop-1.meta.age");
    let e = refusal(metadata_target("v/sub/"));
    assert_eq!((e.status, e.message.as_str()), (400, "Invalid encrypted file path"));
    let e = refusal(check_metadata_exists(false));
    assert_eq!((e.status, e.message.as_str()), (404, "Metadata not found"));
    let mut m = FileMetadata::default();
    m.filename = Some("a.txt".to_string());
    m.filesize = Some(5);
    let answer = metadata_answer(m, 250);
    assert_eq!(answer.filesize, Some(250));
    assert_eq!(answer.filename.as_deref(), Some("a.txt"));
    let e = delete_failed();
    assert_eq!((e.status, e.message.as_str()), (500, "Failed to delete file"));
    assert_eq!(unsatisfiable_body(), "Range not satisfiable");
}

/// Listings show the encrypted payloads only, in walk order.
#[test]
fn listing_selection() {
    let files: Vec<String> = ["b.age", "b.meta.age", "notes.txt", "sub/a.age", "a.age.tmp"]
        .iter()
        .map(|s| s.to_string())
        .collect();
    assert_eq!(select_listed(&files), vec!["b.age".to_string(), "sub/a.age".to_string()]);
    assert!(select_listed(&Vec::new()).is_empty());
}

/// Only valid origins are allowed; none valid means no CORS at all.
#[test]
fn cors_origins() {
    assert!(allowed_origins(None).is_none());
    assert!(matches!(allowed_origins(Some("*".to_string())), Some(CorsList::Any)));
    match allowed_origins(Some("http://a.example, bad\u{1}origin, https://b.example".to_string())) {
        Some(CorsList::Items(v)) => {
            assert_eq!(v, vec!["http://a.example".to_string(), "https://b.example".to_string()])
        }
        _ => panic!("expected the valid origins"),
    }
    assert!(allowed_origins(Some("bad\u{7f}".to_string())).is_none());
    assert!(allowed_origins(Some(" , ".to_string())).is_none());
}

/// The CORS settings as a whole: nothing without a valid origin; lists keep valid items only.
#[test]
fn cors_settings_from_environment() {
    assert!(cors_settings(None, None, None, None, None, None).is_none());
    assert!(cors_settings(Some("  ".to_string()), None, None, None, None, None).is_none());
    assert!(cors_settings(Some("bad\u{1}".to_string()), None, None, None, None, None).is_none());
    let c = cors_settings(
        Some(" https://a.example ".to_string()),
        Some("GET, B@D".to_string()),
        Some("*".to_string()),
        Some("x-a, bad header".to_string()),
        Some("Yes".to_string()),
        Some("600".to_string()),
    )
    .unwrap();
    assert!(matches!(&c.origins, CorsList::Items(v) if v == &vec!["https://a.example".to_string()]));
    assert!(matches!(&c.methods, Some(CorsList::Items(v)) if v == &vec!["GET".to_string()]));
    assert!(matches!(c.headers, Some(CorsList::Any)));
    assert_eq!(c.expose_headers, vec!["x-a".to_string()]);
    assert!(c.allow_credentials);
    assert_eq!(c.max_age, Some(600));
    let c = cors_settings(Some("*".to_string()), Some("B@D".to_string()), None, None, Some("no".to_string()), Some("x".to_string())).unwrap();
    assert!(matches!(c.origins, CorsList::Any));
    assert!(c.methods.is_none() && c.headers.is_none() && c.expose_headers.is_empty());
    assert!(!c.allow_credentials);
    assert_eq!(c.max_age, None);
}
