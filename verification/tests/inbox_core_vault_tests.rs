use age_inbox::config::{
    finish_vault_config, render_permissions_json, render_vault_config, scan_vault_config,
    VaultConfig, VaultPermissions,
};
use age_inbox::errors::InboxCoreError;
use age_inbox::metadata::FileMetadata;
use age_inbox::vault::prepare_vault_creation;

// ============================================================================
// File metadata tests
// ============================================================================

/// Test: Default FileMetadata has all fields as None.
#[test]
fn test_file_metadata_default() {
    let metadata = FileMetadata::default();

    assert!(metadata.filename.is_none(), "Default filename should be None");
    assert!(metadata.origin.is_none(), "Default origin should be None");
    assert!(metadata.filesize.is_none(), "Default filesize should be None");
    assert!(metadata.extended.is_empty(), "Default extended should be empty");
}

// ============================================================================
// Permissions tests
// ============================================================================

/// Test: Default permissions allow all operations.
#[test]
fn test_vault_permissions_default() {
    let perms = VaultPermissions::default();

    assert!(perms.allow_upload, "Default should allow upload");
    assert!(perms.allow_download, "Default should allow download");
    assert!(perms.allow_delete, "Default should allow delete");
    assert!(perms.allow_list, "Default should allow list");
    assert!(perms.allow_metadata, "Default should allow metadata");
    assert!(perms.allow_lock_unlock, "Default should allow lock/unlock");
    assert!(!perms.allow_subfolders, "Default should not allow subfolders");
}

/// Test: Permissions can be cloned.
#[test]
fn test_vault_permissions_clone() {
    let mut perms1 = VaultPermissions::default();
    perms1.allow_download = false;

    let perms2 = perms1.clone();

    assert_eq!(perms1.allow_download, perms2.allow_download);
    assert_eq!(perms1.allow_upload, perms2.allow_upload);
}

// ============================================================================
// Config file format
// ============================================================================

fn sample_config() -> VaultConfig {
    VaultConfig {
        public_key: "age1examplekey".to_string(),
        permissions: VaultPermissions::default(),
    }
}

/// The permissions JSON is compact, fields in declaration order.
#[test]
fn permissions_json_exact_text() {
    let json = render_permissions_json(&VaultPermissions::default());
    assert_eq!(
        json,
        "{\"allow_subfolders\":false,\"allow_upload\":true,\"allow_download\":true,\"allow_list\":true,\"allow_delete\":true,\"allow_metadata\":true,\"allow_lock_unlock\":true}"
    );
}

/// The config file holds the inbox name, the public key and the permissions, one per line.
#[test]
fn config_file_exact_text() {
    let text = render_vault_config("my_inbox", &sample_config());
    let expected = format!(
        "inbox-name: my_inbox\npublic-key: age1examplekey\npermissions: {}\n",
        render_permissions_json(&VaultPermissions::default())
    );
    assert_eq!(text, expected);
    assert!(text.contains("my_inbox"));
}

/// What is written is read back: the key and one permissions line with the written JSON.
#[test]
fn config_scan_reads_back_write() {
    let mut config = sample_config();
    config.permissions.allow_subfolders = true;
    config.permissions.allow_delete = false;
    let text = render_vault_config("box", &config);
    let scan = scan_vault_config(&text);
    assert_eq!(scan.public_key, "age1examplekey");
    assert_eq!(scan.permissions, vec![render_permissions_json(&config.permissions)]);
}

/// Lines the reader does not know are skipped; the last key line wins; CRLF endings are read.
#[test]
fn config_scan_skips_unknown_lines() {
    let scan = scan_vault_config("junk\r\npublic-key: first\r\npublic-key: second\r\nother: x\r\n");
    assert_eq!(scan.public_key, "second");
    assert!(scan.permissions.is_empty());
}

/// Every leading copy of the prefix is removed, as `trim_start_matches` does.
#[test]
fn config_scan_trims_repeated_prefix() {
    let scan = scan_vault_config("public-key: public-key: k");
    assert_eq!(scan.public_key, "k");
}

/// A config without a public key is invalid.
#[test]
fn config_without_key_is_invalid() {
    let r = finish_vault_config(String::new(), &[]);
    assert!(matches!(r, Err(InboxCoreError::InvalidConfig)));
}

/// Permissions fall back to the defaults, and the last line that parsed wins.
#[test]
fn config_permissions_fall_back_and_last_wins() {
    let c = finish_vault_config("k".to_string(), &[None]).unwrap();
    assert_eq!(c.permissions, VaultPermissions::default());
    assert_eq!(c.public_key, "k");

    let mut custom = VaultPermissions::default();
    custom.allow_upload = false;
    let c = finish_vault_config("k".to_string(), &[Some(custom), None]).unwrap();
    assert_eq!(c.permissions, custom);
}

// ============================================================================
// Vault creation
// ============================================================================

/// Creation refuses invalid names and existing vaults before deriving anything.
#[test]
fn creation_refusals() {
    let p = VaultPermissions::default();
    assert!(matches!(prepare_vault_creation("a/b", "pw", p, false), Err(InboxCoreError::InvalidName)));
    assert!(matches!(prepare_vault_creation("", "pw", p, false), Err(InboxCoreError::InvalidName)));
    assert!(matches!(prepare_vault_creation("box", "pw", p, true), Err(InboxCoreError::VaultExists)));
}

/// Creation stores the derived public key and the requested permissions, and renders the file.
#[test]
fn creation_builds_config() {
    let mut p = VaultPermissions::default();
    p.allow_subfolders = true;
    let c = prepare_vault_creation("my_inbox", "pw", p, false).unwrap();
    let keys = age_inbox::crypto::derive_keys("pw", "my_inbox").unwrap();
    assert_eq!(c.config.public_key, keys.public_key);
    assert_eq!(c.config.permissions, p);
    assert_eq!(c.config_text, render_vault_config("my_inbox", &c.config));
    assert!(c.config_text.contains("my_inbox"));
}
