use age_inbox::config::{VaultConfig, VaultPermissions};
use age_inbox::crypto::derive_keys;
use age_inbox::errors::InboxCoreError;
use age_inbox::sessions::{
    get_unlocked_identity_at, lock_vault, unlock_vault, unlock_vault_at, SessionStatus,
    UnlockedVaults,
};
use age_inbox::vault::prepare_vault_creation;

fn config_for(password: &str, name: &str) -> VaultConfig {
    prepare_vault_creation(name, password, VaultPermissions::default(), false).unwrap().config
}

/// The password a vault was created with unlocks it, until the window ends.
#[test]
fn unlock_with_creation_password() {
    let config = config_for("secret", "box");
    let mut vaults = UnlockedVaults::new();
    let r = unlock_vault_at(&mut vaults, "box", true, Ok(config), "secret", 1_000, 500);
    assert!(r.is_ok());
    assert!(vaults.contains_key("box"));
    assert_eq!(vaults.get("box").unwrap().expires_at, 1_500);
    assert_eq!(vaults.status_at("box", 1_500), SessionStatus::Active);
    assert_eq!(vaults.status_at("box", 1_501), SessionStatus::Expired);
}

/// A wrong password is refused and unlocks nothing.
#[test]
fn unlock_with_wrong_password() {
    let config = config_for("secret", "box");
    let mut vaults = UnlockedVaults::new();
    let r = unlock_vault_at(&mut vaults, "box", true, Ok(config), "other", 0, 10);
    assert!(matches!(r, Err(InboxCoreError::InvalidPassword)));
    assert_eq!(vaults.len(), 0);
}

/// Unlock refuses bad names, missing vaults, unreadable configs and disabled lock/unlock.
#[test]
fn unlock_refusals() {
    let mut vaults = UnlockedVaults::new();
    let config = config_for("secret", "box");
    assert!(matches!(
        unlock_vault_at(&mut vaults, "a/b", true, Ok(config.clone()), "secret", 0, 10),
        Err(InboxCoreError::InvalidName)
    ));
    assert!(matches!(
        unlock_vault_at(&mut vaults, "box", false, Ok(config.clone()), "secret", 0, 10),
        Err(InboxCoreError::VaultNotFound)
    ));
    assert!(matches!(
        unlock_vault_at(&mut vaults, "box", true, Err(InboxCoreError::VaultConfigMissing), "secret", 0, 10),
        Err(InboxCoreError::VaultConfigMissing)
    ));
    let mut disabled = config;
    disabled.permissions.allow_lock_unlock = false;
    match unlock_vault_at(&mut vaults, "box", true, Ok(disabled), "secret", 0, 10) {
        Err(InboxCoreError::Crypto(m)) => assert_eq!(m, "lock/unlock disabled in config"),
        _ => panic!("expected the disabled error"),
    }
    assert_eq!(vaults.len(), 0);
}

/// Locking removes the session and says whether there was one.
#[test]
fn lock_reports_previous_session() {
    let config = config_for("secret", "box");
    let mut vaults = UnlockedVaults::new();
    unlock_vault_at(&mut vaults, "box", true, Ok(config.clone()), "secret", 0, 10).unwrap();
    assert_eq!(lock_vault(&mut vaults, "box", true, Ok(config.clone())).unwrap(), true);
    assert!(!vaults.contains_key("box"));
    assert_eq!(lock_vault(&mut vaults, "box", true, Ok(config.clone())).unwrap(), false);
    assert!(matches!(lock_vault(&mut vaults, "..", true, Ok(config.clone())), Err(InboxCoreError::InvalidName)));
    assert!(matches!(lock_vault(&mut vaults, "box", false, Ok(config)), Err(InboxCoreError::VaultNotFound)));
}

/// The identity is handed out while the session is live; an expired session is removed.
#[test]
fn identity_while_live_then_expired() {
    let config = config_for("secret", "box");
    let keys = derive_keys("secret", "box").unwrap();
    let mut vaults = UnlockedVaults::new();
    assert!(matches!(get_unlocked_identity_at(&mut vaults, "box", 0), Err(InboxCoreError::VaultLocked)));
    unlock_vault_at(&mut vaults, "box", true, Ok(config), "secret", 100, 50).unwrap();
    let id = get_unlocked_identity_at(&mut vaults, "box", 150).unwrap();
    assert_eq!(id.to_public().to_string(), keys.public_key);
    assert!(matches!(
        get_unlocked_identity_at(&mut vaults, "box", 151),
        Err(InboxCoreError::VaultUnlockExpired)
    ));
    assert!(!vaults.contains_key("box"));
    assert!(matches!(get_unlocked_identity_at(&mut vaults, "box", 151), Err(InboxCoreError::VaultLocked)));
}

/// Sessions of different vaults do not touch each other.
#[test]
fn sessions_are_independent() {
    let a = config_for("pa", "vault-a");
    let b = config_for("pb", "vault-b");
    let mut vaults = UnlockedVaults::new();
    unlock_vault_at(&mut vaults, "vault-a", true, Ok(a.clone()), "pa", 0, 100).unwrap();
    unlock_vault_at(&mut vaults, "vault-b", true, Ok(b), "pb", 0, 300).unwrap();
    assert_eq!(vaults.len(), 2);
    lock_vault(&mut vaults, "vault-a", true, Ok(a)).unwrap();
    assert_eq!(vaults.status_at("vault-a", 10), SessionStatus::Locked);
    assert_eq!(vaults.status_at("vault-b", 200), SessionStatus::Active);
}

/// Unlocking again restarts the window.
#[test]
fn relock_then_reunlock() {
    let config = config_for("secret", "box");
    let mut vaults = UnlockedVaults::new();
    unlock_vault_at(&mut vaults, "box", true, Ok(config.clone()), "secret", 0, 10).unwrap();
    lock_vault(&mut vaults, "box", true, Ok(config.clone())).unwrap();
    unlock_vault_at(&mut vaults, "box", true, Ok(config), "secret", 20, 10).unwrap();
    assert_eq!(vaults.get("box").unwrap().expires_at, 30);
}

/// Unlocking on the live clock for a window past the clock's end is refused.
#[test]
fn unlock_window_past_clock_end() {
    let config = config_for("secret", "box");
    let mut vaults = UnlockedVaults::new();
    assert!(unlock_vault(&mut vaults, "box", true, Ok(config.clone()), "secret", 3_600_000).is_ok());
    match unlock_vault(&mut vaults, "box", true, Ok(config), "secret", u64::MAX) {
        Err(InboxCoreError::Crypto(m)) => assert_eq!(m, "unlock window exceeds the session clock"),
        Ok(()) => {
            // the clock read zero milliseconds: the window ends exactly at the clock's end
            assert_eq!(vaults.get("box").unwrap().expires_at, u64::MAX);
        }
        Err(_) => panic!("unexpected error"),
    }
}

/// The session keeps the secret key derived from the password and the vault name.
#[test]
fn unlock_keeps_derived_secret() {
    let config = config_for("secret", "box");
    let keys = derive_keys("secret", "box").unwrap();
    let mut vaults = UnlockedVaults::new();
    unlock_vault_at(&mut vaults, "box", true, Ok(config), "secret", 0, 10).unwrap();
    assert_eq!(vaults.get("box").unwrap().secret.as_str(), keys.secret.as_str());
}

/// Refusals come before the clock: an invalid name is reported whatever the window.
#[test]
fn unlock_checks_before_window() {
    let config = config_for("secret", "box");
    let mut vaults = UnlockedVaults::new();
    assert!(matches!(
        unlock_vault(&mut vaults, "a/b", true, Ok(config.clone()), "secret", u64::MAX),
        Err(InboxCoreError::InvalidName)
    ));
    assert!(matches!(
        unlock_vault(&mut vaults, "box", true, Ok(config), "wrong", u64::MAX),
        Err(InboxCoreError::InvalidPassword)
    ));
    assert_eq!(vaults.len(), 0);
}

/// The identity handed out for a live session is the one of the vault's key.
#[test]
fn session_identity_is_vault_key() {
    let config = config_for("secret", "box");
    let keys = derive_keys("secret", "box").unwrap();
    let mut vaults = UnlockedVaults::new();
    unlock_vault_at(&mut vaults, "box", true, Ok(config), "secret", 0, 10).unwrap();
    let id = vaults.identity_of("box").unwrap();
    assert_eq!(id.to_public().to_string(), keys.public_key);
    assert_eq!(keys.recipient.to_string(), keys.public_key);
    assert!(vaults.identity_of("other").is_none());
}
