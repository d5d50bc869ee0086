use vstd::prelude::*;

use crate::config::{config_file_text, render_vault_config, VaultConfig, VaultPermissions};
use crate::crypto::{
    age_identity_accepts, derivation_succeeds, derive_keys, derived_public_key, held_text,
    recipient_prefix, secret_key_text,
};
use crate::text::starts_with;
use vstd::utf8::encode_utf8;
use crate::errors::InboxCoreError;
use crate::sessions::{
    session_active, session_secret, session_status, unlock_accepts, SessionStatus, UnlockedVault,
};
use crate::validation::{is_valid_name, valid_name};

verus! {

/// What creating a vault writes: its configuration and the text of its config file.
pub struct VaultCreation {
    pub config: VaultConfig,
    pub config_text: String,
}

/// Decides the creation of vault `name`: the name must be valid and no vault directory may
/// exist yet (`vault_exists`); the keypair is derived from the password and the name, and the
/// config (public key and `permissions`) and its file text are returned for writing.
pub fn prepare_vault_creation(
    name: &str,
    password: &str,
    permissions: VaultPermissions,
    vault_exists: bool,
) -> (r: Result<VaultCreation, InboxCoreError>)
    ensures
        !valid_name(name@) ==> r matches Err(InboxCoreError::InvalidName),
        valid_name(name@) && vault_exists ==> r matches Err(InboxCoreError::VaultExists),
        valid_name(name@) && !vault_exists && !derivation_succeeds(password@, name@) ==> r matches Err(
            InboxCoreError::Crypto(_),
        ),
        valid_name(name@) && !vault_exists ==> (derivation_succeeds(password@, name@) <==> encode_utf8(
            password@,
        ).len() <= 0xFFFF_FFFF),
        valid_name(name@) && !vault_exists && encode_utf8(password@).len() <= 0xFFFF_FFFF ==> r is Ok,
        r matches Ok(c) ==> starts_with(c.config.public_key@, recipient_prefix()),
        valid_name(name@) && !vault_exists && derivation_succeeds(password@, name@) ==> (r matches Ok(
            c,
        ) && c.config.public_key@ == derived_public_key(password@, name@)
            && c.config.permissions == permissions && c.config_text@ == config_file_text(
            name@,
            c.config,
        )),
{
    if !is_valid_name(name) {
        return Err(InboxCoreError::InvalidName);
    }
    if vault_exists {
        return Err(InboxCoreError::VaultExists);
    }
    let keys = match derive_keys(password, name) {
        Ok(k) => k,
        Err(e) => {
            return Err(InboxCoreError::Crypto(e));
        },
    };
    let config = VaultConfig { public_key: keys.public_key, permissions };
    let config_text = render_vault_config(name, &config);
    Ok(VaultCreation { config, config_text })
}

/// The password a vault was created with unlocks it: the stored public key is the one that
/// password derives, so unlock accepts it whenever lock/unlock is allowed.
pub proof fn law_creation_password_unlocks(name: Seq<char>, password: Seq<char>, config: VaultConfig)
    requires
        valid_name(name),
        derivation_succeeds(password, name),
        config.public_key@ == derived_public_key(password, name),
        config.permissions.allow_lock_unlock,
    ensures
        unlock_accepts(name, true, Ok(config), password),
{
}

/// Unlock never accepts a password whose derived public key differs from the stored one.
pub proof fn law_wrong_password_refused(
    name: Seq<char>,
    password: Seq<char>,
    vault_exists: bool,
    config: VaultConfig,
)
    requires
        derived_public_key(password, name) != config.public_key@,
    ensures
        !unlock_accepts(name, vault_exists, Ok(config), password),
{
}

/// A session started at `now` for `unlock_for` milliseconds is live at every time up to its end,
/// so reads get the vault's identity, and expired after it.
pub proof fn law_session_lasts_its_window(
    sessions: Map<Seq<char>, UnlockedVault>,
    name: Seq<char>,
    vault: UnlockedVault,
    now: u64,
    unlock_for: u64,
    at: u64,
)
    requires
        now + unlock_for <= u64::MAX,
        vault.expires_at == now + unlock_for,
    ensures
        session_active(sessions.insert(name, vault), name, at) <==> at <= now + unlock_for,
        session_status(sessions.insert(name, vault), name, at) == if at <= now + unlock_for {
            SessionStatus::Active
        } else {
            SessionStatus::Expired
        },
{
}

/// A session started by an accepted unlock keeps the secret key derived from the password and
/// the vault name, which age accepts: while the session is live, reads get the vault's
/// identity.
pub proof fn law_unlocked_session_yields_identity(
    sessions: Map<Seq<char>, UnlockedVault>,
    name: Seq<char>,
    password: Seq<char>,
    vault: UnlockedVault,
    at: u64,
)
    requires
        derivation_succeeds(password, name),
        held_text(vault.secret) == secret_key_text(password, name),
        at <= vault.expires_at,
    ensures
        session_status(sessions.insert(name, vault), name, at) == SessionStatus::Active,
        age_identity_accepts(session_secret(sessions.insert(name, vault), name)),
{
}

/// Locking ends a vault's session at every time.
pub proof fn law_lock_ends_session(sessions: Map<Seq<char>, UnlockedVault>, name: Seq<char>, at: u64)
    ensures
        !session_active(sessions.remove(name), name, at),
{
}

/// Unlocking or locking one vault leaves every other vault's session as it was.
pub proof fn law_sessions_are_independent(
    sessions: Map<Seq<char>, UnlockedVault>,
    name: Seq<char>,
    other: Seq<char>,
    vault: UnlockedVault,
    at: u64,
)
    requires
        name != other,
    ensures
        session_active(sessions.insert(name, vault), other, at) == session_active(sessions, other, at),
        session_active(sessions.remove(name), other, at) == session_active(sessions, other, at),
{
}

} // verus!
