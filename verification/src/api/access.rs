use vstd::prelude::*;

use age::x25519::Identity;

use crate::api::errors::{api_error, config_error_answer, config_read_error, make_error, permission_denied, ApiError};
use crate::config::{VaultConfig, VaultPermissions};
use crate::errors::{error_text, InboxCoreError};
use crate::paths::{is_payload_path, payload_path};
use crate::crypto::parsed_identity;
use crate::sessions::{
    get_unlocked_identity_at, session_secret, session_status, SessionStatus, UnlockedVaults,
};
use crate::validation::{is_valid_name, is_valid_subpath, valid_name, valid_subpath};

verus! {

/// An operation that a vault's permissions gate.
#[derive(Clone, Copy, Debug, PartialEq, Eq, Structural)]
pub enum Operation {
    Upload,
    Download,
    List,
    Delete,
    Metadata,
    LockUnlock,
}

/// Whether the permissions allow an operation.
pub open spec fn allows(p: VaultPermissions, op: Operation) -> bool {
    match op {
        Operation::Upload => p.allow_upload,
        Operation::Download => p.allow_download,
        Operation::List => p.allow_list,
        Operation::Delete => p.allow_delete,
        Operation::Metadata => p.allow_metadata,
        Operation::LockUnlock => p.allow_lock_unlock,
    }
}

/// Whether the permissions allow an operation.
pub fn permits(p: &VaultPermissions, op: Operation) -> (b: bool)
    ensures
        b == allows(*p, op),
{
    match op {
        Operation::Upload => p.allow_upload,
        Operation::Download => p.allow_download,
        Operation::List => p.allow_list,
        Operation::Delete => p.allow_delete,
        Operation::Metadata => p.allow_metadata,
        Operation::LockUnlock => p.allow_lock_unlock,
    }
}

/// `400 Invalid vault name` unless the name is valid.
pub fn check_vault_name(name: &str) -> (r: Result<(), ApiError>)
    ensures
        valid_name(name@) ==> r is Ok,
        !valid_name(name@) ==> (r matches Err(e) && api_error(e, 400, "Invalid vault name"@)),
{
    if !is_valid_name(name) {
        return Err(make_error(400, "Invalid vault name"));
    }
    Ok(())
}

/// `400 Invalid name or path` unless both the vault name and the subpath are valid.
pub fn check_name_and_path(name: &str, path: &str) -> (r: Result<(), ApiError>)
    ensures
        valid_name(name@) && valid_subpath(path@) ==> r is Ok,
        !(valid_name(name@) && valid_subpath(path@)) ==> (r matches Err(e) && api_error(
            e,
            400,
            "Invalid name or path"@,
        )),
{
    if !is_valid_name(name) || !is_valid_subpath(path) {
        return Err(make_error(400, "Invalid name or path"));
    }
    Ok(())
}

/// The endpoints that take the path of an encrypted payload.
#[derive(Clone, Copy, Debug, PartialEq, Eq, Structural)]
pub enum PayloadEndpoint {
    /// `GET /inbox/{name}/download/{path}`
    Download,
    /// `GET /inbox/{name}/metadata/{path}`
    Metadata,
    /// `GET /inbox/{name}/raw/download/{path}`
    RawDownload,
}

/// The message with which an endpoint refuses a path that is not an encrypted payload.
pub open spec fn not_payload_text(endpoint: PayloadEndpoint) -> Seq<char> {
    match endpoint {
        PayloadEndpoint::Download => "Path must point to an encrypted file (.age). Use /metadata for metadata."@,
        PayloadEndpoint::Metadata => "Path must point to an encrypted file (.age), not a metadata sidecar"@,
        PayloadEndpoint::RawDownload => "Path must point to an encrypted file (.age)."@,
    }
}

/// The checks on the path segments of a payload endpoint: `400 Invalid name or path` for an
/// invalid name or subpath, then `400` unless the path ends in `.age` and not in `.meta.age`.
pub fn check_payload_request(name: &str, path: &str, endpoint: PayloadEndpoint) -> (r: Result<
    (),
    ApiError,
>)
    ensures
        !(valid_name(name@) && valid_subpath(path@)) ==> (r matches Err(e) && api_error(
            e,
            400,
            "Invalid name or path"@,
        )),
        valid_name(name@) && valid_subpath(path@) && !payload_path(path@) ==> (r matches Err(e)
            && api_error(e, 400, not_payload_text(endpoint))),
        valid_name(name@) && valid_subpath(path@) && payload_path(path@) ==> r is Ok,
{
    check_name_and_path(name, path)?;
    if !is_payload_path(path) {
        return Err(
            match endpoint {
                PayloadEndpoint::Download => make_error(
                    400,
                    "Path must point to an encrypted file (.age). Use /metadata for metadata.",
                ),
                PayloadEndpoint::Metadata => make_error(
                    400,
                    "Path must point to an encrypted file (.age), not a metadata sidecar",
                ),
                PayloadEndpoint::RawDownload => make_error(
                    400,
                    "Path must point to an encrypted file (.age).",
                ),
            },
        );
    }
    Ok(())
}

/// `404 Vault not found` unless the vault directory exists.
pub fn check_vault_exists(vault_exists: bool) -> (r: Result<(), ApiError>)
    ensures
        vault_exists ==> r is Ok,
        !vault_exists ==> (r matches Err(e) && api_error(e, 404, "Vault not found"@)),
{
    if !vault_exists {
        return Err(make_error(404, "Vault not found"));
    }
    Ok(())
}

/// `409 Vault already exists` when the vault directory exists.
pub fn check_vault_absent(vault_exists: bool) -> (r: Result<(), ApiError>)
    ensures
        !vault_exists ==> r is Ok,
        vault_exists ==> (r matches Err(e) && api_error(e, 409, "Vault already exists"@)),
{
    if vault_exists {
        return Err(make_error(409, "Vault already exists"));
    }
    Ok(())
}

/// `404 File not found` unless the file exists.
pub fn check_file_exists(file_exists: bool) -> (r: Result<(), ApiError>)
    ensures
        file_exists ==> r is Ok,
        !file_exists ==> (r matches Err(e) && api_error(e, 404, "File not found"@)),
{
    if !file_exists {
        return Err(make_error(404, "File not found"));
    }
    Ok(())
}

/// Reading the vault's config and checking that it allows `op`: the config error's answer
/// (see `config_read_error`), or `403 Permission denied for this operation`.
pub fn check_config_allows(config: Result<VaultConfig, InboxCoreError>, op: Operation) -> (r:
    Result<VaultConfig, ApiError>)
    ensures
        match config {
            Err(e) => r matches Err(a) && config_error_answer(a, e),
            Ok(c) => if allows(c.permissions, op) {
                r matches Ok(rc) && rc.public_key@ == c.public_key@ && rc.permissions
                    == c.permissions
            } else {
                r matches Err(a) && api_error(a, 403, "Permission denied for this operation"@)
            },
        },
{
    let config = match config {
        Ok(c) => c,
        Err(e) => {
            return Err(config_read_error(e));
        },
    };
    if !permits(&config.permissions, op) {
        return Err(permission_denied());
    }
    Ok(config)
}

/// The answer of a read endpoint for a vault without a live session: `401 Vault is locked`
/// when there is no session, `401 Vault unlock expired` when it has run out.
pub open spec fn session_refusal(r: ApiError, status: SessionStatus) -> bool {
    match status {
        SessionStatus::Locked => api_error(r, 401, "Vault is locked"@),
        SessionStatus::Expired => api_error(r, 401, "Vault unlock expired"@),
        SessionStatus::Active => false,
    }
}

/// Looks up the session of `name` at `now` without changing the sessions (as listing does):
/// the identity that age parses from the session's secret key when it is live, else the
/// refusal.
pub fn check_session(unlocked_vaults: &UnlockedVaults, name: &str, now: u64) -> (r: Result<
    Identity,
    ApiError,
>)
    ensures
        session_status(unlocked_vaults@, name@, now) == SessionStatus::Active ==> r
            == Ok::<Identity, ApiError>(parsed_identity(session_secret(unlocked_vaults@, name@))),
        session_status(unlocked_vaults@, name@, now) != SessionStatus::Active ==> (r matches Err(
            e,
        ) && session_refusal(e, session_status(unlocked_vaults@, name@, now))),
{
    match unlocked_vaults.status_at(name, now) {
        SessionStatus::Locked => Err(make_error(401, "Vault is locked")),
        SessionStatus::Expired => Err(make_error(401, "Vault unlock expired")),
        SessionStatus::Active => match unlocked_vaults.identity_of(name) {
            Some(id) => Ok(id),
            None => Err(make_error(401, "Vault is locked")),
        },
    }
}

/// Takes the identity of `name`'s session at `now` for a decrypting read (download,
/// metadata): as `check_session`, except that an expired session is removed.
pub fn take_session(unlocked_vaults: &mut UnlockedVaults, name: &str, now: u64) -> (r: Result<
    Identity,
    ApiError,
>)
    ensures
        session_status(old(unlocked_vaults)@, name@, now) == SessionStatus::Active ==> r
            == Ok::<Identity, ApiError>(parsed_identity(session_secret(old(unlocked_vaults)@, name@)))
            && final(unlocked_vaults)@ == old(unlocked_vaults)@,
        session_status(old(unlocked_vaults)@, name@, now) == SessionStatus::Locked ==> (r matches Err(
            e,
        ) && session_refusal(e, SessionStatus::Locked))
            && final(unlocked_vaults)@ == old(unlocked_vaults)@,
        session_status(old(unlocked_vaults)@, name@, now) == SessionStatus::Expired ==> (r matches Err(
            e,
        ) && session_refusal(e, SessionStatus::Expired))
            && final(unlocked_vaults)@ == old(unlocked_vaults)@.remove(name@),
{
    match get_unlocked_identity_at(unlocked_vaults, name, now) {
        Ok(id) => Ok(id),
        Err(InboxCoreError::VaultUnlockExpired) => Err(make_error(401, "Vault unlock expired")),
        Err(_) => Err(make_error(401, "Vault is locked")),
    }
}

/// Deleting through the decrypting endpoint needs a session entry (its expiry is not looked
/// at): `403 Vault is locked` otherwise.
pub fn check_delete_session(unlocked_vaults: &UnlockedVaults, name: &str) -> (r: Result<
    (),
    ApiError,
>)
    ensures
        unlocked_vaults@.contains_key(name@) ==> r is Ok,
        !unlocked_vaults@.contains_key(name@) ==> (r matches Err(e) && api_error(
            e,
            403,
            "Vault is locked"@,
        )),
{
    if !unlocked_vaults.contains_key(name) {
        return Err(make_error(403, "Vault is locked"));
    }
    Ok(())
}

/// Whether one path lies under another, component-wise (std's `Path::starts_with`).
pub uninterp spec fn path_within(path: Seq<char>, base: Seq<char>) -> bool;

/// Calls std's `Path::starts_with`; the outcome is named, not stated.
#[verifier::external_body]
fn path_starts_with(path: &str, base: &str) -> (b: bool)
    ensures
        b == path_within(path@, base@),
{
    std::path::Path::new(path).starts_with(base)
}

/// `400 Invalid path` unless the file path lies inside the vault directory.
pub fn check_inside_vault(vault_dir: &str, file_path: &str) -> (r: Result<(), ApiError>)
    ensures
        path_within(file_path@, vault_dir@) ==> r is Ok,
        !path_within(file_path@, vault_dir@) ==> (r matches Err(e) && api_error(
            e,
            400,
            "Invalid path"@,
        )),
{
    if !path_starts_with(file_path, vault_dir) {
        return Err(make_error(400, "Invalid path"));
    }
    Ok(())
}

/// `400 Passphrase encryption not supported`: the answer to a payload that age encrypted
/// with a passphrase (scrypt) instead of to the vault's recipient.
pub fn passphrase_refused() -> (e: ApiError)
    ensures
        api_error(e, 400, "Passphrase encryption not supported"@),
{
    make_error(400, "Passphrase encryption not supported")
}

} // verus!
