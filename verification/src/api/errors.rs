use vstd::prelude::*;
use vstd::string::StringExecFns;

use crate::errors::{error_text, InboxCoreError};

verus! {

/// An HTTP error answer: a status code and the message of its `{ "error": ... }` body.
#[derive(Debug)]
pub struct ApiError {
    pub status: u16,
    pub message: String,
}

/// An error answer with the given status and message.
pub open spec fn api_error(e: ApiError, status: u16, message: Seq<char>) -> bool {
    e.status == status && e.message@ == message
}

/// Builds an error answer.
pub fn make_error(status: u16, message: &str) -> (e: ApiError)
    ensures
        api_error(e, status, message@),
{
    ApiError { status, message: String::from_str(message) }
}

/// `403 Permission denied for this operation`.
pub fn permission_denied() -> (e: ApiError)
    ensures
        api_error(e, 403, "Permission denied for this operation"@),
{
    make_error(403, "Permission denied for this operation")
}

/// A core error that carries its own message (I/O, crypto, serialization), and that message.
pub open spec fn carried_message(e: InboxCoreError) -> Option<Seq<char>> {
    match e {
        InboxCoreError::Io(m) => Some(m@),
        InboxCoreError::Crypto(m) => Some(m@),
        InboxCoreError::Serialize(m) => Some(m@),
        _ => None,
    }
}

/// The answer to a core error that no endpoint maps specially: `500` with the error's own
/// message when it carries one, else its text.
pub open spec fn internal_error_answer(e: InboxCoreError) -> Seq<char> {
    match carried_message(e) {
        Some(m) => m,
        None => error_text(e),
    }
}

fn internal_error(e: InboxCoreError) -> (r: ApiError)
    ensures
        api_error(r, 500, internal_error_answer(e)),
{
    match e {
        InboxCoreError::Io(m) => ApiError { status: 500, message: m },
        InboxCoreError::Crypto(m) => ApiError { status: 500, message: m },
        InboxCoreError::Serialize(m) => ApiError { status: 500, message: m },
        other => ApiError { status: 500, message: other.message() },
    }
}

/// The answer when reading a vault's config fails: a missing config is `404 Vault config
/// missing`, a config without public key `500 Invalid config`, anything else `500`.
pub open spec fn config_error_answer(r: ApiError, e: InboxCoreError) -> bool {
    match e {
        InboxCoreError::VaultConfigMissing => api_error(r, 404, "Vault config missing"@),
        InboxCoreError::InvalidConfig => api_error(r, 500, "Invalid config"@),
        _ => api_error(r, 500, internal_error_answer(e)),
    }
}

/// How reading a vault's config fails an endpoint (see `config_error_answer`).
pub fn config_read_error(e: InboxCoreError) -> (r: ApiError)
    ensures
        config_error_answer(r, e),
{
    match e {
        InboxCoreError::VaultConfigMissing => make_error(404, "Vault config missing"),
        InboxCoreError::InvalidConfig => make_error(500, "Invalid config"),
        other => internal_error(other),
    }
}

/// How vault creation fails `POST /inbox`: `400` for an invalid name, `409` when the vault
/// exists, `500` otherwise.
pub fn create_inbox_error(e: InboxCoreError) -> (r: ApiError)
    ensures
        match e {
            InboxCoreError::InvalidName => api_error(r, 400, "Invalid vault name"@),
            InboxCoreError::VaultExists => api_error(r, 409, "Vault already exists"@),
            _ => api_error(r, 500, internal_error_answer(e)),
        },
{
    match e {
        InboxCoreError::InvalidName => make_error(400, "Invalid vault name"),
        InboxCoreError::VaultExists => make_error(409, "Vault already exists"),
        other => internal_error(other),
    }
}

/// How locking fails `POST /inbox/{name}/lock`: `400` for an invalid name, `404` for a
/// missing vault, `500` otherwise.
pub fn lock_error(e: InboxCoreError) -> (r: ApiError)
    ensures
        match e {
            InboxCoreError::InvalidName => api_error(r, 400, "Invalid vault name"@),
            InboxCoreError::VaultNotFound => api_error(r, 404, "Vault not found"@),
            _ => api_error(r, 500, internal_error_answer(e)),
        },
{
    match e {
        InboxCoreError::InvalidName => make_error(400, "Invalid vault name"),
        InboxCoreError::VaultNotFound => make_error(404, "Vault not found"),
        other => internal_error(other),
    }
}

/// How unlocking fails `POST /inbox/{name}/unlock`: as locking, and `401 Invalid password`
/// for a wrong password.
pub fn unlock_error(e: InboxCoreError) -> (r: ApiError)
    ensures
        match e {
            InboxCoreError::InvalidName => api_error(r, 400, "Invalid vault name"@),
            InboxCoreError::VaultNotFound => api_error(r, 404, "Vault not found"@),
            InboxCoreError::InvalidPassword => api_error(r, 401, "Invalid password"@),
            _ => api_error(r, 500, internal_error_answer(e)),
        },
{
    match e {
        InboxCoreError::InvalidName => make_error(400, "Invalid vault name"),
        InboxCoreError::VaultNotFound => make_error(404, "Vault not found"),
        InboxCoreError::InvalidPassword => make_error(401, "Invalid password"),
        other => internal_error(other),
    }
}

} // verus!
