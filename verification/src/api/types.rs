use vstd::prelude::*;
use vstd::string::StringExecFns;

use crate::api::errors::{api_error, make_error, ApiError};
use crate::config::{default_permissions, VaultPermissions};

verus! {

/// Per-permission overrides given when creating a vault; `None` keeps the default.
#[derive(Clone, Copy, Debug, PartialEq, Eq, Structural)]
pub struct PermissionOverrides {
    pub allow_subfolders: Option<bool>,
    pub allow_upload: Option<bool>,
    pub allow_download: Option<bool>,
    pub allow_list: Option<bool>,
    pub allow_delete: Option<bool>,
    pub allow_metadata: Option<bool>,
    pub allow_lock_unlock: Option<bool>,
}

/// Body of `POST /inbox`.
#[derive(Debug)]
pub struct CreateInboxReq {
    pub name: String,
    pub password: String,
    pub permissions: Option<PermissionOverrides>,
}

/// Answer of `POST /inbox`.
#[derive(Debug)]
pub struct CreateInboxRes {
    pub success: bool,
    pub public_key: String,
}

/// A plain `{ "message": ... }` answer.
#[derive(Debug)]
pub struct GenericRes {
    pub message: String,
}

/// The `{ "error": ... }` body of an error answer.
#[derive(Debug)]
pub struct ErrorRes {
    pub error: String,
}

/// Body of `POST /inbox/{name}/unlock`.
#[derive(Debug)]
pub struct UnlockReq {
    pub password: String,
}

/// One entry of `GET /inbox/{name}/list`.
#[derive(Debug)]
pub struct ListedFile {
    pub path: String,
    pub filename: Option<String>,
    pub origin: Option<String>,
    pub size: u64,
}

/// One entry of `GET /inbox/{name}/raw/list`.
#[derive(Debug)]
pub struct RawListedFile {
    pub path: String,
    pub size: u64,
}

/// Answer of `GET /inbox/{name}/config`: the vault's public policy.
#[derive(Debug)]
pub struct VaultConfigRes {
    pub permissions: VaultPermissions,
}

/// An override applied to a default.
pub open spec fn overridden(default: bool, o: Option<bool>) -> bool {
    match o {
        Some(v) => v,
        None => default,
    }
}

/// The permissions a creation request asks for: the defaults, with every override given.
pub open spec fn requested_permissions(o: Option<PermissionOverrides>) -> VaultPermissions {
    let d = default_permissions();
    match o {
        None => d,
        Some(c) => VaultPermissions {
            allow_subfolders: overridden(d.allow_subfolders, c.allow_subfolders),
            allow_upload: overridden(d.allow_upload, c.allow_upload),
            allow_download: overridden(d.allow_download, c.allow_download),
            allow_list: overridden(d.allow_list, c.allow_list),
            allow_delete: overridden(d.allow_delete, c.allow_delete),
            allow_metadata: overridden(d.allow_metadata, c.allow_metadata),
            allow_lock_unlock: overridden(d.allow_lock_unlock, c.allow_lock_unlock),
        },
    }
}

/// Builds a vault's permissions from a creation request: supplied fields override the
/// defaults, omitted fields keep them.
pub fn build_permissions(payload: &CreateInboxReq) -> (p: VaultPermissions)
    ensures
        p == requested_permissions(payload.permissions),
{
    let mut permissions = VaultPermissions::default();
    if let Some(custom) = &payload.permissions {
        if let Some(value) = custom.allow_subfolders {
            permissions.allow_subfolders = value;
        }
        if let Some(value) = custom.allow_upload {
            permissions.allow_upload = value;
        }
        if let Some(value) = custom.allow_download {
            permissions.allow_download = value;
        }
        if let Some(value) = custom.allow_list {
            permissions.allow_list = value;
        }
        if let Some(value) = custom.allow_delete {
            permissions.allow_delete = value;
        }
        if let Some(value) = custom.allow_metadata {
            permissions.allow_metadata = value;
        }
        if let Some(value) = custom.allow_lock_unlock {
            permissions.allow_lock_unlock = value;
        }
    }
    permissions
}

/// The answer to a successful vault creation.
pub fn create_inbox_response(public_key: String) -> (r: CreateInboxRes)
    ensures
        r.success,
        r.public_key@ == public_key@,
{
    CreateInboxRes { success: true, public_key }
}

/// `Vault <name> unlocked for 1 hour`.
pub fn unlocked_message(name: &str) -> (r: GenericRes)
    ensures
        r.message@ == "Vault "@ + name@ + " unlocked for 1 hour"@,
{
    let mut m = String::from_str("Vault ");
    m.append(name);
    m.append(" unlocked for 1 hour");
    GenericRes { message: m }
}

/// `Vault <name> locked`.
pub fn locked_message(name: &str) -> (r: GenericRes)
    ensures
        r.message@ == "Vault "@ + name@ + " locked"@,
{
    let mut m = String::from_str("Vault ");
    m.append(name);
    m.append(" locked");
    GenericRes { message: m }
}

/// The answer to a lock that went through: `Vault <name> locked` when a session was
/// removed, `404 Vault not unlocked` when there was none.
pub fn lock_answer(name: &str, was_unlocked: bool) -> (r: Result<GenericRes, ApiError>)
    ensures
        was_unlocked ==> (r matches Ok(g) && g.message@ == "Vault "@ + name@ + " locked"@),
        !was_unlocked ==> (r matches Err(e) && api_error(e, 404, "Vault not unlocked"@)),
{
    if was_unlocked {
        Ok(locked_message(name))
    } else {
        Err(make_error(404, "Vault not unlocked"))
    }
}

/// `File <path> uploaded successfully`.
pub fn uploaded_message(uploaded_path: &str) -> (r: GenericRes)
    ensures
        r.message@ == "File "@ + uploaded_path@ + " uploaded successfully"@,
{
    let mut m = String::from_str("File ");
    m.append(uploaded_path);
    m.append(" uploaded successfully");
    GenericRes { message: m }
}

/// A creation request asks for the defaults wherever it gives no override: with no
/// overrides at all, or with every override left out, it asks for exactly the defaults; and an
/// override that is given is taken as it is.
pub proof fn law_overrides_change_only_their_field(o: PermissionOverrides)
    ensures
        requested_permissions(None) == default_permissions(),
        requested_permissions(
            Some(
                PermissionOverrides {
                    allow_subfolders: None,
                    allow_upload: None,
                    allow_download: None,
                    allow_list: None,
                    allow_delete: None,
                    allow_metadata: None,
                    allow_lock_unlock: None,
                },
            ),
        ) == default_permissions(),
        o.allow_subfolders matches Some(v) ==> requested_permissions(Some(o)).allow_subfolders == v,
        o.allow_upload matches Some(v) ==> requested_permissions(Some(o)).allow_upload == v,
        o.allow_download matches Some(v) ==> requested_permissions(Some(o)).allow_download == v,
        o.allow_list matches Some(v) ==> requested_permissions(Some(o)).allow_list == v,
        o.allow_delete matches Some(v) ==> requested_permissions(Some(o)).allow_delete == v,
        o.allow_metadata matches Some(v) ==> requested_permissions(Some(o)).allow_metadata == v,
        o.allow_lock_unlock matches Some(v) ==> requested_permissions(Some(o)).allow_lock_unlock
            == v,
        o.allow_subfolders is None ==> requested_permissions(Some(o)).allow_subfolders
            == default_permissions().allow_subfolders,
        o.allow_upload is None ==> requested_permissions(Some(o)).allow_upload
            == default_permissions().allow_upload,
        o.allow_download is None ==> requested_permissions(Some(o)).allow_download
            == default_permissions().allow_download,
        o.allow_list is None ==> requested_permissions(Some(o)).allow_list
            == default_permissions().allow_list,
        o.allow_delete is None ==> requested_permissions(Some(o)).allow_delete
            == default_permissions().allow_delete,
        o.allow_metadata is None ==> requested_permissions(Some(o)).allow_metadata
            == default_permissions().allow_metadata,
        o.allow_lock_unlock is None ==> requested_permissions(Some(o)).allow_lock_unlock
            == default_permissions().allow_lock_unlock,
{
}

} // verus!
