use vstd::prelude::*;
use vstd::string::StringExecFns;

verus! {

/// Errors of the inbox core operations.
#[derive(Debug, Clone)]
pub enum InboxCoreError {
    InvalidName,
    InvalidSubpath,
    VaultExists,
    VaultNotFound,
    VaultConfigMissing,
    InvalidConfig,
    InvalidPassword,
    VaultLocked,
    VaultUnlockExpired,
    Io(String),
    Crypto(String),
    Serialize(String),
}

/// The human-readable text of an error (what its `Display` shows).
pub open spec fn error_text(e: InboxCoreError) -> Seq<char> {
    match e {
        InboxCoreError::InvalidName => "Invalid vault name"@,
        InboxCoreError::InvalidSubpath => "Invalid subpath"@,
        InboxCoreError::VaultExists => "Vault already exists"@,
        InboxCoreError::VaultNotFound => "Vault not found"@,
        InboxCoreError::VaultConfigMissing => "Vault config missing"@,
        InboxCoreError::InvalidConfig => "Invalid vault config"@,
        InboxCoreError::InvalidPassword => "Invalid password"@,
        InboxCoreError::VaultLocked => "Vault is locked"@,
        InboxCoreError::VaultUnlockExpired => "Vault unlock expired"@,
        InboxCoreError::Io(msg) => "I/O error: "@ + msg@,
        InboxCoreError::Crypto(msg) => "Crypto error: "@ + msg@,
        InboxCoreError::Serialize(msg) => "Serialization error: "@ + msg@,
    }
}

/// A `String` holding the text of a literal.
pub fn text(s: &str) -> (r: String)
    ensures
        r@ == s@,
{
    String::from_str(s)
}

/// `prefix` followed by `rest`.
pub fn joined(prefix: &str, rest: &str) -> (r: String)
    ensures
        r@ == prefix@ + rest@,
{
    let mut r = String::from_str(prefix);
    r.append(rest);
    r
}

impl InboxCoreError {
    /// The human-readable text of the error.
    pub fn message(&self) -> (m: String)
        ensures
            m@ == error_text(*self),
    {
        match self {
            InboxCoreError::InvalidName => text("Invalid vault name"),
            InboxCoreError::InvalidSubpath => text("Invalid subpath"),
            InboxCoreError::VaultExists => text("Vault already exists"),
            InboxCoreError::VaultNotFound => text("Vault not found"),
            InboxCoreError::VaultConfigMissing => text("Vault config missing"),
            InboxCoreError::InvalidConfig => text("Invalid vault config"),
            InboxCoreError::InvalidPassword => text("Invalid password"),
            InboxCoreError::VaultLocked => text("Vault is locked"),
            InboxCoreError::VaultUnlockExpired => text("Vault unlock expired"),
            InboxCoreError::Io(msg) => joined("I/O error: ", msg.as_str()),
            InboxCoreError::Crypto(msg) => joined("Crypto error: ", msg.as_str()),
            InboxCoreError::Serialize(msg) => joined("Serialization error: ", msg.as_str()),
        }
    }
}

} // verus!
