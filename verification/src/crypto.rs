use vstd::prelude::*;
use vstd::string::StringExecFns;
use vstd::utf8::encode_utf8;

use crate::text::starts_with;

use age::x25519::{Identity, Recipient};

verus! {

/// An age X25519 identity (private key), carried through the library unopened.
#[verifier::external_type_specification]
#[verifier::external_body]
pub struct ExIdentity(age::x25519::Identity);

/// An age X25519 recipient (public key), carried through the library unopened.
#[verifier::external_type_specification]
#[verifier::external_body]
pub struct ExRecipient(age::x25519::Recipient);

/// Secret key text kept in a `zeroize::Zeroizing<String>`, which wipes it when it is dropped.
/// (Verus does not take the declaration of `Zeroizing`, whose parameter is bound by a trait of
/// `zeroize`, so the wrapper is held in a private field.)
#[verifier::external_body]
pub struct SecretText {
    text: zeroize::Zeroizing<String>,
}

/// The text that a `SecretText` holds.
pub uninterp spec fn held_text(s: SecretText) -> Seq<char>;

/// Moves a string into `zeroize::Zeroizing::new`, which wipes it when it is dropped; the
/// wrapper holds the string unchanged.
#[verifier::external_body]
pub(crate) fn zeroizing_string(s: String) -> (z: SecretText)
    ensures
        held_text(z) == s@,
{
    SecretText { text: zeroize::Zeroizing::new(s) }
}

/// Reads the string held by a `Zeroizing<String>` (its `Deref`).
#[verifier::external_body]
pub(crate) fn zeroizing_str(z: &SecretText) -> (s: &str)
    ensures
        s@ == held_text(*z),
{
    z.text.as_str()
}

impl SecretText {
    /// The secret text.
    pub fn as_str(&self) -> (s: &str)
        ensures
            s@ == held_text(*self),
    {
        zeroizing_str(self)
    }
}

/// A derived keypair.
pub struct Keys {
    /// Private age identity, for decryption.
    pub identity: Identity,
    /// Public age recipient, for encryption.
    pub recipient: Recipient,
    /// The recipient in its `age1…` text form, as stored in vault configuration.
    pub public_key: String,
    /// The identity's `AGE-SECRET-KEY-1…` text, wiped when dropped.
    pub secret: SecretText,
}

/// The start of every age recipient's text.
pub open spec fn recipient_prefix() -> Seq<char> {
    seq!['a', 'g', 'e', '1']
}

/// The 16-byte Argon2 salt of a vault: the first (up to) 16 bytes of the name, then
/// `i ^ 0xAA` in every position `i` the name does not reach.
pub open spec fn salt_bytes(name: Seq<u8>) -> Seq<u8> {
    Seq::new(16, |i: int| if i < name.len() { name[i] } else { (i as u8) ^ 0xAAu8 })
}

/// The salt of a vault name, taken over its UTF-8 bytes.
pub open spec fn vault_salt(name: Seq<char>) -> Seq<u8> {
    salt_bytes(encode_utf8(name))
}

/// The human-readable part of an age secret key.
pub open spec fn secret_key_hrp() -> Seq<char> {
    seq!['A', 'G', 'E', '-', 'S', 'E', 'C', 'R', 'E', 'T', '-', 'K', 'E', 'Y', '-']
}

/// The 32 bytes that `Argon2::default()` (Argon2id, version 0x13, default cost) writes into a
/// 32-byte buffer for a password and a salt.
pub uninterp spec fn argon2id_output(password: Seq<u8>, salt: Seq<u8>, out_len: nat) -> Seq<u8>;

/// The string that `bech32::encode` produces for a human-readable part and data bytes
/// (the bytes regrouped by `ToBase32`, `Variant::Bech32`).
pub uninterp spec fn bech32_text(hrp: Seq<char>, data: Seq<u8>) -> Seq<char>;

/// The string that std's `str::to_uppercase` produces.
pub uninterp spec fn uppercase_text(s: Seq<char>) -> Seq<char>;

/// Whether age's `Identity::from_str` accepts a string as an X25519 secret key.
pub uninterp spec fn age_identity_accepts(secret: Seq<char>) -> bool;

/// The `age1…` text of the recipient of the identity that `Identity::from_str` parses from
/// a secret-key string.
pub uninterp spec fn age_recipient_text(secret: Seq<char>) -> Seq<char>;

/// A human-readable part that `bech32::encode` accepts (its `check_hrp`): 1 to 83
/// characters, each in the printable ASCII range 33..=126, not mixing lower and upper case.
pub open spec fn bech32_hrp_accepted(hrp: Seq<char>) -> bool {
    &&& 1 <= hrp.len() <= 83
    &&& forall|i: int| 0 <= i < hrp.len() ==> 33 <= #[trigger] (hrp[i] as int) <= 126
    &&& !((exists|i: int| 0 <= i < hrp.len() && 'a' <= #[trigger] hrp[i] && hrp[i] <= 'z') && (
    exists|j: int| 0 <= j < hrp.len() && 'A' <= #[trigger] hrp[j] && hrp[j] <= 'Z'))
}

/// Runs `argon2::Argon2::default().hash_password_into(password, salt, out)`.
/// Per its source: it fails, before writing anything, exactly when the password is longer than
/// `0xFFFF_FFFF` bytes or the salt is shorter than 8 or longer than `0xFFFF_FFFF` bytes (a
/// 32-byte output is within its bounds); otherwise `out` holds the Argon2id output, which
/// depends on the password and salt alone. The error is returned as its `Display` text.
#[verifier::external_body]
fn argon2_hash_password_into(password: &[u8], salt: &[u8], out: &mut [u8; 32]) -> (r: Result<
    (),
    String,
>)
    ensures
        r is Ok <==> (password@.len() <= 0xFFFF_FFFF && 8 <= salt@.len() <= 0xFFFF_FFFF),
        r is Ok ==> final(out)@ == argon2id_output(password@, salt@, 32),
        r is Err ==> final(out)@ == old(out)@,
{
    argon2::Argon2::default().hash_password_into(password, salt, out).map_err(|e| e.to_string())
}

/// Runs `bech32::encode(hrp, data.to_base32(), Variant::Bech32)`. Per its source it fails
/// exactly when `check_hrp` refuses the human-readable part; the encoded text itself is named,
/// not stated. The error is returned as its `Display` text.
#[verifier::external_body]
fn bech32_encode(hrp: &str, data: &[u8]) -> (r: Result<String, String>)
    ensures
        r is Ok <==> bech32_hrp_accepted(hrp@),
        r matches Ok(s) ==> s@ == bech32_text(hrp@, data@),
{
    bech32::encode(hrp, bech32::ToBase32::to_base32(&data), bech32::Variant::Bech32).map_err(
        |e| e.to_string(),
    )
}

/// Runs std's `str::to_uppercase`; the result is named, not stated.
#[verifier::external_body]
fn str_to_uppercase(s: &str) -> (r: String)
    ensures
        r@ == uppercase_text(s@),
{
    s.to_uppercase()
}

/// The identity that age's `Identity::from_str` parses from a secret-key text it accepts.
pub uninterp spec fn parsed_identity(secret: Seq<char>) -> Identity;

/// Whether age's `Recipient::from_str` accepts a public key string.
pub uninterp spec fn age_recipient_accepts(public_key: Seq<char>) -> bool;

/// The recipient that age's `Recipient::from_str` parses from a public key text it accepts.
pub uninterp spec fn parsed_recipient(public_key: Seq<char>) -> Recipient;

/// Runs age's `x25519::Recipient::from_str`; which strings are accepted, and the recipient
/// parsed, are named, not stated. The error is returned as its text.
#[verifier::external_body]
pub(crate) fn age_recipient_from_str(public_key: &str) -> (r: Result<Recipient, String>)
    ensures
        r is Ok <==> age_recipient_accepts(public_key@),
        r matches Ok(rc) ==> rc == parsed_recipient(public_key@),
{
    <Recipient as std::str::FromStr>::from_str(public_key).map_err(|e| e.to_string())
}

/// Runs age's `Identity::from_str` on a secret-key string. On success it also returns the
/// identity's recipient (`Identity::to_public`) and that recipient's text (its `Display`).
/// Which strings are accepted, and the recipient text, are named. Per the sources: the
/// parser decodes Bech32 (either case, the HRP compared in lower case) and takes 32 key
/// bytes, so the upper-cased Bech32 text of any 32 bytes under `AGE-SECRET-KEY-` is accepted;
/// and a recipient's text is `bech32::encode("age", ..)`, which begins with `age1` and which
/// `Recipient::from_str` parses back to the same recipient (the public key's 32 bytes).
#[verifier::external_body]
pub(crate) fn age_identity_from_str(secret: &str) -> (r: Result<(Identity, Recipient, String), String>)
    ensures
        r is Ok <==> age_identity_accepts(secret@),
        r matches Ok(k) ==> k.0 == parsed_identity(secret@),
        r matches Ok(k) ==> k.2@ == age_recipient_text(secret@),
        r matches Ok(k) ==> age_recipient_accepts(k.2@) && k.1 == parsed_recipient(k.2@),
        r matches Ok(k) ==> starts_with(k.2@, recipient_prefix()),
        (exists|b: Seq<u8>|
            b.len() == 32 && secret@ == uppercase_text(#[trigger] bech32_text(secret_key_hrp(), b)))
            ==> r is Ok,
{
    let identity = <Identity as std::str::FromStr>::from_str(secret).map_err(|e| e.to_string())?;
    let recipient = identity.to_public();
    let text = recipient.to_string();
    Ok((identity, recipient, text))
}

/// Overwrites key bytes with zeros through `zeroize::Zeroize` (which keeps the writes from
/// being optimised away).
#[verifier::external_body]
fn zeroize_key_bytes(bytes: &mut [u8; 32])
    ensures
        final(bytes)@ == Seq::new(32, |i: int| 0u8),
{
    zeroize::Zeroize::zeroize(bytes)
}

/// Wipes a string through `zeroize::Zeroize`, which zeroes its buffer and leaves it empty.
#[verifier::external_body]
fn zeroize_string(s: &mut String)
    ensures
        final(s)@ == Seq::<char>::empty(),
{
    zeroize::Zeroize::zeroize(s)
}

/// The upper-case `AGE-SECRET-KEY-1…` text of the identity derived from a password and a
/// vault name.
pub open spec fn secret_key_text(password: Seq<char>, vault_name: Seq<char>) -> Seq<char> {
    uppercase_text(
        bech32_text(secret_key_hrp(), argon2id_output(encode_utf8(password), vault_salt(vault_name), 32)),
    )
}

/// Derivation succeeds: Argon2 takes the password and age accepts the derived secret key.
pub open spec fn derivation_succeeds(password: Seq<char>, vault_name: Seq<char>) -> bool {
    encode_utf8(password).len() <= 0xFFFF_FFFF && age_identity_accepts(
        secret_key_text(password, vault_name),
    )
}

/// The public key (`age1…`) derived from a password and a vault name.
pub open spec fn derived_public_key(password: Seq<char>, vault_name: Seq<char>) -> Seq<char> {
    age_recipient_text(secret_key_text(password, vault_name))
}

/// Builds the 16-byte salt of a vault name.
pub fn vault_salt_bytes(vault_name: &str) -> (r: [u8; 16])
    ensures
        r@ == vault_salt(vault_name@),
{
    let mut salt = [0u8; 16];
    let vault_bytes = vault_name.as_bytes();
    let n: usize = if vault_bytes.len() < 16 {
        vault_bytes.len()
    } else {
        16
    };
    let mut i: usize = 0;
    while i < 16
        invariant
            n <= 16,
            n == if vault_bytes@.len() < 16 { vault_bytes@.len() } else { 16 },
            vault_bytes@ == encode_utf8(vault_name@),
            i <= 16,
            salt@.len() == 16,
            forall|j: int| 0 <= j < i ==> salt@[j] == salt_bytes(vault_bytes@)[j],
        decreases 16 - i,
    {
        if i < n {
            salt[i] = vault_bytes[i];
        } else {
            salt[i] = (i as u8) ^ 0xAA;
        }
        i = i + 1;
    }
    assert(salt@ =~= salt_bytes(vault_bytes@));
    salt
}

fn message(prefix: &str, detail: String) -> (m: String)
    ensures
        m@ == prefix@ + detail@,
{
    let mut m = String::from_str(prefix);
    m.append(detail.as_str());
    m
}

/// Deterministically derives an age X25519 keypair from `password` and `vault_name`: Argon2id
/// over the password with the vault's salt gives 32 bytes, which are encoded as an upper-case
/// `AGE-SECRET-KEY-1…` string and parsed as an age identity. It succeeds for every password
/// Argon2 takes (up to `0xFFFF_FFFF` bytes). The key bytes and the lower-case encoding are
/// zeroized; the secret text is kept in a wrapper that wipes it when dropped.
pub fn derive_keys(password: &str, vault_name: &str) -> (r: Result<Keys, String>)
    ensures
        r is Ok <==> derivation_succeeds(password@, vault_name@),
        derivation_succeeds(password@, vault_name@) <==> encode_utf8(password@).len()
            <= 0xFFFF_FFFF,
        r matches Ok(keys) ==> keys.public_key@ == derived_public_key(password@, vault_name@),
        r matches Ok(keys) ==> held_text(keys.secret) == secret_key_text(password@, vault_name@),
        r matches Ok(keys) ==> keys.identity == parsed_identity(secret_key_text(password@, vault_name@)),
        r matches Ok(keys) ==> keys.recipient == parsed_recipient(derived_public_key(password@, vault_name@)),
        r matches Ok(keys) ==> starts_with(keys.public_key@, recipient_prefix()),
        encode_utf8(password@).len() > 0xFFFF_FFFF ==> (r matches Err(m) && exists|d: Seq<char>|
            m@ == "Argon2 error: "@ + d),
{
    let salt = vault_salt_bytes(vault_name);
    let mut key_bytes = [0u8; 32];
    match argon2_hash_password_into(password.as_bytes(), &salt, &mut key_bytes) {
        Ok(()) => {},
        Err(e) => {
            return Err(message("Argon2 error: ", e));
        },
    }
    let hrp = "AGE-SECRET-KEY-";
    proof {
        reveal_strlit("AGE-SECRET-KEY-");
        assert(hrp@ =~= secret_key_hrp());
        assert forall|j: int| 0 <= j < hrp@.len() && 'a' <= #[trigger] hrp@[j] implies hrp@[j] > 'z' by {
        }
    }
    let ghost key_material = key_bytes@;
    let encoded = bech32_encode(hrp, &key_bytes);
    zeroize_key_bytes(&mut key_bytes);
    let mut encoded = match encoded {
        Ok(s) => s,
        Err(e) => {
            return Err(message("Bech32 encode error: ", e));
        },
    };
    let encoded_upper = str_to_uppercase(encoded.as_str());
    zeroize_string(&mut encoded);
    let secret = zeroizing_string(encoded_upper);
    proof {
        assert(key_material.len() == 32);
        assert(held_text(secret) == uppercase_text(bech32_text(secret_key_hrp(), key_material)));
    }
    let parsed = age_identity_from_str(zeroizing_str(&secret));
    match parsed {
        Ok((identity, recipient, public_key)) => Ok(Keys { identity, recipient, public_key, secret }),
        Err(e) => Err(message("Invalid identity: ", e)),
    }
}

/// A vault's secret key comes from the whole password: Argon2id runs over every byte of the
/// password's UTF-8 encoding, with the 16-byte salt made of the name's first bytes (then
/// `i ^ 0xAA`); its 32 output bytes are Bech32-encoded under `AGE-SECRET-KEY-` and upper-cased;
/// and the vault's public key is the recipient of that secret key. No part of the password
/// stands in for the whole: whatever the password's length, all of it is Argon2's input.
pub proof fn law_key_from_whole_password(password: Seq<char>, vault_name: Seq<char>)
    ensures
        secret_key_text(password, vault_name) == uppercase_text(
            bech32_text(
                seq!['A', 'G', 'E', '-', 'S', 'E', 'C', 'R', 'E', 'T', '-', 'K', 'E', 'Y', '-'],
                argon2id_output(
                    encode_utf8(password),
                    Seq::new(
                        16,
                        |i: int|
                            if i < encode_utf8(vault_name).len() {
                                encode_utf8(vault_name)[i]
                            } else {
                                (i as u8) ^ 0xAAu8
                            },
                    ),
                    32,
                ),
            ),
        ),
        derived_public_key(password, vault_name) == age_recipient_text(
            secret_key_text(password, vault_name),
        ),
{
    let salt = Seq::new(
        16,
        |i: int|
            if i < encode_utf8(vault_name).len() {
                encode_utf8(vault_name)[i]
            } else {
                (i as u8) ^ 0xAAu8
            },
    );
    assert(vault_salt(vault_name) =~= salt);
    assert(secret_key_hrp() =~= seq!['A', 'G', 'E', '-', 'S', 'E', 'C', 'R', 'E', 'T', '-', 'K', 'E', 'Y', '-']);
}

/// Vault names whose UTF-8 encodings share their first 16 bytes have the same salt, so for
/// the same password they derive the same keypair (or fail alike).
pub proof fn law_names_sharing_16_bytes_derive_same_keys(
    password: Seq<char>,
    name1: Seq<char>,
    name2: Seq<char>,
)
    requires
        encode_utf8(name1).len() >= 16,
        encode_utf8(name2).len() >= 16,
        encode_utf8(name1).subrange(0, 16) == encode_utf8(name2).subrange(0, 16),
    ensures
        vault_salt(name1) == vault_salt(name2),
        derivation_succeeds(password, name1) == derivation_succeeds(password, name2),
        derived_public_key(password, name1) == derived_public_key(password, name2),
{
    let b1 = encode_utf8(name1);
    let b2 = encode_utf8(name2);
    assert forall|i: int| 0 <= i < 16 implies salt_bytes(b1)[i] == salt_bytes(b2)[i] by {
        assert(b1.subrange(0, 16)[i] == b2.subrange(0, 16)[i]);
    }
    assert(salt_bytes(b1) =~= salt_bytes(b2));
}

/// Only the first 16 bytes of a name reach the salt: a name and any extension of it that
/// already has 16 bytes derive the same keys.
pub proof fn law_salt_ignores_bytes_after_16(name: Seq<u8>, more: Seq<u8>)
    requires
        name.len() >= 16,
    ensures
        salt_bytes(name + more) == salt_bytes(name),
{
    assert(salt_bytes(name + more) =~= salt_bytes(name));
}

} // verus!
