use vstd::hash_map::StringHashMap;
use vstd::prelude::*;
use vstd::string::StringExecFns;

use std::time::Instant;

use crate::config::VaultConfig;
use crate::crypto::{
    age_identity_accepts, age_identity_from_str, derivation_succeeds, derive_keys, parsed_identity,
    derived_public_key, held_text, secret_key_text, zeroizing_str, Keys, SecretText,
};
use crate::errors::InboxCoreError;
use crate::validation::{is_valid_name, valid_name};

use age::x25519::Identity;

verus! {

/// A point in time of std, carried unopened: the library reads clocks only as elapsed
/// milliseconds.
#[verifier::external_type_specification]
#[verifier::external_body]
pub struct ExInstant(std::time::Instant);

/// An unlocked vault: its secret key text (wiped when dropped), held in memory until
/// `expires_at` (milliseconds on the session clock of the `UnlockedVaults` that holds it).
pub struct UnlockedVault {
    pub secret: SecretText,
    pub expires_at: u64,
}

/// The secret key text that `name`'s session holds.
pub open spec fn session_secret(m: Map<Seq<char>, UnlockedVault>, name: Seq<char>) -> Seq<char> {
    held_text(m[name].secret)
}

/// The in-memory unlock sessions, keyed by vault name, with the monotonic clock they are timed
/// by.
pub struct UnlockedVaults {
    clock_origin: Instant,
    clock_floor: u64,
    vaults: StringHashMap<UnlockedVault>,
}

/// Reads std's monotonic clock (`Instant::now`).
#[verifier::external_body]
fn clock_now() -> Instant {
    std::time::Instant::now()
}

/// Milliseconds elapsed on std's monotonic clock since `origin` (`Instant::elapsed`), capped
/// at `u64::MAX`. Nothing is promised of the value: it is the time.
#[verifier::external_body]
fn elapsed_ms(origin: &Instant) -> u64 {
    u64::try_from(origin.elapsed().as_millis()).unwrap_or(u64::MAX)
}

impl UnlockedVaults {
    /// Every session holds a secret key text that age accepts as an identity.
    #[verifier::type_invariant]
    spec fn secrets_are_identities(self) -> bool {
        forall|k: Seq<char>|
            #[trigger] self.vaults@.contains_key(k) ==> age_identity_accepts(
                held_text(self.vaults@[k].secret),
            )
    }
}

impl View for UnlockedVaults {
    type V = Map<Seq<char>, UnlockedVault>;

    closed spec fn view(&self) -> Map<Seq<char>, UnlockedVault> {
        self.vaults@
    }
}

/// How a vault's session stands at a time.
#[derive(Clone, Copy, Debug, PartialEq, Eq, Structural)]
pub enum SessionStatus {
    /// There is no session.
    Locked,
    /// There is a session, but its time is over.
    Expired,
    /// There is a live session.
    Active,
}

/// A session for `name` exists and has not run out at `now`.
pub open spec fn session_active(m: Map<Seq<char>, UnlockedVault>, name: Seq<char>, now: u64) -> bool {
    m.contains_key(name) && now <= m[name].expires_at
}

/// The status of `name`'s session at `now`.
pub open spec fn session_status(m: Map<Seq<char>, UnlockedVault>, name: Seq<char>, now: u64) -> SessionStatus {
    if !m.contains_key(name) {
        SessionStatus::Locked
    } else if now > m[name].expires_at {
        SessionStatus::Expired
    } else {
        SessionStatus::Active
    }
}

impl UnlockedVaults {
    /// No sessions; the session clock starts now.
    pub fn new() -> (r: Self)
        ensures
            r@ == Map::<Seq<char>, UnlockedVault>::empty(),
            r.clock_floor() == 0,
    {
        UnlockedVaults { clock_origin: clock_now(), clock_floor: 0, vaults: StringHashMap::new() }
    }

    /// The latest session-clock reading these sessions have recorded (an unlock or an identity
    /// fetch records the reading it used).
    pub closed spec fn clock_floor(&self) -> u64 {
        self.clock_floor
    }

    /// Milliseconds on the session clock. The clock never reads earlier than a reading already
    /// recorded.
    pub fn now_ms(&self) -> (r: u64)
        ensures
            r >= self.clock_floor(),
    {
        let elapsed = elapsed_ms(&self.clock_origin);
        if elapsed < self.clock_floor {
            self.clock_floor
        } else {
            elapsed
        }
    }

    /// Records a clock reading that is no earlier than the recorded ones.
    fn record_reading(&mut self, now: u64)
        requires
            now >= old(self).clock_floor(),
        ensures
            final(self).clock_floor() == now,
            final(self)@ == old(self)@,
    {
        proof {
            use_type_invariant(&*self);
        }
        self.clock_floor = now;
    }

    /// Whether `name` has a session (expired or not).
    pub fn contains_key(&self, name: &str) -> (b: bool)
        ensures
            b == self@.contains_key(name@),
    {
        self.vaults.contains_key(name)
    }

    /// The number of sessions.
    pub fn len(&self) -> (n: usize)
        ensures
            n == self@.len(),
    {
        self.vaults.len()
    }

    /// The session of `name`, if any.
    pub fn get(&self, name: &str) -> (r: Option<&UnlockedVault>)
        ensures
            match r {
                Some(v) => self@.contains_key(name@) && *v == self@[name@],
                None => !self@.contains_key(name@),
            },
    {
        self.vaults.get(name)
    }

    /// How `name`'s session stands at `now`, leaving the sessions as they are.
    pub fn status_at(&self, name: &str, now: u64) -> (s: SessionStatus)
        ensures
            s == session_status(self@, name@, now),
    {
        match self.vaults.get(name) {
            None => SessionStatus::Locked,
            Some(v) => if now > v.expires_at {
                SessionStatus::Expired
            } else {
                SessionStatus::Active
            },
        }
    }

    /// How `name`'s session stands now.
    pub fn status(&self, name: &str) -> (s: SessionStatus)
        ensures
            exists|now: u64| now >= self.clock_floor() && s == session_status(self@, name@, now),
    {
        let now = self.now_ms();
        self.status_at(name, now)
    }

    /// The identity that age parses from the secret of `name`'s session, whether or not its
    /// time is over; `None` when there is no session or age does not accept its secret.
    pub fn identity_of(&self, name: &str) -> (r: Option<Identity>)
        ensures
            match r {
                Some(id) => self@.contains_key(name@) && id == parsed_identity(
                    session_secret(self@, name@),
                ),
                None => !self@.contains_key(name@),
            },
    {
        proof {
            use_type_invariant(self);
        }
        match self.vaults.get(name) {
            Some(v) => {
                proof {
                    assert(self.vaults@.contains_key(name@));
                }
                match age_identity_from_str(zeroizing_str(&v.secret)) {
                    Ok((identity, _, _)) => Some(identity),
                    Err(_) => None,
                }
            },
            None => None,
        }
    }

    /// Starts (or replaces) `name`'s session; its secret must be an age identity.
    pub fn insert(&mut self, name: &str, vault: UnlockedVault)
        requires
            age_identity_accepts(held_text(vault.secret)),
        ensures
            final(self)@ == old(self)@.insert(name@, vault),
            final(self).clock_floor() == old(self).clock_floor(),
    {
        proof {
            use_type_invariant(&*self);
        }
        let mut vaults = StringHashMap::new();
        std::mem::swap(&mut vaults, &mut self.vaults);
        vaults.insert(String::from_str(name), vault);
        self.vaults = vaults;
    }

    /// Ends `name`'s session, if there is one.
    pub fn remove(&mut self, name: &str)
        ensures
            final(self)@ == old(self)@.remove(name@),
            final(self).clock_floor() == old(self).clock_floor(),
    {
        proof {
            use_type_invariant(&*self);
        }
        let mut vaults = StringHashMap::new();
        std::mem::swap(&mut vaults, &mut self.vaults);
        vaults.remove(name);
        self.vaults = vaults;
    }
}

/// The message of the error given when a vault's config disables lock and unlock.
pub open spec fn lock_unlock_disabled_text() -> Seq<char> {
    "lock/unlock disabled in config"@
}

/// Unlock accepts: the name is valid, the vault exists, its config was read, lock/unlock is
/// allowed, and the keys derived from the password have the stored public key.
pub open spec fn unlock_accepts(
    name: Seq<char>,
    vault_exists: bool,
    config: Result<VaultConfig, InboxCoreError>,
    password: Seq<char>,
) -> bool {
    &&& valid_name(name)
    &&& vault_exists
    &&& config matches Ok(c)
    &&& c.permissions.allow_lock_unlock
    &&& derivation_succeeds(password, name)
    &&& derived_public_key(password, name) == c.public_key@
}

/// The error with which unlock refuses, checked in this order: the name, the vault's
/// directory, its config, the lock/unlock permission, the key derivation, the public key.
pub open spec fn unlock_refusal(
    e: InboxCoreError,
    name: Seq<char>,
    vault_exists: bool,
    config: Result<VaultConfig, InboxCoreError>,
    password: Seq<char>,
) -> bool {
    if !valid_name(name) {
        e == InboxCoreError::InvalidName
    } else if !vault_exists {
        e == InboxCoreError::VaultNotFound
    } else {
        match config {
            Err(c) => e == c,
            Ok(c) => if !c.permissions.allow_lock_unlock {
                e matches InboxCoreError::Crypto(m) && m@ == lock_unlock_disabled_text()
            } else if !derivation_succeeds(password, name) {
                e is Crypto
            } else {
                e == InboxCoreError::InvalidPassword
            },
        }
    }
}

/// `after` is `before` with `name`'s session started (or replaced): it keeps the secret key
/// derived from the password and the name, until `expires`.
pub open spec fn unlocked_after(
    before: Map<Seq<char>, UnlockedVault>,
    after: Map<Seq<char>, UnlockedVault>,
    name: Seq<char>,
    password: Seq<char>,
    expires: u64,
) -> bool {
    &&& after == before.insert(name, after[name])
    &&& after[name].expires_at == expires
    &&& session_secret(after, name) == secret_key_text(password, name)
}

/// Runs unlock's checks and, when they pass, hands back the derived secret key text.
fn unlock_check(
    name: &str,
    vault_exists: bool,
    config: Result<VaultConfig, InboxCoreError>,
    password: &str,
) -> (r: Result<SecretText, InboxCoreError>)
    ensures
        r is Ok <==> unlock_accepts(name@, vault_exists, config, password@),
        r matches Ok(s) ==> held_text(s) == secret_key_text(password@, name@),
        r matches Err(e) ==> unlock_refusal(e, name@, vault_exists, config, password@),
{
    if !is_valid_name(name) {
        return Err(InboxCoreError::InvalidName);
    }
    if !vault_exists {
        return Err(InboxCoreError::VaultNotFound);
    }
    let config = match config {
        Ok(c) => c,
        Err(e) => {
            return Err(e);
        },
    };
    if !config.permissions.allow_lock_unlock {
        return Err(InboxCoreError::Crypto(String::from_str("lock/unlock disabled in config")));
    }
    let keys = match derive_keys(password, name) {
        Ok(k) => k,
        Err(e) => {
            return Err(InboxCoreError::Crypto(e));
        },
    };
    if keys.public_key != config.public_key {
        return Err(InboxCoreError::InvalidPassword);
    }
    let Keys { identity: _, recipient: _, public_key: _, secret } = keys;
    Ok(secret)
}

/// Unlocks a vault when the password matches, at session time `now`, for `unlock_for`
/// milliseconds. `vault_exists` and `config` are what the filesystem holds for the vault
/// (`config` is read only when the vault exists). A successful unlock inserts or overwrites the
/// vault's session with the secret key derived from the password and the name; a refused one
/// leaves the sessions unchanged.
pub fn unlock_vault_at(
    unlocked_vaults: &mut UnlockedVaults,
    name: &str,
    vault_exists: bool,
    config: Result<VaultConfig, InboxCoreError>,
    password: &str,
    now: u64,
    unlock_for: u64,
) -> (r: Result<(), InboxCoreError>)
    requires
        now + unlock_for <= u64::MAX,
    ensures
        r is Ok <==> unlock_accepts(name@, vault_exists, config, password@),
        r matches Err(e) ==> unlock_refusal(e, name@, vault_exists, config, password@)
            && final(unlocked_vaults)@ == old(unlocked_vaults)@,
        r is Ok ==> unlocked_after(
            old(unlocked_vaults)@,
            final(unlocked_vaults)@,
            name@,
            password@,
            (now + unlock_for) as u64,
        ),
{
    let secret = unlock_check(name, vault_exists, config, password)?;
    unlocked_vaults.insert(name, UnlockedVault { secret, expires_at: now + unlock_for });
    Ok(())
}

/// The message of the error given when an unlock window reaches past the session clock.
pub open spec fn unlock_window_too_long_text() -> Seq<char> {
    "unlock window exceeds the session clock"@
}

/// How an accepted unlock ends when the session clock reads `now`: the session is started
/// for `unlock_for` milliseconds, unless that would end past the clock's largest time, in
/// which case nothing changes and an error says so.
pub open spec fn unlock_at_clock(
    before: Map<Seq<char>, UnlockedVault>,
    after: Map<Seq<char>, UnlockedVault>,
    name: Seq<char>,
    password: Seq<char>,
    now: u64,
    unlock_for: u64,
    r: Result<(), InboxCoreError>,
) -> bool {
    if unlock_for <= u64::MAX - now {
        r is Ok && unlocked_after(before, after, name, password, (now + unlock_for) as u64)
    } else {
        (r matches Err(InboxCoreError::Crypto(m)) && m@ == unlock_window_too_long_text())
            && after == before
    }
}

/// Unlocks a vault for `unlock_for` milliseconds from now (see `unlock_vault_at`). The checks
/// come first; only an accepted unlock reads the clock, records the reading, and starts the
/// session there (no earlier than any recorded reading); when the window would end past the
/// largest time the session clock can hold, nothing is unlocked and an error says so.
pub fn unlock_vault(
    unlocked_vaults: &mut UnlockedVaults,
    name: &str,
    vault_exists: bool,
    config: Result<VaultConfig, InboxCoreError>,
    password: &str,
    unlock_for: u64,
) -> (r: Result<(), InboxCoreError>)
    ensures
        r is Ok ==> unlock_accepts(name@, vault_exists, config, password@),
        !unlock_accepts(name@, vault_exists, config, password@) ==> (r matches Err(e)
            && unlock_refusal(e, name@, vault_exists, config, password@))
            && final(unlocked_vaults)@ == old(unlocked_vaults)@,
        unlock_accepts(name@, vault_exists, config, password@) && unlock_for == 0 ==> r is Ok,
        !unlock_accepts(name@, vault_exists, config, password@) ==> final(unlocked_vaults).clock_floor()
            == old(unlocked_vaults).clock_floor(),
        unlock_accepts(name@, vault_exists, config, password@) ==> final(unlocked_vaults).clock_floor()
            >= old(unlocked_vaults).clock_floor() && unlock_at_clock(
            old(unlocked_vaults)@,
            final(unlocked_vaults)@,
            name@,
            password@,
            final(unlocked_vaults).clock_floor(),
            unlock_for,
            r,
        ),
{
    let secret = unlock_check(name, vault_exists, config, password)?;
    let now = unlocked_vaults.now_ms();
    unlocked_vaults.record_reading(now);
    if unlock_for > u64::MAX - now {
        let message = String::from_str("unlock window exceeds the session clock");
        proof {
            reveal_strlit("unlock window exceeds the session clock");
            assert(unlock_at_clock(
                old(unlocked_vaults)@,
                unlocked_vaults@,
                name@,
                password@,
                now,
                unlock_for,
                Err(InboxCoreError::Crypto(message)),
            ));
        }
        return Err(InboxCoreError::Crypto(message));
    }
    unlocked_vaults.insert(name, UnlockedVault { secret, expires_at: now + unlock_for });
    assert(unlock_at_clock(
        old(unlocked_vaults)@,
        unlocked_vaults@,
        name@,
        password@,
        now,
        unlock_for,
        Ok(()),
    ));
    Ok(())
}

/// Locks a vault: removes its session. `Ok(true)` when there was one, `Ok(false)` when there
/// was none; the checks before that are those of `unlock_vault_at`, up to the permission.
pub fn lock_vault(
    unlocked_vaults: &mut UnlockedVaults,
    name: &str,
    vault_exists: bool,
    config: Result<VaultConfig, InboxCoreError>,
) -> (r: Result<bool, InboxCoreError>)
    ensures
        !valid_name(name@) ==> r == Err::<bool, InboxCoreError>(InboxCoreError::InvalidName),
        valid_name(name@) && !vault_exists ==> r == Err::<bool, InboxCoreError>(
            InboxCoreError::VaultNotFound,
        ),
        valid_name(name@) && vault_exists ==> match config {
            Err(e) => r == Err::<bool, InboxCoreError>(e),
            Ok(c) => if !c.permissions.allow_lock_unlock {
                r matches Err(InboxCoreError::Crypto(m)) && m@ == lock_unlock_disabled_text()
            } else {
                r == Ok::<bool, InboxCoreError>(old(unlocked_vaults)@.contains_key(name@))
            },
        },
        r is Ok ==> final(unlocked_vaults)@ == old(unlocked_vaults)@.remove(name@),
        r is Err ==> final(unlocked_vaults)@ == old(unlocked_vaults)@,
{
    if !is_valid_name(name) {
        return Err(InboxCoreError::InvalidName);
    }
    if !vault_exists {
        return Err(InboxCoreError::VaultNotFound);
    }
    let config = match config {
        Ok(c) => c,
        Err(e) => {
            return Err(e);
        },
    };
    if !config.permissions.allow_lock_unlock {
        return Err(InboxCoreError::Crypto(String::from_str("lock/unlock disabled in config")));
    }
    let was_unlocked = unlocked_vaults.contains_key(name);
    unlocked_vaults.remove(name);
    Ok(was_unlocked)
}

/// The outcome of fetching `name`'s identity when the sessions were `before` and are `after`
/// at time `now`: a missing session is locked, an expired one is removed and reported, and a
/// live one gives the identity that age parses from its secret key text.
pub open spec fn identity_fetch(
    before: Map<Seq<char>, UnlockedVault>,
    after: Map<Seq<char>, UnlockedVault>,
    name: Seq<char>,
    now: u64,
    r: Result<Identity, InboxCoreError>,
) -> bool {
    match session_status(before, name, now) {
        SessionStatus::Locked => r matches Err(InboxCoreError::VaultLocked) && after == before,
        SessionStatus::Expired => r matches Err(InboxCoreError::VaultUnlockExpired) && after
            == before.remove(name),
        SessionStatus::Active => after == before && r == Ok::<Identity, InboxCoreError>(
            parsed_identity(session_secret(before, name)),
        ),
    }
}

/// Fetches the identity of an unlocked vault at session time `now`. An expired session is
/// removed and reported; a missing one is reported as locked.
pub fn get_unlocked_identity_at(unlocked_vaults: &mut UnlockedVaults, name: &str, now: u64) -> (r:
    Result<Identity, InboxCoreError>)
    ensures
        identity_fetch(old(unlocked_vaults)@, final(unlocked_vaults)@, name@, now, r),
        final(unlocked_vaults).clock_floor() == old(unlocked_vaults).clock_floor(),
{
    match unlocked_vaults.status_at(name, now) {
        SessionStatus::Locked => Err(InboxCoreError::VaultLocked),
        SessionStatus::Expired => {
            unlocked_vaults.remove(name);
            Err(InboxCoreError::VaultUnlockExpired)
        },
        SessionStatus::Active => match unlocked_vaults.identity_of(name) {
            Some(id) => Ok(id),
            None => Err(InboxCoreError::VaultLocked),
        },
    }
}

/// Fetches the identity of an unlocked vault now (see `get_unlocked_identity_at`), recording
/// the clock reading it used.
pub fn get_unlocked_identity(unlocked_vaults: &mut UnlockedVaults, name: &str) -> (r: Result<
    Identity,
    InboxCoreError,
>)
    ensures
        final(unlocked_vaults).clock_floor() >= old(unlocked_vaults).clock_floor(),
        identity_fetch(
            old(unlocked_vaults)@,
            final(unlocked_vaults)@,
            name@,
            final(unlocked_vaults).clock_floor(),
            r,
        ),
{
    let now = unlocked_vaults.now_ms();
    unlocked_vaults.record_reading(now);
    get_unlocked_identity_at(unlocked_vaults, name, now)
}

} // verus!
