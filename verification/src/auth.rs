//! User authentication.
//!
//! Deterministic credential management with a login audit log that only
//! grows.  Passwords are stored as FNV-1a hashes, a pure byte-arithmetic
//! hash with no nondeterministic input.
//!
//! FNV-1a is not a cryptographic password hash: it has no salt and no
//! computational cost.  It serves the system's zero-randomness constraint in
//! a demonstration setting and must not guard real credentials.

use vstd::prelude::*;
use vstd::string::StringSliceAdditionalSpecFns;

verus! {

/// FNV-1a 64-bit offset basis.
pub const FNV_OFFSET_BASIS: u64 = 14695981039346656037;

/// FNV-1a 64-bit prime.
pub const FNV_PRIME: u64 = 1099511628211;

/// FNV-1a (64-bit) of a byte sequence: start from the offset basis, and for
/// each byte xor it in and multiply by the prime, modulo 2^64.
pub open spec fn fnv1a_spec(bytes: Seq<u8>) -> u64
    decreases bytes.len(),
{
    if bytes.len() == 0 {
        FNV_OFFSET_BASIS
    } else {
        (fnv1a_spec(bytes.drop_last()) ^ (bytes.last() as u64)).wrapping_mul(FNV_PRIME)
    }
}

/// The stored hash of a password: FNV-1a of its UTF-8 bytes.
pub open spec fn password_hash(password: &str) -> u64 {
    fnv1a_spec(password.spec_bytes())
}

/// Deterministic FNV-1a (64-bit) hash of the UTF-8 bytes of `input`.
pub fn fnv1a_hash(input: &str) -> (h: u64)
    ensures
        h == password_hash(input),
{
    let bytes = input.as_bytes();
    let n = bytes.len();
    let mut hash: u64 = FNV_OFFSET_BASIS;
    let mut i: usize = 0;
    assert(bytes@.take(0) =~= Seq::<u8>::empty());
    while i < n
        invariant
            n == bytes@.len(),
            bytes@ == input.spec_bytes(),
            i <= n,
            hash == fnv1a_spec(bytes@.take(i as int)),
        decreases n - i,
    {
        assert(bytes@.take(i + 1).drop_last() =~= bytes@.take(i as int));
        hash = (hash ^ (bytes[i] as u64)).wrapping_mul(FNV_PRIME);
        i = i + 1;
    }
    assert(bytes@.take(n as int) =~= bytes@);
    hash
}

/// A stored credential entry.
struct Credential {
    username: String,
    password_hash: u64,
}

impl View for Credential {
    type V = (Seq<char>, u64);

    closed spec fn view(&self) -> (Seq<char>, u64) {
        (self.username@, self.password_hash)
    }
}

/// A single login attempt recorded in the login audit log.
#[derive(Debug, Clone)]
pub struct LoginRecord {
    /// The username supplied by the caller.
    pub username: String,
    /// Contextual timestamp string provided by the caller.
    pub timestamp: String,
    /// `true` when the credentials matched a registered user.
    pub success: bool,
}

impl View for LoginRecord {
    type V = (Seq<char>, Seq<char>, bool);

    open spec fn view(&self) -> (Seq<char>, Seq<char>, bool) {
        (self.username@, self.timestamp@, self.success)
    }
}

/// `name` is the username of some account in `accounts`.
pub open spec fn is_registered_in(accounts: Seq<(Seq<char>, u64)>, name: Seq<char>) -> bool {
    exists|i: int| 0 <= i < accounts.len() && (#[trigger] accounts[i]).0 == name
}

/// Some account in `accounts` has username `name` and password hash `hash`.
pub open spec fn credentials_match(
    accounts: Seq<(Seq<char>, u64)>,
    name: Seq<char>,
    hash: u64,
) -> bool {
    exists|i: int| 0 <= i < accounts.len() && (#[trigger] accounts[i]) == (name, hash)
}

/// No two accounts share a username.
pub open spec fn unique_names(accounts: Seq<(Seq<char>, u64)>) -> bool {
    forall|i: int, j: int|
        0 <= i < j < accounts.len() ==> (#[trigger] accounts[i]).0 != (#[trigger] accounts[j]).0
}

/// Error returned by [`UserRegistry::register`] for an empty username.
pub open spec fn empty_username_error() -> Seq<char> {
    "username must not be empty"@
}

/// Error returned by [`UserRegistry::register`] for an empty password.
pub open spec fn empty_password_error() -> Seq<char> {
    "password must not be empty"@
}

/// Error returned by [`UserRegistry::register`] for a taken username.
pub open spec fn duplicate_username_error() -> Seq<char> {
    "username already registered"@
}

/// Deterministic user registry with a login audit log.
///
/// Every authentication attempt is recorded.  Passwords are never retained
/// in plain text — only their FNV-1a hashes are stored.
pub struct UserRegistry {
    credentials: Vec<Credential>,
    login_log: Vec<LoginRecord>,
}

impl UserRegistry {
    /// The registered accounts as (username, password hash), in
    /// registration order.
    pub closed spec fn accounts(&self) -> Seq<(Seq<char>, u64)> {
        self.credentials@.map_values(|c: Credential| c@)
    }

    /// The login audit log as (username, timestamp, success), oldest first.
    pub closed spec fn logins(&self) -> Seq<(Seq<char>, Seq<char>, bool)> {
        self.login_log@.map_values(|r: LoginRecord| r@)
    }

    #[verifier::type_invariant]
    closed spec fn usernames_unique(&self) -> bool {
        unique_names(self.accounts())
    }

    /// Create an empty registry.
    pub fn new() -> (r: Self)
        ensures
            r.accounts().len() == 0,
            r.logins().len() == 0,
    {
        let r = UserRegistry { credentials: Vec::new(), login_log: Vec::new() };
        assert(r.accounts() =~= Seq::<(Seq<char>, u64)>::empty());
        r
    }

    /// Whether the account list holds a user named `name`.
    fn find_username(&self, name: &String) -> (found: bool)
        ensures
            found == is_registered_in(self.accounts(), name@),
    {
        let n = self.credentials.len();
        let mut i: usize = 0;
        while i < n
            invariant
                n == self.credentials@.len(),
                i <= n,
                forall|j: int| 0 <= j < i ==> (#[trigger] self.accounts()[j]).0 != name@,
            decreases n - i,
        {
            if self.credentials[i].username == *name {
                assert(self.accounts()[i as int].0 == name@);
                return true;
            }
            i = i + 1;
        }
        false
    }

    /// Whether some account has username `name` and password hash `hash`.
    fn find_credentials(&self, name: &String, hash: u64) -> (found: bool)
        ensures
            found == credentials_match(self.accounts(), name@, hash),
    {
        let n = self.credentials.len();
        let mut i: usize = 0;
        while i < n
            invariant
                n == self.credentials@.len(),
                i <= n,
                forall|j: int| 0 <= j < i ==> (#[trigger] self.accounts()[j]) != (name@, hash),
            decreases n - i,
        {
            if self.credentials[i].username == *name && self.credentials[i].password_hash == hash {
                assert(self.accounts()[i as int] == (name@, hash));
                return true;
            }
            i = i + 1;
        }
        false
    }

    /// Register a new user.
    ///
    /// Returns `Err` if `username` is empty, if `password` is empty, or if
    /// `username` is already registered (checked in that order).
    pub fn register(&mut self, username: &str, password: &str) -> (r: Result<(), &'static str>)
        ensures
            r is Ok <==> (username@.len() > 0 && password@.len() > 0 && !is_registered_in(
                old(self).accounts(),
                username@,
            )),
            r is Ok ==> final(self).accounts() == old(self).accounts().push(
                (username@, password_hash(password)),
            ),
            r matches Err(e) ==> final(self).accounts() == old(self).accounts() && e@ == (
            if username@.len() == 0 {
                empty_username_error()
            } else if password@.len() == 0 {
                empty_password_error()
            } else {
                duplicate_username_error()
            }),
            final(self).logins() == old(self).logins(),
            unique_names(final(self).accounts()),
    {
        proof {
            use_type_invariant(&*self);
        }
        if username.is_empty() {
            return Err("username must not be empty");
        }
        if password.is_empty() {
            return Err("password must not be empty");
        }
        let name = String::from_str(username);
        if self.find_username(&name) {
            return Err("username already registered");
        }
        let hash = fnv1a_hash(password);
        let ghost before = self.accounts();
        let mut credentials = Vec::new();
        std::mem::swap(&mut credentials, &mut self.credentials);
        credentials.push(Credential { username: name, password_hash: hash });
        proof {
            let after = credentials@.map_values(|c: Credential| c@);
            let added = (username@, password_hash(password));
            assert(after =~= before.push(added));
            assert forall|i: int, j: int| 0 <= i < j < after.len() implies (#[trigger] after[i]).0
                != (#[trigger] after[j]).0 by {
                if j < before.len() {
                    assert(before[i] == after[i] && before[j] == after[j]);
                } else {
                    assert(before[i] == after[i]);
                }
            }
        }
        self.credentials = credentials;
        assert(self.accounts() =~= before.push((username@, password_hash(password))));
        Ok(())
    }

    /// Authenticate a user.
    ///
    /// Always appends a record to the login log, whatever the outcome.
    /// Returns `true` when a registered user has this username and the hash
    /// of this password.
    pub fn authenticate(&mut self, username: &str, password: &str, timestamp: &str) -> (ok: bool)
        ensures
            ok == credentials_match(old(self).accounts(), username@, password_hash(password)),
            final(self).accounts() == old(self).accounts(),
            final(self).logins() == old(self).logins().push((username@, timestamp@, ok)),
    {
        proof {
            use_type_invariant(&*self);
        }
        let name = String::from_str(username);
        let hash = fnv1a_hash(password);
        let success = self.find_credentials(&name, hash);
        let ghost before = self.logins();
        let mut log = Vec::new();
        std::mem::swap(&mut log, &mut self.login_log);
        log.push(LoginRecord { username: name, timestamp: String::from_str(timestamp), success });
        self.login_log = log;
        assert(self.logins() =~= before.push((username@, timestamp@, success)));
        success
    }

    /// Return the full login audit log.
    pub fn login_log(&self) -> (log: &[LoginRecord])
        ensures
            log@.map_values(|r: LoginRecord| r@) == self.logins(),
    {
        self.login_log.as_slice()
    }

    /// Check whether a username has been registered.
    pub fn is_registered(&self, username: &str) -> (found: bool)
        ensures
            found == is_registered_in(self.accounts(), username@),
    {
        let name = String::from_str(username);
        self.find_username(&name)
    }
}

impl Default for UserRegistry {
    fn default() -> (r: Self)
        ensures
            r.accounts().len() == 0,
            r.logins().len() == 0,
    {
        Self::new()
    }
}

/// Read after write: once `name` has been registered with `password`,
/// authenticating with the same name and password succeeds.
pub proof fn law_register_then_authenticate(
    accounts: Seq<(Seq<char>, u64)>,
    name: Seq<char>,
    password: &str,
)
    ensures
        credentials_match(
            accounts.push((name, password_hash(password))),
            name,
            password_hash(password),
        ),
        is_registered_in(accounts.push((name, password_hash(password))), name),
{
    let after = accounts.push((name, password_hash(password)));
    assert(after[accounts.len() as int] == (name, password_hash(password)));
}

/// With unique usernames, a registered user authenticates only with a
/// password whose hash is the stored one.
pub proof fn law_wrong_password_fails(
    accounts: Seq<(Seq<char>, u64)>,
    i: int,
    name: Seq<char>,
    stored: u64,
    attempted: u64,
)
    requires
        unique_names(accounts),
        0 <= i < accounts.len(),
        accounts[i] == (name, stored),
        attempted != stored,
    ensures
        !credentials_match(accounts, name, attempted),
{
    if credentials_match(accounts, name, attempted) {
        let j = choose|j: int| 0 <= j < accounts.len() && (#[trigger] accounts[j]) == (
            name,
            attempted,
        );
        if i < j {
            assert(accounts[i].0 != accounts[j].0);
        } else if j < i {
            assert(accounts[j].0 != accounts[i].0);
        }
    }
}

/// A name that was never registered cannot authenticate.
pub proof fn law_unknown_user_fails(accounts: Seq<(Seq<char>, u64)>, name: Seq<char>, hash: u64)
    requires
        !is_registered_in(accounts, name),
    ensures
        !credentials_match(accounts, name, hash),
{
    if credentials_match(accounts, name, hash) {
        let j = choose|j: int| 0 <= j < accounts.len() && (#[trigger] accounts[j]) == (name, hash);
        assert(accounts[j].0 == name);
    }
}

/// The password hash is FNV-1a over every UTF-8 byte of the password: the
/// empty password hashes to the offset basis, and a password whose bytes
/// are those of `shorter` followed by one more byte `b` hashes to the hash
/// of `shorter` xor `b`, times the FNV prime modulo 2^64 — at every length.
pub proof fn law_hash_covers_every_byte(shorter: &str, longer: &str, b: u8)
    ensures
        shorter.spec_bytes().len() == 0 ==> password_hash(shorter) == 14695981039346656037u64,
        longer.spec_bytes() == shorter.spec_bytes().push(b) ==> password_hash(longer) == (
        password_hash(shorter) ^ (b as u64)).wrapping_mul(1099511628211u64),
{
    if longer.spec_bytes() == shorter.spec_bytes().push(b) {
        assert(longer.spec_bytes().drop_last() =~= shorter.spec_bytes());
    }
}

/// The hash of a password is fixed by its characters alone: equal
/// passwords always hash equally.
pub proof fn law_hash_deterministic(a: &str, b: &str)
    requires
        a@ == b@,
    ensures
        password_hash(a) == password_hash(b),
{
}

} // verus!
