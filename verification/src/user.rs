//! Connected users, session tokens with an expiry, and the password check
//! against the built-in accounts.
use vstd::prelude::*;
use crate::message::AuthMessage;
use vstd::arithmetic::power2::pow2;

verus! {

// ---------------------------------------------------------------------------
// Peers and users
// ---------------------------------------------------------------------------

/// The network address a connection comes from: the IP address as 128 bits
/// (an IPv4 address in its IPv6-mapped form), whether it was an IPv6
/// address, and the port.
#[derive(Clone, Copy, Debug, PartialEq, Eq, Hash, Structural)]
pub struct PeerAddr {
    pub ip: u128,
    pub is_ipv6: bool,
    pub port: u16,
}

/// A connected user. Two users are the same user when they come from the
/// same address, whatever their names and states.
#[derive(Clone, Debug, Eq)]
pub struct User {
    pub source_addr: PeerAddr,
    pub username: String,
    pub authenticated: bool,
}

impl PartialEq for User {
    fn eq(&self, other: &Self) -> (r: bool) {
        self.source_addr == other.source_addr
    }
}

impl vstd::std_specs::cmp::PartialEqSpecImpl for User {
    open spec fn obeys_eq_spec() -> bool {
        true
    }

    open spec fn eq_spec(&self, other: &User) -> bool {
        self.source_addr == other.source_addr
    }
}

/// Whether `user` is the user at `addr`.
pub fn is_at(user: &User, addr: PeerAddr) -> (r: bool)
    ensures
        r == (user.source_addr == addr),
{
    user.source_addr == addr
}

// ---------------------------------------------------------------------------
// Session tokens with an expiry
// ---------------------------------------------------------------------------

/// A session token and the Unix time (in seconds) at which it expires.
pub struct Token {
    pub value: String,
    pub expires_at: u64,
}

/// The number of seconds in an hour.
pub open spec fn seconds_per_hour() -> int {
    3600
}

/// The expiry of a token issued at `now` for `hours` hours.
pub open spec fn expiry(now: int, hours: int) -> int {
    now + hours * seconds_per_hour()
}

/// The token with text `value` issued at `now` for `hours` hours; `None`
/// when its expiry does not fit in a `u64`.
pub fn token_at(value: String, now: u64, hours: u64) -> (r: Option<Token>)
    ensures
        r is Some <==> expiry(now as int, hours as int) <= u64::MAX,
        r matches Some(t) ==> t.value@ == value@ && t.expires_at == expiry(now as int, hours as int),
{
    match hours.checked_mul(3600) {
        Some(span) => match now.checked_add(span) {
            Some(expires_at) => Some(Token { value, expires_at }),
            None => None,
        },
        None => None,
    }
}

/// Whether `token` is still valid at time `now`: it is until its expiry.
pub fn token_valid_at(token: &Token, now: u64) -> (r: bool)
    ensures
        r == (now < token.expires_at),
{
    now < token.expires_at
}

/// A token issued at `now` for `hours` hours, as `token_at` makes it, is
/// valid (`token_valid_at`) at a later time exactly while fewer than `hours`
/// hours have passed; so a token issued for at least an hour is valid when
/// issued.
pub proof fn lemma_token_valid_until_expiry(now: u64, hours: u64, t: Token, later: u64)
    requires
        t.expires_at == expiry(now as int, hours as int),
        now <= later,
    ensures
        (later < t.expires_at) <==> (later - now < hours * seconds_per_hour()),
        hours > 0 ==> now < t.expires_at,
{
}

#[verifier::external_type_specification]
#[verifier::external_body]
pub struct ExSystemTime(std::time::SystemTime);

/// `SystemTime::now()`: the system clock's reading. Nothing is stated of
/// it: it is the time.
#[verifier::external_body]
fn system_now() -> (r: std::time::SystemTime) {
    std::time::SystemTime::now()
}

/// `t.duration_since(UNIX_EPOCH)`: how long after 1970 the reading `t` is;
/// `None` where that fails, as it does for a reading before 1970.
#[verifier::external_body]
fn since_unix_epoch(t: &std::time::SystemTime) -> (r: Option<std::time::Duration>) {
    match t.duration_since(std::time::UNIX_EPOCH) {
        Ok(d) => Some(d),
        Err(_) => None,
    }
}

/// `Duration::as_secs`: the whole seconds of `d`. Nothing is stated of it:
/// a `Duration` has no view here.
#[verifier::external_body]
fn whole_seconds(d: &std::time::Duration) -> (r: u64) {
    d.as_secs()
}

/// The current Unix time in seconds; `None` when the system clock reads a
/// time before 1970.
fn unix_now() -> (r: Option<u64>) {
    let now = system_now();
    match since_unix_epoch(&now) {
        Some(d) => Some(whole_seconds(&d)),
        None => None,
    }
}

/// The lower-case hexadecimal digit for `d`, from 0 to 15.
pub open spec fn hex_digit(d: int) -> char {
    if d < 10 {
        ('0' as int + d) as char
    } else {
        ('a' as int + d - 10) as char
    }
}

/// The `k`-th hexadecimal digit of `id`, counting from the most significant
/// (`k` from 0 to 31).
pub open spec fn nibble(id: u128, k: int) -> int {
    (id as int / pow2((4 * (31 - k)) as nat) as int) % 16
}

/// The hyphenated lower-case text of the UUID with bits `id`: its 32
/// hexadecimal digits, most significant first, with hyphens after the
/// 8th, 12th, 16th and 20th (`xxxxxxxx-xxxx-xxxx-xxxx-xxxxxxxxxxxx`).
pub open spec fn uuid_text(id: u128) -> Seq<char> {
    Seq::new(
        36,
        |i: int|
            if i == 8 || i == 13 || i == 18 || i == 23 {
                '-'
            } else {
                hex_digit(
                    nibble(
                        id,
                        i - (if i < 8 {
                            0int
                        } else if i < 13 {
                            1int
                        } else if i < 18 {
                            2int
                        } else if i < 23 {
                            3int
                        } else {
                            4int
                        }),
                    ),
                )
            },
    )
}

/// A fresh random UUID (`uuid::Uuid::new_v4`), as its 128 bits. Which one is
/// random; claimed, from the crate's source (it masks in the version and
/// variant bits): its version digit is 4, and its variant is RFC 4122 (the
/// two top bits of its 17th digit are `10`).
#[verifier::external_body]
pub(crate) fn new_uuid() -> (r: u128)
    ensures
        nibble(r, 12) == 4,
        nibble(r, 16) / 4 == 2,
{
    uuid::Uuid::new_v4().as_u128()
}

/// The text of the UUID with bits `id` (`to_string` of
/// `uuid::Uuid::from_u128(id)`), which the crate formats in the hyphenated
/// lower-case form.
#[verifier::external_body]
pub(crate) fn uuid_hyphenated(id: u128) -> (r: String)
    ensures
        r@ == uuid_text(id),
{
    uuid::Uuid::from_u128(id).to_string()
}

/// A new token, valid for `hours` hours from now, whose text is a fresh
/// random UUID. `None` when the expiry does not fit in a `u64`, or when the
/// system clock reads a time before 1970.
pub fn generate_token(hours: u64) -> (r: Option<Token>)
    ensures
        hours * seconds_per_hour() > u64::MAX ==> r is None,
        r matches Some(t) ==> t.expires_at >= hours * seconds_per_hour() && t.value@.len() == 36,
        r matches Some(t) ==> exists|id: u128|
            t.value@ == uuid_text(id) && nibble(id, 12) == 4 && nibble(id, 16) / 4 == 2,
{
    match unix_now() {
        Some(now) => {
            let id = new_uuid();
            let value = uuid_hyphenated(id);
            let r = token_at(value, now, hours);
            proof {
                if let Some(ref t) = r {
                    assert(t.value@ == uuid_text(id));
                }
            }
            r
        },
        None => None,
    }
}

/// Whether `token` is valid now; `None` when the system clock reads a time
/// before 1970.
pub fn validate_token(token: &Token) -> (r: Option<bool>)
    ensures
        r matches Some(b) ==> (b ==> token.expires_at > 0),
{
    match unix_now() {
        Some(now) => Some(token_valid_at(token, now)),
        None => None,
    }
}

// ---------------------------------------------------------------------------
// Passwords
// ---------------------------------------------------------------------------

#[verifier::external_type_specification]
#[verifier::external_body]
pub struct ExBcryptError(bcrypt::BcryptError);

/// What went wrong while hashing or checking a password.
#[derive(Debug)]
pub enum AuthError {
    Bcrypt(bcrypt::BcryptError),
}

/// What `bcrypt::verify` answers for `password` against the stored hash
/// `hashed`: `Some(b)` where it returns `Ok(b)`, `None` where it returns an
/// error.
pub uninterp spec fn bcrypt_checks(password: Seq<char>, hashed: Seq<char>) -> Option<bool>;

/// `bcrypt::hash(password, bcrypt::DEFAULT_COST)`: hashes `password` with a
/// fresh random salt. The salt makes the hash random, so it gets no name.
/// Claimed, from the crate's source: an error comes only from the random
/// source; a hash it returns is `$2b$12$` followed by 22 characters of salt
/// and 31 of digest (60 in all), and is well formed, so that `verify` answers
/// without error for every password, and answers `true` for `password`
/// itself (the same salt and cost give the same digest).
#[verifier::external_body]
fn bcrypt_hash(password: &str) -> (r: Result<String, bcrypt::BcryptError>)
    ensures
        r matches Ok(h) ==> h@.len() == 60 && h@.subrange(0, 7) == "$2b$12$"@,
        r matches Ok(h) ==> bcrypt_checks(password@, h@) == Some(true),
        r matches Ok(h) ==> forall|p: Seq<char>| #[trigger] bcrypt_checks(p, h@) is Some,
{
    bcrypt::hash(password, bcrypt::DEFAULT_COST)
}

/// `bcrypt::verify(password, hashed)`: whether `password` hashes, with the
/// salt and cost stored in `hashed`, to the digest stored there. Its answer
/// is the name `bcrypt_checks` of the two texts.
#[verifier::external_body]
fn bcrypt_verify(password: &str, hashed: &str) -> (r: Result<bool, bcrypt::BcryptError>)
    ensures
        r is Ok <==> bcrypt_checks(password@, hashed@) is Some,
        r matches Ok(b) ==> bcrypt_checks(password@, hashed@) == Some(b),
{
    bcrypt::verify(password, hashed)
}

/// The hash of `password`, which checks against `password` itself.
pub fn password_hash(password: &str) -> (r: Result<String, AuthError>)
    ensures
        r matches Ok(h) ==> h@.len() == 60 && h@.subrange(0, 7) == "$2b$12$"@,
        r matches Ok(h) ==> bcrypt_checks(password@, h@) == Some(true),
        r matches Ok(h) ==> forall|p: Seq<char>| #[trigger] bcrypt_checks(p, h@) is Some,
{
    match bcrypt_hash(password) {
        Ok(h) => Ok(h),
        Err(e) => Err(AuthError::Bcrypt(e)),
    }
}

/// An account: a user name and the hash of its password.
pub struct Credential {
    pub username: String,
    pub hashed_password: String,
}

/// The built-in account names.
pub open spec fn admin_name() -> Seq<char> {
    "admin"@
}

pub open spec fn plain_user_name() -> Seq<char> {
    "user"@
}

/// Whether `name` is one of the built-in accounts.
pub open spec fn is_builtin_account(name: Seq<char>) -> bool {
    name == admin_name() || name == plain_user_name()
}

/// Whether `name` and `password` are a built-in account with its password
/// (each built-in account's password is its name).
pub open spec fn is_builtin_login(name: Seq<char>, password: Seq<char>) -> bool {
    is_builtin_account(name) && password == name
}

/// A table of accounts whose hashes check against their passwords.
pub open spec fn builtin_table(t: Seq<Credential>) -> bool {
    &&& t.len() == 2
    &&& t[0].username@ == admin_name()
    &&& t[1].username@ == plain_user_name()
    &&& is_account_hash(t[0].username@, t[0].hashed_password@)
    &&& is_account_hash(t[1].username@, t[1].hashed_password@)
}

/// A stored hash `h` made from `password`: bcrypt checks `password` against
/// it as right, and answers for every password without error.
pub open spec fn is_account_hash(password: Seq<char>, h: Seq<char>) -> bool {
    &&& bcrypt_checks(password, h) == Some(true)
    &&& forall|p: Seq<char>| #[trigger] bcrypt_checks(p, h) is Some
}

/// A login that bcrypt accepts against the hash of a built-in account
/// (whose password is its name).
pub open spec fn credentials_pass(name: Seq<char>, password: Seq<char>) -> bool {
    &&& is_builtin_account(name)
    &&& exists|h: Seq<char>| is_account_hash(name, h) && bcrypt_checks(password, h) == Some(true)
}

/// A login that names no built-in account, or that bcrypt refuses against
/// the hash of the account it names.
pub open spec fn credentials_refused(name: Seq<char>, password: Seq<char>) -> bool {
    ||| !is_builtin_account(name)
    ||| exists|h: Seq<char>| is_account_hash(name, h) && bcrypt_checks(password, h) == Some(false)
}

/// The built-in accounts, `admin` and `user`, each with the hash of a
/// password equal to its name.
pub fn builtin_credentials() -> (r: Result<Vec<Credential>, AuthError>)
    ensures
        r matches Ok(t) ==> builtin_table(t@),
{
    let admin_hash = password_hash("admin")?;
    let user_hash = password_hash("user")?;
    let mut t: Vec<Credential> = Vec::new();
    t.push(Credential { username: String::from_str("admin"), hashed_password: admin_hash });
    t.push(Credential { username: String::from_str("user"), hashed_password: user_hash });
    Ok(t)
}

/// The first account of `table` named `username`.
pub fn lookup_credential(table: &Vec<Credential>, username: &String) -> (r: Option<usize>)
    ensures
        r matches Some(i) ==> i < table@.len() && table@[i as int].username@ == username@
            && forall|j: int| 0 <= j < i ==> table@[j].username@ != username@,
        r is None ==> forall|j: int| 0 <= j < table@.len() ==> table@[j].username@ != username@,
{
    let mut i: usize = 0;
    while i < table.len()
        invariant
            i <= table@.len(),
            forall|j: int| 0 <= j < i ==> table@[j].username@ != username@,
        decreases table@.len() - i,
    {
        if table[i].username == *username {
            return Some(i);
        }
        i = i + 1;
    }
    None
}

/// Checks `auth` against `table`: a name that no account has is refused;
/// otherwise the answer is bcrypt's check of the password against the
/// account's hash.
pub fn check_credentials(table: &Vec<Credential>, auth: &AuthMessage) -> (r: Result<bool, AuthError>)
    ensures
        (forall|j: int| 0 <= j < table@.len() ==> table@[j].username@ != auth.sender_username@)
            ==> r matches Ok(false),
        forall|i: int|
            0 <= i < table@.len() && table@[i].username@ == auth.sender_username@
            && (forall|j: int| 0 <= j < i ==> table@[j].username@ != auth.sender_username@)
            ==> match bcrypt_checks(auth.password@, table@[i].hashed_password@) {
                Some(b) => r matches Ok(x) && x == b,
                None => r is Err,
            },
{
    match lookup_credential(table, &auth.sender_username) {
        Some(i) => {
            match bcrypt_verify(auth.password.as_str(), table[i].hashed_password.as_str()) {
                Ok(b) => Ok(b),
                Err(e) => Err(AuthError::Bcrypt(e)),
            }
        },
        None => Ok(false),
    }
}

/// Checks a login against the built-in accounts: the answer is bcrypt's
/// check of the password against a fresh hash of the named account's
/// password, and a name other than `admin` and `user` is refused. Fails
/// (`Err`) only where hashing the built-in passwords fails.
pub fn auth_user(auth: &AuthMessage) -> (r: Result<bool, AuthError>)
    ensures
        r matches Ok(b) ==> (b ==> credentials_pass(auth.sender_username@, auth.password@)),
        r matches Ok(b) ==> (!b ==> credentials_refused(auth.sender_username@, auth.password@)),
        r matches Ok(true) ==> is_builtin_account(auth.sender_username@),
        is_builtin_login(auth.sender_username@, auth.password@) ==> (r is Ok ==> r matches Ok(true)),
{
    let table = builtin_credentials()?;
    proof {
        reveal_strlit("admin");
        reveal_strlit("user");
    }
    let r = check_credentials(&table, auth);
    proof {
        let name = auth.sender_username@;
        let pw = auth.password@;
        if name == admin_name() {
            let h = table@[0].hashed_password@;
            assert(is_account_hash(name, h));
            assert(bcrypt_checks(pw, h) is Some);
        } else if name == plain_user_name() {
            let h = table@[1].hashed_password@;
            assert(table@[0].username@ != name);
            assert(is_account_hash(name, h));
            assert(bcrypt_checks(pw, h) is Some);
        }
    }
    r
}

} // verus!
