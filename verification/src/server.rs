//! The server's registry: the connected peers, each with the channel that
//! feeds its WebSocket, and the session token of each user.
//!
//! Both tables are `DashMap`s held in private fields of `Registry` and
//! changed only through `&mut Registry`, so their contents are a value that
//! the contracts can follow: `registered()` (each peer's name and whether
//! it is authenticated, by address) and `tokens()` (each user's token, by
//! name).
use vstd::prelude::*;
use crate::user::{PeerAddr, User};
use rand::distributions::Distribution;

verus! {

#[verifier::external_type_specification]
#[verifier::external_body]
#[verifier::reject_recursive_types(K)]
#[verifier::reject_recursive_types(V)]
#[verifier::reject_recursive_types(S)]
pub struct ExDashMap<K, V, S>(dashmap::DashMap<K, V, S>);

#[verifier::external_type_specification]
#[verifier::external_body]
#[verifier::reject_recursive_types(T)]
pub struct ExSender<T>(tokio::sync::mpsc::Sender<T>);

#[verifier::external_type_specification]
#[verifier::external_body]
pub struct ExMessage(tokio_tungstenite::tungstenite::Message);

#[verifier::external_type_specification]
#[verifier::external_body]
pub struct ExUuid(uuid::Uuid);

/// The channel that feeds a peer's WebSocket.
pub type PeerSender = tokio::sync::mpsc::Sender<tokio_tungstenite::tungstenite::Message>;

/// A registered peer: its name, whether it is authenticated, and its channel.
pub struct PeerEntry {
    pub username: String,
    pub authenticated: bool,
    pub sender: PeerSender,
}

/// What the peer table holds: each peer's name and whether it is
/// authenticated, by address.
pub uninterp spec fn peer_table(m: dashmap::DashMap<PeerAddr, PeerEntry>) -> Map<PeerAddr, (Seq<char>, bool)>;

/// Each peer's channel, by address. A `Sender` is seen here only as the
/// channel it feeds, so a clone of a sender is the same value.
pub uninterp spec fn peer_senders(m: dashmap::DashMap<PeerAddr, PeerEntry>) -> Map<PeerAddr, PeerSender>;

/// What the token table holds: each user's token (as its 128 bits), by name.
pub uninterp spec fn token_table(m: dashmap::DashMap<String, uuid::Uuid>) -> Map<Seq<char>, u128>;

/// No peers.
pub open spec fn no_peers() -> Map<PeerAddr, (Seq<char>, bool)> {
    Map::empty()
}

/// No channels.
pub open spec fn no_senders() -> Map<PeerAddr, PeerSender> {
    Map::empty()
}

/// No tokens.
pub open spec fn no_tokens() -> Map<Seq<char>, u128> {
    Map::empty()
}

/// `DashMap::new()` for the peer table: an empty table.
#[verifier::external_body]
fn new_peer_table() -> (r: dashmap::DashMap<PeerAddr, PeerEntry>)
    ensures
        peer_table(r) == no_peers(),
        peer_senders(r) == no_senders(),
{
    dashmap::DashMap::new()
}

/// `DashMap::new()` for the token table: an empty table.
#[verifier::external_body]
fn new_token_table() -> (r: dashmap::DashMap<String, uuid::Uuid>)
    ensures
        token_table(r) == no_tokens(),
{
    dashmap::DashMap::new()
}

/// `DashMap::insert(addr, entry)`: the table maps `addr` to `entry`, in
/// place of what it mapped `addr` to before; nothing else changes.
#[verifier::external_body]
fn peers_insert(m: &mut dashmap::DashMap<PeerAddr, PeerEntry>, addr: PeerAddr, entry: PeerEntry)
    ensures
        peer_table(*final(m)) == peer_table(*old(m)).insert(addr, (entry.username@, entry.authenticated)),
        peer_senders(*final(m)) == peer_senders(*old(m)).insert(addr, entry.sender),
{
    m.insert(addr, entry);
}

/// `DashMap::remove(addr)`: takes out the entry of `addr` (found by `==`
/// on addresses, which compares every field), giving its value; nothing
/// else changes.
#[verifier::external_body]
fn peers_remove(m: &mut dashmap::DashMap<PeerAddr, PeerEntry>, addr: &PeerAddr) -> (r: Option<PeerEntry>)
    ensures
        match r {
            Some(e) => peer_table(*old(m)).contains_key(*addr)
                && peer_table(*old(m))[*addr] == (e.username@, e.authenticated)
                && peer_table(*final(m)) == peer_table(*old(m)).remove(*addr)
                && peer_senders(*old(m)).contains_key(*addr)
                && peer_senders(*old(m))[*addr] == e.sender
                && peer_senders(*final(m)) == peer_senders(*old(m)).remove(*addr),
            None => !peer_table(*old(m)).contains_key(*addr) && peer_table(*final(m)) == peer_table(*old(m))
                && peer_senders(*final(m)) == peer_senders(*old(m)),
        },
{
    match m.remove(addr) {
        Some((_, e)) => Some(e),
        None => None,
    }
}

/// `DashMap::get(addr)`: the name and state of the peer at `addr`.
#[verifier::external_body]
fn peers_get(m: &dashmap::DashMap<PeerAddr, PeerEntry>, addr: &PeerAddr) -> (r: Option<(String, bool)>)
    ensures
        match r {
            Some(v) => peer_table(*m).contains_key(*addr) && peer_table(*m)[*addr] == (v.0@, v.1),
            None => !peer_table(*m).contains_key(*addr),
        },
{
    match m.get(addr) {
        Some(e) => Some((e.username.clone(), e.authenticated)),
        None => None,
    }
}

/// `DashMap::get(addr)`: a handle on the channel of the peer at `addr`
/// (`Sender::clone`), if one is registered there.
#[verifier::external_body]
fn peers_sender(m: &dashmap::DashMap<PeerAddr, PeerEntry>, addr: &PeerAddr) -> (r: Option<PeerSender>)
    ensures
        r is Some <==> peer_table(*m).contains_key(*addr),
        r matches Some(s) ==> peer_senders(*m).contains_key(*addr) && s == peer_senders(*m)[*addr],
{
    match m.get(addr) {
        Some(e) => Some(e.sender.clone()),
        None => None,
    }
}

/// `DashMap::iter()`: the addresses of the table, each once, in the
/// table's order.
#[verifier::external_body]
fn peers_addrs(m: &dashmap::DashMap<PeerAddr, PeerEntry>) -> (r: Vec<PeerAddr>)
    ensures
        r@.no_duplicates(),
        forall|a: PeerAddr| r@.contains(a) <==> peer_table(*m).contains_key(a),
{
    let mut v = Vec::new();
    for e in m.iter() {
        v.push(*e.key());
    }
    v
}

/// `DashMap::insert(username, Uuid::from_u128(id))`: records `id` as the
/// token of `username`, in place of its former token; nothing else changes.
#[verifier::external_body]
fn tokens_insert(m: &mut dashmap::DashMap<String, uuid::Uuid>, username: String, id: u128)
    ensures
        token_table(*final(m)) == token_table(*old(m)).insert(username@, id),
{
    m.insert(username, uuid::Uuid::from_u128(id));
}

/// `DashMap::remove(username)`: forgets the token of `username` (the entry
/// is found by `==` on names), giving it; nothing else changes.
#[verifier::external_body]
fn tokens_remove(m: &mut dashmap::DashMap<String, uuid::Uuid>, username: &str) -> (r: Option<u128>)
    ensures
        match r {
            Some(id) => token_table(*old(m)).contains_key(username@)
                && token_table(*old(m))[username@] == id
                && token_table(*final(m)) == token_table(*old(m)).remove(username@),
            None => !token_table(*old(m)).contains_key(username@)
                && token_table(*final(m)) == token_table(*old(m)),
        },
{
    match m.remove(username) {
        Some((_, v)) => Some(v.as_u128()),
        None => None,
    }
}

/// `DashMap::get(username)`: the token recorded for `username`.
#[verifier::external_body]
fn tokens_get(m: &dashmap::DashMap<String, uuid::Uuid>, username: &String) -> (r: Option<u128>)
    ensures
        match r {
            Some(id) => token_table(*m).contains_key(username@) && token_table(*m)[username@] == id,
            None => !token_table(*m).contains_key(username@),
        },
{
    match m.get(username) {
        Some(e) => Some(e.value().as_u128()),
        None => None,
    }
}

/// The token on record for `name` in a token table.
pub open spec fn on_record(tokens: Map<Seq<char>, u128>, name: Seq<char>) -> Option<u128> {
    if tokens.contains_key(name) {
        Some(tokens[name])
    } else {
        None
    }
}

/// The registry of connected peers and of session tokens.
pub struct Registry {
    peers: dashmap::DashMap<PeerAddr, PeerEntry>,
    user_token: dashmap::DashMap<String, uuid::Uuid>,
}

impl Registry {
    /// Each registered peer's name and whether it is authenticated, by address.
    pub closed spec fn registered(&self) -> Map<PeerAddr, (Seq<char>, bool)> {
        peer_table(self.peers)
    }

    /// Each registered peer's channel, by address.
    pub closed spec fn senders(&self) -> Map<PeerAddr, PeerSender> {
        peer_senders(self.peers)
    }

    /// Each user's session token, by name.
    pub closed spec fn tokens(&self) -> Map<Seq<char>, u128> {
        token_table(self.user_token)
    }

    /// An empty registry.
    pub fn new() -> (r: Registry)
        ensures
            r.registered() == no_peers(),
            r.senders() == no_senders(),
            r.tokens() == no_tokens(),
    {
        Registry { peers: new_peer_table(), user_token: new_token_table() }
    }

    /// Registers `user`, with the channel `sender`, at its address.
    pub fn register(&mut self, user: User, sender: PeerSender)
        ensures
            final(self).registered() == old(self).registered().insert(
                user.source_addr,
                (user.username@, user.authenticated),
            ),
            final(self).senders() == old(self).senders().insert(user.source_addr, sender),
            final(self).tokens() == old(self).tokens(),
    {
        let addr = user.source_addr;
        peers_insert(
            &mut self.peers,
            addr,
            PeerEntry { username: user.username, authenticated: user.authenticated, sender },
        );
    }

    /// The user registered at `addr`, if any.
    pub fn user_at(&self, addr: PeerAddr) -> (r: Option<User>)
        ensures
            match r {
                Some(u) => self.registered().contains_key(addr) && u.source_addr == addr
                    && self.registered()[addr] == (u.username@, u.authenticated),
                None => !self.registered().contains_key(addr),
            },
    {
        match peers_get(&self.peers, &addr) {
            Some((username, authenticated)) => Some(User { source_addr: addr, username, authenticated }),
            None => None,
        }
    }

    /// The channel of the peer at `addr`, if one is registered there.
    pub fn sender_of(&self, addr: PeerAddr) -> (r: Option<PeerSender>)
        ensures
            r is Some <==> self.registered().contains_key(addr),
            r matches Some(s) ==> self.senders().contains_key(addr) && s == self.senders()[addr],
    {
        peers_sender(&self.peers, &addr)
    }

    /// The addresses of all registered peers, each once.
    pub fn addrs(&self) -> (r: Vec<PeerAddr>)
        ensures
            r@.no_duplicates(),
            forall|a: PeerAddr| r@.contains(a) <==> self.registered().contains_key(a),
    {
        peers_addrs(&self.peers)
    }

    /// The addresses of the registered peers named `name`, each once.
    pub fn peers_named(&self, name: &String) -> (r: Vec<PeerAddr>)
        ensures
            r@.no_duplicates(),
            forall|a: PeerAddr|
                r@.contains(a) <==> (self.registered().contains_key(a) && self.registered()[a].0 == name@),
    {
        let all = peers_addrs(&self.peers);
        let mut r: Vec<PeerAddr> = Vec::new();
        let mut i: usize = 0;
        while i < all.len()
            invariant
                i <= all@.len(),
                all@.no_duplicates(),
                forall|a: PeerAddr| all@.contains(a) <==> self.registered().contains_key(a),
                r@.no_duplicates(),
                forall|a: PeerAddr|
                    r@.contains(a) <==> (exists|j: int| 0 <= j < i && all@[j] == a)
                        && self.registered()[a].0 == name@,
            decreases all@.len() - i,
        {
            let a = all[i];
            let ghost r0 = r@;
            assert(all@.contains(a));
            let matched = match peers_get(&self.peers, &a) {
                Some((n, _)) => n == *name,
                None => false,
            };
            assert(matched == (self.registered()[a].0 == name@));
            if matched {
                assert(!r0.contains(a)) by {
                    if r0.contains(a) {
                        let j = choose|j: int| 0 <= j < i && all@[j] == a;
                        assert(all@[j] == all@[i as int]);
                    }
                }
                r.push(a);
            }
            assert forall|b: PeerAddr|
                r@.contains(b) <==> (exists|j: int| 0 <= j < i + 1 && all@[j] == b)
                    && self.registered()[b].0 == name@ by {
                if r@.contains(b) {
                    if r0.contains(b) {
                        let j = choose|j: int| 0 <= j < i && all@[j] == b;
                        assert(0 <= j < i + 1 && all@[j] == b);
                    } else {
                        assert(b == a);
                        assert(all@[i as int] == b);
                    }
                }
                if (exists|j: int| 0 <= j < i + 1 && all@[j] == b) && self.registered()[b].0 == name@ {
                    let j = choose|j: int| 0 <= j < i + 1 && all@[j] == b;
                    if j < i {
                        assert(r0.contains(b));
                        let k = choose|k: int| 0 <= k < r0.len() && r0[k] == b;
                        assert(r@[k] == b);
                    } else {
                        assert(b == a);
                        assert(r@[r@.len() - 1] == b);
                    }
                }
            }
            i = i + 1;
        }
        assert forall|a: PeerAddr|
            r@.contains(a) <==> (self.registered().contains_key(a) && self.registered()[a].0 == name@) by {
            if self.registered().contains_key(a) {
                assert(all@.contains(a));
            }
            if exists|j: int| 0 <= j < i && all@[j] == a {
                let j = choose|j: int| 0 <= j < i && all@[j] == a;
                assert(all@.contains(a));
            }
        }
        r
    }

    /// The token recorded for `name`, if any.
    pub fn token_of(&self, name: &String) -> (r: Option<u128>)
        ensures
            r == on_record(self.tokens(), name@),
    {
        tokens_get(&self.user_token, name)
    }
}

/// Why a registry update failed.
#[derive(Debug, PartialEq, Eq, Structural)]
pub enum ServerError {
    /// The user to update was not registered.
    UpdateFailed,
}

/// `user` after logging in as `username`: same address, the new name, and
/// authenticated.
pub fn reauthenticated(user: User, username: &str) -> (r: User)
    ensures
        r.source_addr == user.source_addr,
        r.username@ == username@,
        r.authenticated,
{
    User { source_addr: user.source_addr, username: String::from_str(username), authenticated: true }
}

/// Marks the peer registered at `user`'s address as authenticated under
/// the name `username`, keeping its channel (the channels do not change). Fails, changing nothing, when
/// no peer is registered at that address.
pub fn update_auth(reg: &mut Registry, user: &User, username: &str) -> (r: Result<(), ServerError>)
    ensures
        r is Ok <==> old(reg).registered().contains_key(user.source_addr),
        r is Ok ==> final(reg).registered() == old(reg).registered().insert(
            user.source_addr,
            (username@, true),
        ),
        r is Err ==> final(reg).registered() == old(reg).registered(),
        final(reg).senders() == old(reg).senders(),
        final(reg).tokens() == old(reg).tokens(),
{
    match peers_remove(&mut reg.peers, &user.source_addr) {
        Some(old_entry) => {
            let entry = PeerEntry {
                username: String::from_str(username),
                authenticated: true,
                sender: old_entry.sender,
            };
            peers_insert(&mut reg.peers, user.source_addr, entry);
            proof {
                assert(final(reg).registered() =~= old(reg).registered().insert(user.source_addr, (username@, true)));
                assert(final(reg).senders() =~= old(reg).senders());
            }
            Ok(())
        },
        None => Err(ServerError::UpdateFailed),
    }
}

/// Records `id` as the token of `username`, in place of its former token.
pub fn add_token(reg: &mut Registry, id: u128, username: String) -> (r: Result<(), ServerError>)
    ensures
        r is Ok,
        final(reg).tokens() == old(reg).tokens().insert(username@, id),
        final(reg).registered() == old(reg).registered(),
        final(reg).senders() == old(reg).senders(),
{
    tokens_insert(&mut reg.user_token, username, id);
    Ok(())
}

/// Forgets the token of `username`, if there is one.
pub fn remove_token(reg: &mut Registry, username: &str) -> (r: Result<(), ServerError>)
    ensures
        r is Ok,
        final(reg).tokens() == old(reg).tokens().remove(username@),
        final(reg).registered() == old(reg).registered(),
        final(reg).senders() == old(reg).senders(),
{
    let removed = tokens_remove(&mut reg.user_token, username);
    proof {
        if removed is None {
            assert(old(reg).tokens().remove(username@) =~= old(reg).tokens());
        }
    }
    Ok(())
}

/// Logging in twice under the same name leaves the registry as the first
/// login left it.
pub proof fn lemma_update_auth_idempotent(m: Map<PeerAddr, (Seq<char>, bool)>, a: PeerAddr, name: Seq<char>)
    ensures
        m.insert(a, (name, true)).contains_key(a),
        m.insert(a, (name, true)).insert(a, (name, true)) == m.insert(a, (name, true)),
{
    assert(m.insert(a, (name, true)).insert(a, (name, true)) =~= m.insert(a, (name, true)));
}

/// Recording a token for a name that had none and then forgetting it gives
/// back the table as it was.
pub proof fn lemma_add_then_remove_token(m: Map<Seq<char>, u128>, name: Seq<char>, id: u128)
    requires
        !m.contains_key(name),
    ensures
        m.insert(name, id).remove(name) == m,
{
    assert(m.insert(name, id).remove(name) =~= m);
}

// ---------------------------------------------------------------------------
// Names of users that have not logged in
// ---------------------------------------------------------------------------

/// An ASCII letter or digit.
pub open spec fn is_ascii_alphanumeric(c: char) -> bool {
    ('a' <= c <= 'z') || ('A' <= c <= 'Z') || ('0' <= c <= '9')
}

#[verifier::external_type_specification]
#[verifier::external_body]
pub struct ExThreadRng(rand::rngs::ThreadRng);

/// `rand::thread_rng()`: the thread's random generator.
#[verifier::external_body]
fn thread_rng() -> (r: rand::rngs::ThreadRng) {
    rand::thread_rng()
}

/// `Alphanumeric.sample(rng)`: a random byte. Claimed, from the crate's
/// documentation and source: it is the code of an ASCII letter or digit.
/// Which one is random.
#[verifier::external_body]
fn alphanumeric_byte(rng: &mut rand::rngs::ThreadRng) -> (r: u8)
    ensures
        is_ascii_alphanumeric(r as char),
{
    rand::distributions::Alphanumeric.sample(rng)
}

/// `String::push`: appends `ch`, as the standard library documents.
pub assume_specification[ String::push ](s: &mut String, ch: char)
    ensures
        final(s)@ == old(s)@.push(ch),
;

/// `len` random ASCII letters and digits.
fn random_alphanumeric(len: usize) -> (r: String)
    ensures
        r@.len() == len,
        forall|i: int| 0 <= i < len ==> is_ascii_alphanumeric(#[trigger] r@[i]),
{
    let mut rng = thread_rng();
    let mut r = String::new();
    let mut n: usize = 0;
    while n < len
        invariant
            n <= len,
            r@.len() == n,
            forall|i: int| 0 <= i < n ==> is_ascii_alphanumeric(#[trigger] r@[i]),
        decreases len - n,
    {
        let b = alphanumeric_byte(&mut rng);
        r.push(b as char);
        n = n + 1;
    }
    r
}

/// The prefix of the name given to a user who has not logged in.
pub open spec fn unauth_prefix() -> Seq<char> {
    "unauth_user-"@
}

/// The name of a user who has not logged in, from its random part.
pub fn unauth_username(suffix: &String) -> (r: String)
    ensures
        r@ == unauth_prefix() + suffix@,
{
    crate::message::prefixed("unauth_user-", suffix)
}

/// A fresh name for a user who has not logged in: `unauth_user-` and six
/// random ASCII letters or digits.
pub fn generate_username() -> (r: String)
    ensures
        r@.len() == unauth_prefix().len() + 6,
        r@.subrange(0, unauth_prefix().len() as int) == unauth_prefix(),
        forall|i: int|
            unauth_prefix().len() <= i < r@.len() ==> is_ascii_alphanumeric(#[trigger] r@[i]),
{
    let suffix = random_alphanumeric(6);
    let r = unauth_username(&suffix);
    proof {
        assert(r@.subrange(0, unauth_prefix().len() as int) =~= unauth_prefix());
        assert forall|i: int| unauth_prefix().len() <= i < r@.len() implies is_ascii_alphanumeric(
            #[trigger] r@[i],
        ) by {
            assert(r@[i] == suffix@[i - unauth_prefix().len()]);
        }
    }
    r
}

/// The user registered for a new connection from `addr`: not logged in,
/// under a fresh `unauth_user-` name.
pub fn connected_user(addr: PeerAddr) -> (r: User)
    ensures
        r.source_addr == addr,
        !r.authenticated,
        r.username@.len() == unauth_prefix().len() + 6,
        r.username@.subrange(0, unauth_prefix().len() as int) == unauth_prefix(),
        forall|i: int|
            unauth_prefix().len() <= i < r.username@.len() ==> is_ascii_alphanumeric(#[trigger] r.username@[i]),
{
    User { source_addr: addr, username: generate_username(), authenticated: false }
}

} // verus!
