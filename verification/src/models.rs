//! The records of the manager: servers, secrets, the links between them and
//! the descriptor of a session.

use crate::clock::{now, Timestamp};
use crate::ids::fresh_id;
use crate::text::{decimal, decimal_string, is_blank};
use vstd::prelude::*;
use vstd::string::*;

verus! {

/// The texts of a sequence of strings.
pub open spec fn texts(v: Seq<String>) -> Seq<Seq<char>> {
    v.map_values(|s: String| s@)
}

/// The text of an optional string.
pub open spec fn opt_text(o: Option<String>) -> Option<Seq<char>> {
    match o {
        Some(s) => Some(s@),
        None => None,
    }
}

/// A copy of `v` with the same texts.
pub fn clone_strings(v: &Vec<String>) -> (r: Vec<String>)
    ensures
        texts(r@) == texts(v@),
{
    let mut r: Vec<String> = Vec::new();
    let mut i: usize = 0;
    while i < v.len()
        invariant
            i <= v.len(),
            r@.len() == i,
            forall|j: int| 0 <= j < i ==> r@[j]@ == v@[j]@,
        decreases v.len() - i,
    {
        r.push(v[i].clone());
        i = i + 1;
    }
    assert(texts(r@) =~= texts(v@));
    r
}

/// A copy of `o` with the same text.
pub fn clone_opt_string(o: &Option<String>) -> (r: Option<String>)
    ensures
        opt_text(r) == opt_text(*o),
{
    match o {
        Some(s) => Some(s.clone()),
        None => None,
    }
}

/// A copy of `v` with the same bytes.
pub fn clone_bytes(v: &Vec<u8>) -> (r: Vec<u8>)
    ensures
        r@ == v@,
{
    let mut r: Vec<u8> = Vec::new();
    let mut i: usize = 0;
    while i < v.len()
        invariant
            i <= v.len(),
            r@ == v@.subrange(0, i as int),
        decreases v.len() - i,
    {
        r.push(v[i]);
        assert(v@.subrange(0, i as int).push(v@[i as int]) =~= v@.subrange(0, i + 1));
        i = i + 1;
    }
    assert(v@.subrange(0, v@.len() as int) =~= v@);
    r
}

/// What a stored secret is.
#[derive(Debug, Clone, Copy, PartialEq, Eq, Structural)]
pub enum SecretKind {
    /// A plain-text password.
    Password,
    /// An SSH private key, in PEM or OpenSSH form.
    PrivateKey,
    /// An API or bearer token.
    Token,
    /// A kubeconfig.
    Kubeconfig,
}

/// A credential that can be linked to servers. Only its encrypted form is held.
#[derive(Debug)]
pub struct Secret {
    pub id: u128,
    pub name: String,
    pub kind: SecretKind,
    /// The login name that goes with a password.
    pub username: Option<String>,
    /// The payload, encrypted under the master key.
    pub encrypted_value: Vec<u8>,
    pub created_at: Timestamp,
    pub updated_at: Timestamp,
}

/// The mathematical value of a `Secret`.
pub struct SecretView {
    pub id: u128,
    pub name: Seq<char>,
    pub kind: SecretKind,
    pub username: Option<Seq<char>>,
    pub encrypted_value: Seq<u8>,
    pub created_at: Timestamp,
    pub updated_at: Timestamp,
}

impl View for Secret {
    type V = SecretView;

    open spec fn view(&self) -> SecretView {
        SecretView {
            id: self.id,
            name: self.name@,
            kind: self.kind,
            username: opt_text(self.username),
            encrypted_value: self.encrypted_value@,
            created_at: self.created_at,
            updated_at: self.updated_at,
        }
    }
}

impl Clone for Secret {
    fn clone(&self) -> (r: Self)
        ensures
            r@ == self@,
    {
        Secret {
            id: self.id,
            name: self.name.clone(),
            kind: self.kind,
            username: clone_opt_string(&self.username),
            encrypted_value: clone_bytes(&self.encrypted_value),
            created_at: self.created_at,
            updated_at: self.updated_at,
        }
    }
}

impl Secret {
    /// The secret with the given identifier, made at time `at`.
    pub fn with_identity(
        id: u128,
        at: Timestamp,
        name: String,
        kind: SecretKind,
        encrypted_value: Vec<u8>,
        username: Option<String>,
    ) -> (r: Self)
        ensures
            r@ == (SecretView {
                id,
                name: name@,
                kind,
                username: opt_text(username),
                encrypted_value: encrypted_value@,
                created_at: at,
                updated_at: at,
            }),
    {
        Secret { id, name, kind, username, encrypted_value, created_at: at, updated_at: at }
    }

    /// A new secret, with a fresh identifier and the current time.
    pub fn new(
        name: String,
        kind: SecretKind,
        encrypted_value: Vec<u8>,
        username: Option<String>,
    ) -> (r: Self)
        ensures
            r@.name == name@,
            r@.kind == kind,
            r@.username == opt_text(username),
            r@.encrypted_value == encrypted_value@,
            r@.created_at == r@.updated_at,
    {
        Secret::with_identity(fresh_id(), now(), name, kind, encrypted_value, username)
    }
}

/// How a server is spoken to.
#[derive(Debug, Clone, Copy, PartialEq, Eq, Structural)]
pub enum Protocol {
    Ssh,
    Sftp,
    Ftp,
}

impl Default for Protocol {
    fn default() -> (r: Self)
        ensures
            r == Protocol::Ssh,
    {
        Protocol::Ssh
    }
}

/// A remote host and how to log in to it.
#[derive(Debug)]
pub struct Server {
    pub id: u128,
    pub name: String,
    pub host: String,
    pub port: u16,
    pub username: String,
    pub protocol: Protocol,
    pub tags: Vec<String>,
    pub created_at: Timestamp,
    pub updated_at: Timestamp,
}

/// The mathematical value of a `Server`.
pub struct ServerView {
    pub id: u128,
    pub name: Seq<char>,
    pub host: Seq<char>,
    pub port: u16,
    pub username: Seq<char>,
    pub protocol: Protocol,
    pub tags: Seq<Seq<char>>,
    pub created_at: Timestamp,
    pub updated_at: Timestamp,
}

impl ServerView {
    /// Name, host and login name hold more than whitespace, and the port is
    /// not zero.
    pub open spec fn is_valid(self) -> bool {
        &&& !is_blank(self.name)
        &&& !is_blank(self.host)
        &&& !is_blank(self.username)
        &&& self.port > 0
    }

    /// The address to connect to: the host, a colon and the port in decimal.
    pub open spec fn address(self) -> Seq<char> {
        self.host + seq![':'] + decimal(self.port as nat)
    }
}

impl View for Server {
    type V = ServerView;

    open spec fn view(&self) -> ServerView {
        ServerView {
            id: self.id,
            name: self.name@,
            host: self.host@,
            port: self.port,
            username: self.username@,
            protocol: self.protocol,
            tags: texts(self.tags@),
            created_at: self.created_at,
            updated_at: self.updated_at,
        }
    }
}

impl Clone for Server {
    fn clone(&self) -> (r: Self)
        ensures
            r@ == self@,
    {
        Server {
            id: self.id,
            name: self.name.clone(),
            host: self.host.clone(),
            port: self.port,
            username: self.username.clone(),
            protocol: self.protocol,
            tags: clone_strings(&self.tags),
            created_at: self.created_at,
            updated_at: self.updated_at,
        }
    }
}

impl Server {
    /// The server with the given identifier, made at time `at`: protocol SSH,
    /// no tags.
    pub fn with_identity(
        id: u128,
        at: Timestamp,
        name: String,
        host: String,
        port: u16,
        username: String,
    ) -> (r: Self)
        ensures
            r@ == (ServerView {
                id,
                name: name@,
                host: host@,
                port,
                username: username@,
                protocol: Protocol::Ssh,
                tags: Seq::empty(),
                created_at: at,
                updated_at: at,
            }),
    {
        let r = Server {
            id,
            name,
            host,
            port,
            username,
            protocol: Protocol::default(),
            tags: Vec::new(),
            created_at: at,
            updated_at: at,
        };
        assert(texts(r.tags@) =~= Seq::empty());
        r
    }

    /// A new server, with a fresh identifier and the current time: protocol
    /// SSH, no tags.
    pub fn new(name: String, host: String, port: u16, username: String) -> (r: Self)
        ensures
            r@.name == name@,
            r@.host == host@,
            r@.port == port,
            r@.username == username@,
            r@.protocol == Protocol::Ssh,
            r@.tags == Seq::<Seq<char>>::empty(),
            r@.created_at == r@.updated_at,
    {
        Server::with_identity(fresh_id(), now(), name, host, port, username)
    }

    /// The address to connect to, as `host:port`.
    pub fn address(&self) -> (r: String)
        ensures
            r@ == self@.address(),
    {
        proof {
            reveal_strlit(":");
        }
        let mut r = self.host.clone();
        r.append(":");
        let port = decimal_string(self.port as u32);
        r.append(port.as_str());
        assert(":"@ =~= seq![':']);
        r
    }
}

/// A link between a server and a secret. A lower priority is tried first.
#[derive(Debug, Clone, Copy, PartialEq, Eq, Structural)]
pub struct ServerSecret {
    pub server_id: u128,
    pub secret_id: u128,
    pub priority: i32,
}

impl ServerSecret {
    pub fn new(server_id: u128, secret_id: u128, priority: i32) -> (r: Self)
        ensures
            r == (ServerSecret { server_id, secret_id, priority }),
    {
        ServerSecret { server_id, secret_id, priority }
    }
}

/// Whether a session is up.
#[derive(Debug)]
pub enum ConnectionStatus {
    Disconnected,
    Connecting,
    Connected,
    Error(String),
}

/// The descriptor of a session.
#[derive(Debug)]
pub struct SessionInfo {
    pub id: u128,
    pub server_id: u128,
    pub protocol: Protocol,
    pub status: ConnectionStatus,
    pub started_at: Timestamp,
}

impl SessionInfo {
    /// The descriptor with the given identifier, started at time `at` and not
    /// yet connected.
    pub fn with_identity(id: u128, at: Timestamp, server_id: u128, protocol: Protocol) -> (r: Self)
        ensures
            r.id == id,
            r.server_id == server_id,
            r.protocol == protocol,
            r.status is Disconnected,
            r.started_at == at,
    {
        SessionInfo { id, server_id, protocol, status: ConnectionStatus::Disconnected, started_at: at }
    }

    /// A new descriptor, with a fresh identifier and the current time, not yet
    /// connected.
    pub fn new(server_id: u128, protocol: Protocol) -> (r: Self)
        ensures
            r.server_id == server_id,
            r.protocol == protocol,
            r.status is Disconnected,
    {
        SessionInfo::with_identity(fresh_id(), now(), server_id, protocol)
    }
}

} // verus!
