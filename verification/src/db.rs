//! Records as a relational store holds them: every column a text, a number
//! or a blob. Reading a row checks it; writing one formats it.

use crate::clock::{format_rfc3339, parse_rfc3339, rfc3339_parse, rfc3339_text, Timestamp};
use crate::commands::{protocol_from_lower, protocol_of};
use crate::error::Error;
use crate::ids::{format_id, id_parse, id_text, parse_id};
use crate::models::{
    clone_bytes, texts, Protocol, Secret, SecretKind, SecretView, Server, ServerView,
};
use crate::text::str_eq;
use vstd::prelude::*;
use vstd::string::*;

verus! {

/// The JSON text that `serde_json::to_string` writes for a list of strings.
pub uninterp spec fn json_of_strings(items: Seq<Seq<char>>) -> Option<Seq<char>>;

/// The list of strings that `serde_json::from_str` reads from a JSON text;
/// `None` where the text is no JSON list of strings.
pub uninterp spec fn json_strings(text: Seq<char>) -> Option<Seq<Seq<char>>>;

/// Writes a list of strings as JSON with `serde_json::to_string`, which
/// fails only for values that refuse to be written or for maps whose keys
/// are no strings; a list of strings is neither, so the call succeeds. The
/// result is `json_of_strings` of the list.
#[verifier::external_body]
fn strings_to_json(items: &Vec<String>) -> (r: Option<String>)
    ensures
        r is Some,
        r matches Some(s) ==> json_of_strings(texts(items@)) == Some(s@),
{
    serde_json::to_string(items).ok()
}

/// Reads a list of strings from JSON with `serde_json::from_str`. The result
/// is `json_strings` of the text.
#[verifier::external_body]
fn strings_from_json(text: &str) -> (r: Option<Vec<String>>)
    ensures
        r matches Some(v) ==> json_strings(text@) == Some(texts(v@)),
        r is None ==> json_strings(text@) is None,
{
    serde_json::from_str::<Vec<String>>(text).ok()
}

/// The row of a server.
#[derive(Debug)]
pub struct ServerRow {
    pub id: String,
    pub name: String,
    pub host: String,
    pub port: u16,
    pub username: String,
    pub protocol: String,
    /// The tags, as a JSON list.
    pub tags: String,
    /// The time of creation, in RFC 3339.
    pub created_at: String,
    /// The time of the last update, in RFC 3339.
    pub updated_at: String,
}

/// The row of a secret.
#[derive(Debug)]
pub struct SecretRow {
    pub id: String,
    pub name: String,
    pub kind: String,
    pub encrypted_value: Vec<u8>,
    /// The time of creation, in RFC 3339.
    pub created_at: String,
    /// The time of the last update, in RFC 3339.
    pub updated_at: String,
}

/// The name under which a protocol is stored.
pub open spec fn stored_protocol(p: Protocol) -> Seq<char> {
    match p {
        Protocol::Ssh => "ssh"@,
        Protocol::Sftp => "sftp"@,
        Protocol::Ftp => "ftp"@,
    }
}

/// The name under which a kind of secret is stored.
pub open spec fn stored_kind(k: SecretKind) -> Seq<char> {
    match k {
        SecretKind::Password => "password"@,
        SecretKind::PrivateKey => "private_key"@,
        SecretKind::Token => "token"@,
        SecretKind::Kubeconfig => "kubeconfig"@,
    }
}

/// The kind of secret that a stored name stands for; a password where it
/// stands for none.
pub open spec fn kind_of_stored(name: Seq<char>) -> SecretKind {
    if name == "private_key"@ {
        SecretKind::PrivateKey
    } else if name == "token"@ {
        SecretKind::Token
    } else if name == "kubeconfig"@ {
        SecretKind::Kubeconfig
    } else {
        SecretKind::Password
    }
}

/// The kind of secret that a stored name stands for.
pub fn kind_from_stored(name: &str) -> (r: SecretKind)
    ensures
        r == kind_of_stored(name@),
{
    if str_eq(name, "private_key") {
        SecretKind::PrivateKey
    } else if str_eq(name, "token") {
        SecretKind::Token
    } else if str_eq(name, "kubeconfig") {
        SecretKind::Kubeconfig
    } else {
        SecretKind::Password
    }
}

/// The server that a row holds: the identifier and the two times have to be
/// readable; a protocol that is not known counts as SSH, and tags that are
/// no JSON list of strings as no tags.
pub open spec fn server_of_row(row: ServerRow) -> Option<ServerView> {
    if id_parse(row.id@) is Ok && rfc3339_parse(row.created_at@) is Some && rfc3339_parse(
        row.updated_at@,
    ) is Some {
        Some(
            ServerView {
                id: id_parse(row.id@)->Ok_0,
                name: row.name@,
                host: row.host@,
                port: row.port,
                username: row.username@,
                protocol: protocol_of(row.protocol@),
                tags: match json_strings(row.tags@) {
                    Some(t) => t,
                    None => Seq::empty(),
                },
                created_at: rfc3339_parse(row.created_at@)->Some_0,
                updated_at: rfc3339_parse(row.updated_at@)->Some_0,
            },
        )
    } else {
        None
    }
}

/// The secret that a row holds: the identifier and the two times have to be
/// readable; a kind that is not known counts as a password. A row holds no
/// login name.
pub open spec fn secret_of_row(row: SecretRow) -> Option<SecretView> {
    if id_parse(row.id@) is Ok && rfc3339_parse(row.created_at@) is Some && rfc3339_parse(
        row.updated_at@,
    ) is Some {
        Some(
            SecretView {
                id: id_parse(row.id@)->Ok_0,
                name: row.name@,
                kind: kind_of_stored(row.kind@),
                username: None,
                encrypted_value: row.encrypted_value@,
                created_at: rfc3339_parse(row.created_at@)->Some_0,
                updated_at: rfc3339_parse(row.updated_at@)->Some_0,
            },
        )
    } else {
        None
    }
}

fn corrupt(what: &str) -> (e: Error)
    ensures
        e matches Error::Serialization(m) && m@ == what@,
{
    Error::Serialization(what.to_owned())
}

fn read_row_id(text: &str) -> (r: Result<u128, Error>)
    ensures
        match r {
            Ok(id) => id_parse(text@) is Ok && id_parse(text@)->Ok_0 == id,
            Err(e) => id_parse(text@) is Err && e is Serialization,
        },
{
    match parse_id(text) {
        Ok(id) => Ok(id),
        Err(_) => Err(corrupt("Stored identifier is not a UUID")),
    }
}

fn read_row_time(text: &str) -> (r: Result<Timestamp, Error>)
    ensures
        match r {
            Ok(t) => rfc3339_parse(text@) == Some(t),
            Err(e) => rfc3339_parse(text@) is None && e is Serialization,
        },
{
    match parse_rfc3339(text) {
        Some(t) => Ok(t),
        None => Err(corrupt("Stored time is not in RFC 3339")),
    }
}

/// Reads the server that a row holds. A row whose identifier or times cannot
/// be read is corrupt.
pub fn row_to_server(row: ServerRow) -> (r: Result<Server, Error>)
    ensures
        match server_of_row(row) {
            Some(s) => r matches Ok(x) && x@ == s,
            None => r matches Err(e) && e is Serialization,
        },
{
    let id = read_row_id(row.id.as_str())?;
    let created_at = read_row_time(row.created_at.as_str())?;
    let updated_at = read_row_time(row.updated_at.as_str())?;
    let tags = match strings_from_json(row.tags.as_str()) {
        Some(t) => t,
        None => {
            let t: Vec<String> = Vec::new();
            assert(texts(t@) =~= Seq::empty());
            t
        },
    };
    Ok(
        Server {
            id,
            name: row.name,
            host: row.host,
            port: row.port,
            username: row.username,
            protocol: protocol_from_lower(row.protocol.as_str()),
            tags,
            created_at,
            updated_at,
        },
    )
}

/// Reads the secret that a row holds. A row whose identifier or times cannot
/// be read is corrupt.
pub fn row_to_secret(row: SecretRow) -> (r: Result<Secret, Error>)
    ensures
        match secret_of_row(row) {
            Some(s) => r matches Ok(x) && x@ == s,
            None => r matches Err(e) && e is Serialization,
        },
{
    let id = read_row_id(row.id.as_str())?;
    let created_at = read_row_time(row.created_at.as_str())?;
    let updated_at = read_row_time(row.updated_at.as_str())?;
    Ok(
        Secret {
            id,
            name: row.name,
            kind: kind_from_stored(row.kind.as_str()),
            username: None,
            encrypted_value: row.encrypted_value,
            created_at,
            updated_at,
        },
    )
}

/// Whether a time can be written in RFC 3339 so that it reads back as the
/// same time. A time that the calendar cannot hold cannot be written, and a
/// year of more than four digits is written but not read.
pub open spec fn time_is_storable(t: Timestamp) -> bool {
    rfc3339_text(t.secs, t.nanos) matches Some(text) && rfc3339_parse(text) == Some(t)
}

/// Whether tags can be written as JSON so that they read back as the same
/// tags.
pub open spec fn tags_are_storable(tags: Seq<Seq<char>>) -> bool {
    json_of_strings(tags) matches Some(text) && json_strings(text) == Some(tags)
}

/// Whether a server can be written as a row that reads back as the server.
pub open spec fn server_is_storable(s: ServerView) -> bool {
    &&& time_is_storable(s.created_at)
    &&& time_is_storable(s.updated_at)
    &&& tags_are_storable(s.tags)
}

/// Whether a secret can be written as a row that reads back as the secret.
pub open spec fn secret_is_storable(s: SecretView) -> bool {
    &&& time_is_storable(s.created_at)
    &&& time_is_storable(s.updated_at)
}

/// Whether two lists hold the same texts.
pub fn same_strings(a: &Vec<String>, b: &Vec<String>) -> (r: bool)
    ensures
        r == (texts(a@) == texts(b@)),
{
    if a.len() != b.len() {
        assert(texts(a@).len() != texts(b@).len());
        return false;
    }
    let mut i: usize = 0;
    while i < a.len()
        invariant
            i <= a.len(),
            a.len() == b.len(),
            forall|j: int| 0 <= j < i ==> a@[j]@ == b@[j]@,
        decreases a.len() - i,
    {
        if a[i] != b[i] {
            assert(texts(a@)[i as int] != texts(b@)[i as int]);
            return false;
        }
        i = i + 1;
    }
    assert(texts(a@) =~= texts(b@));
    true
}

/// Writes a time, and reads it back to see that it is the same.
fn write_row_time(t: Timestamp) -> (r: Result<String, Error>)
    ensures
        match r {
            Ok(s) => rfc3339_text(t.secs, t.nanos) == Some(s@) && rfc3339_parse(s@) == Some(t),
            Err(e) => !time_is_storable(t) && e is Serialization,
        },
{
    match format_rfc3339(t) {
        Some(s) => {
            let back = parse_rfc3339(s.as_str());
            match back {
                Some(u) => {
                    if u.secs == t.secs && u.nanos == t.nanos {
                        Ok(s)
                    } else {
                        Err(corrupt("Time does not read back"))
                    }
                },
                None => Err(corrupt("Time does not read back")),
            }
        },
        None => Err(corrupt("Time is out of range")),
    }
}

/// Writes tags, and reads them back to see that they are the same.
fn write_row_tags(tags: &Vec<String>) -> (r: Result<String, Error>)
    ensures
        match r {
            Ok(s) => json_of_strings(texts(tags@)) == Some(s@) && json_strings(s@) == Some(
                texts(tags@),
            ),
            Err(e) => !tags_are_storable(texts(tags@)) && e is Serialization,
        },
{
    match strings_to_json(tags) {
        Some(s) => {
            match strings_from_json(s.as_str()) {
                Some(back) => {
                    if same_strings(&back, tags) {
                        Ok(s)
                    } else {
                        Err(corrupt("Tags do not read back"))
                    }
                },
                None => Err(corrupt("Tags do not read back")),
            }
        },
        None => Err(corrupt("Tags cannot be written as JSON")),
    }
}

/// The stored name of a protocol reads back as the protocol, and the stored
/// name of a kind of secret as the kind.
pub proof fn lemma_stored_names_read_back(p: Protocol, k: SecretKind)
    ensures
        protocol_of(stored_protocol(p)) == p,
        kind_of_stored(stored_kind(k)) == k,
{
    reveal_strlit("ssh");
    reveal_strlit("sftp");
    reveal_strlit("ftp");
    reveal_strlit("password");
    reveal_strlit("private_key");
    reveal_strlit("token");
    reveal_strlit("kubeconfig");
    assert("ssh"@.len() == 3 && "sftp"@.len() == 4 && "ssh"@[0] != "ftp"@[0]);
    assert("password"@.len() == 8 && "private_key"@.len() == 11 && "token"@.len() == 5
        && "kubeconfig"@.len() == 10);
}

/// Writes a server as a row. What is written reads back as the server; a
/// server whose times or tags would not read back is not written.
pub fn server_to_row(server: &Server) -> (r: Result<ServerRow, Error>)
    ensures
        match r {
            Ok(row) => {
                &&& server_is_storable(server@)
                &&& server_of_row(row) == Some(server@)
                &&& row.id@ == id_text(server@.id)
                &&& row.name@ == server@.name
                &&& row.host@ == server@.host
                &&& row.port == server@.port
                &&& row.username@ == server@.username
                &&& row.protocol@ == stored_protocol(server@.protocol)
                &&& Some(row.tags@) == json_of_strings(server@.tags)
                &&& Some(row.created_at@) == rfc3339_text(
                    server@.created_at.secs,
                    server@.created_at.nanos,
                )
                &&& Some(row.updated_at@) == rfc3339_text(
                    server@.updated_at.secs,
                    server@.updated_at.nanos,
                )
            },
            Err(e) => !server_is_storable(server@) && e is Serialization,
        },
{
    let created_at = write_row_time(server.created_at)?;
    let updated_at = write_row_time(server.updated_at)?;
    let tags = write_row_tags(&server.tags)?;
    let protocol = match server.protocol {
        Protocol::Ssh => "ssh",
        Protocol::Sftp => "sftp",
        Protocol::Ftp => "ftp",
    };
    proof {
        lemma_stored_names_read_back(server.protocol, SecretKind::Password);
    }
    Ok(
        ServerRow {
            id: format_id(server.id),
            name: server.name.clone(),
            host: server.host.clone(),
            port: server.port,
            username: server.username.clone(),
            protocol: protocol.to_owned(),
            tags,
            created_at,
            updated_at,
        },
    )
}

/// Writes a secret as a row. The login name is not stored: what is written
/// reads back as the secret without its login name. A secret whose times
/// would not read back is not written.
pub fn secret_to_row(secret: &Secret) -> (r: Result<SecretRow, Error>)
    ensures
        match r {
            Ok(row) => {
                &&& secret_is_storable(secret@)
                &&& secret_of_row(row) == Some(SecretView { username: None, ..secret@ })
                &&& row.id@ == id_text(secret@.id)
                &&& row.name@ == secret@.name
                &&& row.kind@ == stored_kind(secret@.kind)
                &&& row.encrypted_value@ == secret@.encrypted_value
                &&& Some(row.created_at@) == rfc3339_text(
                    secret@.created_at.secs,
                    secret@.created_at.nanos,
                )
                &&& Some(row.updated_at@) == rfc3339_text(
                    secret@.updated_at.secs,
                    secret@.updated_at.nanos,
                )
            },
            Err(e) => !secret_is_storable(secret@) && e is Serialization,
        },
{
    let created_at = write_row_time(secret.created_at)?;
    let updated_at = write_row_time(secret.updated_at)?;
    let kind = match secret.kind {
        SecretKind::Password => "password",
        SecretKind::PrivateKey => "private_key",
        SecretKind::Token => "token",
        SecretKind::Kubeconfig => "kubeconfig",
    };
    proof {
        lemma_stored_names_read_back(Protocol::Ssh, secret.kind);
    }
    Ok(
        SecretRow {
            id: format_id(secret.id),
            name: secret.name.clone(),
            kind: kind.to_owned(),
            encrypted_value: clone_bytes(&secret.encrypted_value),
            created_at,
            updated_at,
        },
    )
}

/// Why a query for one row gave none.
#[derive(Debug)]
pub enum QueryFailure {
    /// The query matched no row.
    NoRows,
    /// The store failed, with this message.
    Store(String),
}

/// A query for one row that matched none has found nothing; it has not
/// failed.
pub fn optional<T>(r: Result<T, QueryFailure>) -> (o: Result<Option<T>, Error>)
    ensures
        match r {
            Ok(v) => o == Ok::<Option<T>, Error>(Some(v)),
            Err(QueryFailure::NoRows) => o == Ok::<Option<T>, Error>(None),
            Err(QueryFailure::Store(m)) => o == Err::<Option<T>, Error>(Error::Database(m)),
        },
{
    match r {
        Ok(v) => Ok(Some(v)),
        Err(QueryFailure::NoRows) => Ok(None),
        Err(QueryFailure::Store(m)) => Err(Error::Database(m)),
    }
}

} // verus!
