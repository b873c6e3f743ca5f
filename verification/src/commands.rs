//! The command surface: what the front-end can ask of the core. Each command
//! validates its input, reads identifiers, works on the repository, the vault
//! or the registry, and answers with a value that holds no secret material.

use crate::clock::{now, Timestamp};
use crate::error::Error;
use crate::ids::{format_id, fresh_id, id_parse, id_text, parse_id, reads_as};
use crate::models::{
    clone_strings, opt_text, texts, Protocol, Secret, SecretKind, SecretView, Server, ServerSecret,
    ServerView,
};
use crate::resolver::{resolve_auth, resolves, ConnectRequest};
use crate::secrets::SecretEncryption;
use crate::state::{send_input, ActiveSession, AppState, InputView, SshInput};
use crate::traits::{AuthMethod, AuthView};
use crate::storage::{
    secret_views, server_views, SecretRepository, ServerRepository, StorageModel,
};
use crate::text::{
    is_blank, lemma_trimmed_is_trimmed, lowercase, lowercase_fits, str_eq, to_lowercase, trim,
    trimmed,
};
use vstd::prelude::*;
use vstd::string::*;
use vstd::utf8::encode_utf8;

verus! {

/// The answer to a command that failed: a message and, for the failures that
/// the front-end tells apart, a stable code.
#[derive(Debug)]
pub struct CommandError {
    pub message: String,
    pub code: Option<String>,
}

/// The mathematical value of a `CommandError`.
pub struct CommandErrorView {
    pub message: Seq<char>,
    pub code: Option<Seq<char>>,
}

impl View for CommandError {
    type V = CommandErrorView;

    open spec fn view(&self) -> CommandErrorView {
        CommandErrorView { message: self.message@, code: opt_text(self.code) }
    }
}

pub type CommandResult<T> = Result<T, CommandError>;

/// A failure with a code.
pub open spec fn failure(message: Seq<char>, code: Seq<char>) -> CommandErrorView {
    CommandErrorView { message, code: Some(code) }
}

/// A refused input: a failure without a code.
pub open spec fn rejection(message: Seq<char>) -> CommandErrorView {
    CommandErrorView { message, code: None }
}

/// The code under which an error of the core is answered.
pub open spec fn error_code(err: Error) -> Option<Seq<char>> {
    match err {
        Error::Connection(_) => Some("CONNECTION_ERROR"@),
        Error::Authentication(_) => Some("AUTH_FAILED"@),
        Error::Session(_) => Some("SESSION_ERROR"@),
        Error::Database(_) => Some("DATABASE_ERROR"@),
        Error::Secret(_) => Some("SECRET_ERROR"@),
        _ => None,
    }
}

fn fail(message: String, code: &str) -> (r: CommandError)
    ensures
        r@ == failure(message@, code@),
{
    CommandError { message, code: Some(code.to_owned()) }
}

fn reject(message: &str) -> (r: CommandError)
    ensures
        r@ == rejection(message@),
{
    CommandError { message: message.to_owned(), code: None }
}

impl CommandError {
    /// The answer for an error of the core: its text, and the code of its
    /// kind.
    pub fn from(err: Error) -> (r: Self)
        ensures
            r@ == (CommandErrorView { message: err.text(), code: error_code(err) }),
    {
        let code = match &err {
            Error::Connection(_) => Some("CONNECTION_ERROR".to_owned()),
            Error::Authentication(_) => Some("AUTH_FAILED".to_owned()),
            Error::Session(_) => Some("SESSION_ERROR".to_owned()),
            Error::Database(_) => Some("DATABASE_ERROR".to_owned()),
            Error::Secret(_) => Some("SECRET_ERROR".to_owned()),
            _ => None,
        };
        CommandError { message: err.to_string(), code }
    }
}

/// The answer for an identifier that cannot be read: `what`, then the message
/// of the parser.
pub open spec fn id_fault(what: Seq<char>, text: Seq<char>) -> CommandErrorView {
    failure(what + id_parse(text)->Err_0, "INVALID_UUID"@)
}

/// Reads an identifier that a command was given.
pub fn parse_command_id(text: &str, what: &str) -> (r: CommandResult<u128>)
    ensures
        match r {
            Ok(id) => id_parse(text@) is Ok && id_parse(text@)->Ok_0 == id,
            Err(e) => id_parse(text@) is Err && e@ == id_fault(what@, text@),
        },
{
    match parse_id(text) {
        Ok(id) => Ok(id),
        Err(reason) => {
            let mut message = what.to_owned();
            message.append(reason.as_str());
            Err(fail(message, "INVALID_UUID"))
        },
    }
}

/// The name of a protocol in answers.
pub open spec fn protocol_text(p: Protocol) -> Seq<char> {
    match p {
        Protocol::Ssh => "ssh"@,
        Protocol::Sftp => "sftp"@,
        Protocol::Ftp => "ftp"@,
    }
}

/// The name of a kind of secret in answers.
pub open spec fn kind_text(k: SecretKind) -> Seq<char> {
    match k {
        SecretKind::Password => "password"@,
        SecretKind::PrivateKey => "privatekey"@,
        SecretKind::Token => "token"@,
        SecretKind::Kubeconfig => "kubeconfig"@,
    }
}

/// The protocol that a lower-case name stands for; SSH where it stands for
/// none.
pub open spec fn protocol_of(lower: Seq<char>) -> Protocol {
    if lower == "sftp"@ {
        Protocol::Sftp
    } else if lower == "ftp"@ {
        Protocol::Ftp
    } else {
        Protocol::Ssh
    }
}

/// The kind of secret that a lower-case name stands for; a password where it
/// stands for none.
pub open spec fn kind_of(lower: Seq<char>) -> SecretKind {
    if lower == "private_key"@ || lower == "privatekey"@ {
        SecretKind::PrivateKey
    } else if lower == "token"@ {
        SecretKind::Token
    } else if lower == "kubeconfig"@ {
        SecretKind::Kubeconfig
    } else {
        SecretKind::Password
    }
}

/// The protocol that a lower-case name stands for.
pub fn protocol_from_lower(lower: &str) -> (r: Protocol)
    ensures
        r == protocol_of(lower@),
{
    if str_eq(lower, "sftp") {
        Protocol::Sftp
    } else if str_eq(lower, "ftp") {
        Protocol::Ftp
    } else {
        Protocol::Ssh
    }
}

/// The kind of secret that a lower-case name stands for.
pub fn kind_from_lower(lower: &str) -> (r: SecretKind)
    ensures
        r == kind_of(lower@),
{
    if str_eq(lower, "private_key") || str_eq(lower, "privatekey") {
        SecretKind::PrivateKey
    } else if str_eq(lower, "token") {
        SecretKind::Token
    } else if str_eq(lower, "kubeconfig") {
        SecretKind::Kubeconfig
    } else {
        SecretKind::Password
    }
}

/// Reads the name of a protocol, whatever its case.
pub fn parse_protocol(name: &str) -> (r: Protocol)
    ensures
        r == protocol_of(lowercase(name@)),
        lowercase_fits(name@),
{
    let lower = to_lowercase(name);
    protocol_from_lower(lower.as_str())
}

/// Reads the name of a kind of secret, whatever its case.
pub fn parse_kind(name: &str) -> (r: SecretKind)
    ensures
        r == kind_of(lowercase(name@)),
        lowercase_fits(name@),
{
    let lower = to_lowercase(name);
    kind_from_lower(lower.as_str())
}

/// A server as the front-end sees it.
#[derive(Debug)]
pub struct ServerResponse {
    pub id: String,
    pub name: String,
    pub host: String,
    pub port: u16,
    pub username: String,
    pub protocol: String,
    pub tags: Vec<String>,
}

/// The mathematical value of a `ServerResponse`.
pub struct ServerResponseView {
    pub id: Seq<char>,
    pub name: Seq<char>,
    pub host: Seq<char>,
    pub port: u16,
    pub username: Seq<char>,
    pub protocol: Seq<char>,
    pub tags: Seq<Seq<char>>,
}

impl View for ServerResponse {
    type V = ServerResponseView;

    open spec fn view(&self) -> ServerResponseView {
        ServerResponseView {
            id: self.id@,
            name: self.name@,
            host: self.host@,
            port: self.port,
            username: self.username@,
            protocol: self.protocol@,
            tags: texts(self.tags@),
        }
    }
}

/// What the front-end sees of a server.
pub open spec fn server_response(s: ServerView) -> ServerResponseView {
    ServerResponseView {
        id: id_text(s.id),
        name: s.name,
        host: s.host,
        port: s.port,
        username: s.username,
        protocol: protocol_text(s.protocol),
        tags: s.tags,
    }
}

/// What the front-end sees of each of some servers.
pub open spec fn server_responses(s: Seq<ServerView>) -> Seq<ServerResponseView> {
    s.map_values(|x: ServerView| server_response(x))
}

/// The values of a sequence of answers.
pub open spec fn server_response_views(v: Seq<ServerResponse>) -> Seq<ServerResponseView> {
    v.map_values(|x: ServerResponse| x@)
}

impl ServerResponse {
    /// What the front-end sees of `s`. The identifier in it reads back as
    /// the identifier of `s`.
    pub fn from(s: Server) -> (r: Self)
        ensures
            r@ == server_response(s@),
            reads_as(r.id@, s.id),
    {
        let protocol = match s.protocol {
            Protocol::Ssh => "ssh",
            Protocol::Sftp => "sftp",
            Protocol::Ftp => "ftp",
        };
        ServerResponse {
            id: format_id(s.id),
            name: s.name,
            host: s.host,
            port: s.port,
            username: s.username,
            protocol: protocol.to_owned(),
            tags: s.tags,
        }
    }
}

/// All servers, by name.
pub fn get_servers(state: &AppState) -> (r: CommandResult<Vec<ServerResponse>>)
    ensures
        r matches Ok(v) && server_response_views(v@) == server_responses(
            state.storage@.listed_servers(),
        ),
{
    let servers = ServerRepository::list(&state.storage);
    let mut out: Vec<ServerResponse> = Vec::new();
    let mut i: usize = 0;
    while i < servers.len()
        invariant
            i <= servers.len(),
            out@.len() == i,
            forall|j: int| 0 <= j < i ==> out@[j]@ == server_response(#[trigger] servers@[j]@),
        decreases servers.len() - i,
    {
        out.push(ServerResponse::from(servers[i].clone()));
        i = i + 1;
    }
    assert(server_response_views(out@) =~= server_responses(server_views(servers@)));
    Ok(out)
}

/// The request to add a server.
#[derive(Debug)]
pub struct AddServerRequest {
    pub name: String,
    pub host: String,
    pub port: u16,
    pub username: String,
    pub protocol: Option<String>,
    pub tags: Option<Vec<String>>,
}

/// Why a server with these fields is not added; `None` where it is.
pub open spec fn add_server_fault(
    name: Seq<char>,
    host: Seq<char>,
    port: u16,
    username: Seq<char>,
) -> Option<Seq<char>> {
    if is_blank(name) {
        Some("Server name cannot be empty"@)
    } else if name.len() > 255 {
        Some("Server name too long (max 255 characters)"@)
    } else if is_blank(host) {
        Some("Host cannot be empty"@)
    } else if port == 0 {
        Some("Port must be between 1 and 65535"@)
    } else if is_blank(username) {
        Some("Username cannot be empty"@)
    } else {
        None
    }
}

/// The server that a request asks for, under the identifier `id` and made at
/// time `at`: name, host and login name trimmed.
pub open spec fn requested_server(request: AddServerRequest, id: u128, at: Timestamp) -> ServerView {
    ServerView {
        id,
        name: trimmed(request.name@),
        host: trimmed(request.host@),
        port: request.port,
        username: trimmed(request.username@),
        protocol: match request.protocol {
            Some(p) => protocol_of(lowercase(p@)),
            None => Protocol::Ssh,
        },
        tags: match request.tags {
            Some(t) => texts(t@),
            None => Seq::empty(),
        },
        created_at: at,
        updated_at: at,
    }
}

/// A server that passes the checks is valid.
pub proof fn lemma_requested_server_valid(request: AddServerRequest, id: u128, at: Timestamp)
    requires
        add_server_fault(request.name@, request.host@, request.port, request.username@) is None,
    ensures
        requested_server(request, id, at).is_valid(),
{
    lemma_trimmed_is_trimmed(request.name@);
    lemma_trimmed_is_trimmed(request.host@);
    lemma_trimmed_is_trimmed(request.username@);
}

/// Checks the fields of a request to add a server.
pub fn validate_add_server(request: &AddServerRequest) -> (r: Result<(), CommandError>)
    ensures
        match add_server_fault(request.name@, request.host@, request.port, request.username@) {
            Some(m) => r matches Err(e) && e@ == rejection(m),
            None => r is Ok,
        },
{
    if trim(request.name.as_str()).as_str().unicode_len() == 0 {
        return Err(reject("Server name cannot be empty"));
    }
    if request.name.as_str().unicode_len() > 255 {
        return Err(reject("Server name too long (max 255 characters)"));
    }
    if trim(request.host.as_str()).as_str().unicode_len() == 0 {
        return Err(reject("Host cannot be empty"));
    }
    if request.port == 0 {
        return Err(reject("Port must be between 1 and 65535"));
    }
    if trim(request.username.as_str()).as_str().unicode_len() == 0 {
        return Err(reject("Username cannot be empty"));
    }
    Ok(())
}

/// Adds a server under the identifier `id`, made at time `at`. A request
/// that fails a check is refused and nothing is stored.
pub fn add_server_as(state: &mut AppState, request: AddServerRequest, id: u128, at: Timestamp) -> (r:
    CommandResult<ServerResponse>)
    ensures
        final(state).encryption == old(state).encryption,
        final(state).sessions == old(state).sessions,
        match add_server_fault(request.name@, request.host@, request.port, request.username@) {
            Some(m) => (r matches Err(e) && e@ == rejection(m)) && final(state).storage@
                == old(state).storage@,
            None => (r matches Ok(a) && a@ == server_response(requested_server(request, id, at))
                && reads_as(a.id@, id)) && final(state).storage@ == old(state).storage@.with_server(
                requested_server(request, id, at),
            ) && requested_server(request, id, at).is_valid(),
        },
        add_server_fault(request.name@, request.host@, request.port, request.username@) is None
            ==> (request.protocol matches Some(p) ==> lowercase_fits(p@)),
{
    match validate_add_server(&request) {
        Err(e) => {
            return Err(e);
        },
        Ok(_) => {},
    }
    proof {
        lemma_requested_server_valid(request, id, at);
    }
    let mut server = Server::with_identity(
        id,
        at,
        trim(request.name.as_str()),
        trim(request.host.as_str()),
        request.port,
        trim(request.username.as_str()),
    );
    match &request.protocol {
        Some(p) => {
            server.protocol = parse_protocol(p.as_str());
        },
        None => {},
    }
    match &request.tags {
        Some(t) => {
            server.tags = clone_strings(t);
        },
        None => {},
    }
    assert(server@ == requested_server(request, id, at));
    ServerRepository::store(&mut state.storage, &server);
    Ok(ServerResponse::from(server))
}

/// Adds a server, under a fresh identifier and at the current time.
pub fn add_server(state: &mut AppState, request: AddServerRequest) -> (r: CommandResult<
    ServerResponse,
>)
    ensures
        final(state).encryption == old(state).encryption,
        final(state).sessions == old(state).sessions,
        match add_server_fault(request.name@, request.host@, request.port, request.username@) {
            Some(m) => (r matches Err(e) && e@ == rejection(m)) && final(state).storage@
                == old(state).storage@,
            None => exists|id: u128, at: Timestamp|
                (r matches Ok(a) && a@ == server_response(
                    #[trigger] requested_server(request, id, at),
                ) && reads_as(a.id@, id)) && final(state).storage@ == old(state).storage@.with_server(
                    requested_server(request, id, at),
                ) && requested_server(request, id, at).is_valid(),
        },
        add_server_fault(request.name@, request.host@, request.port, request.username@) is None
            ==> (request.protocol matches Some(p) ==> lowercase_fits(p@)),
{
    let id = fresh_id();
    let at = now();
    add_server_as(state, request, id, at)
}

/// The store after the update that `request` asks for, made at time `at`; the
/// answer where the update is refused.
pub open spec fn update_server_outcome(
    storage: StorageModel,
    request: ServerResponse,
    at: Timestamp,
) -> Result<StorageModel, CommandErrorView> {
    match id_parse(request.id@) {
        Err(_) => Err(id_fault("Invalid UUID: "@, request.id@)),
        Ok(id) => match storage.server(id) {
            None => Err(failure("Server not found"@, "NOT_FOUND"@)),
            Some(s) => Ok(
                storage.with_updated_server(
                    ServerView {
                        name: request.name@,
                        host: request.host@,
                        port: request.port,
                        username: request.username@,
                        tags: texts(request.tags@),
                        ..s
                    },
                    at,
                ),
            ),
        },
    }
}

/// Gives a server the name, host, port, login name and tags of `request`, at
/// time `at`.
pub fn update_server_at(state: &mut AppState, request: ServerResponse, at: Timestamp) -> (r:
    CommandResult<()>)
    ensures
        final(state).encryption == old(state).encryption,
        final(state).sessions == old(state).sessions,
        match update_server_outcome(old(state).storage@, request, at) {
            Ok(m) => r is Ok && final(state).storage@ == m,
            Err(e) => (r matches Err(x) && x@ == e) && final(state).storage@ == old(state).storage@,
        },
{
    let id = match parse_command_id(request.id.as_str(), "Invalid UUID: ") {
        Ok(id) => id,
        Err(e) => {
            return Err(e);
        },
    };
    let mut server = match ServerRepository::get(&state.storage, id) {
        Some(s) => s,
        None => {
            return Err(fail("Server not found".to_owned(), "NOT_FOUND"));
        },
    };
    server.name = request.name;
    server.host = request.host;
    server.port = request.port;
    server.username = request.username;
    server.tags = request.tags;
    proof {
        crate::storage::lemma_server_index(state.storage@.servers, id);
    }
    ServerRepository::update_at(&mut state.storage, &server, at);
    Ok(())
}

/// Updates a server, at the current time.
pub fn update_server(state: &mut AppState, request: ServerResponse) -> (r: CommandResult<()>)
    ensures
        final(state).encryption == old(state).encryption,
        final(state).sessions == old(state).sessions,
        exists|at: Timestamp|
            match #[trigger] update_server_outcome(old(state).storage@, request, at) {
                Ok(m) => r is Ok && final(state).storage@ == m,
                Err(e) => (r matches Err(x) && x@ == e) && final(state).storage@ == old(state).storage@,
            },
{
    let at = now();
    update_server_at(state, request, at)
}

/// Adding a server under an identifier that no server has yet, and then
/// updating it with the answer as it came back, changes nothing that can be
/// seen but the time of the update: the update is not refused, the server
/// holds the fields it was added with, and no other server, secret or link
/// changes.
pub proof fn lemma_add_then_update(
    storage: StorageModel,
    added: ServerView,
    answer: ServerResponse,
    at: Timestamp,
)
    requires
        storage.server(added.id) is None,
        answer@ == server_response(added),
        reads_as(answer.id@, added.id),
    ensures
        update_server_outcome(storage.with_server(added), answer, at) matches Ok(m) && m
            == storage.with_server(added).with_updated_server(added, at) && m.server(added.id)
            == Some(ServerView { updated_at: at, ..added }) && m.servers.len()
            == storage.servers.len() + 1 && m.secrets == storage.secrets && m.links
            == storage.links && (forall|i: int|
            0 <= i < storage.servers.len() ==> #[trigger] m.servers[i] == storage.servers[i]),
{
    storage.lemma_store_update_get(added, at);
    let m1 = storage.with_server(added);
    assert(m1.server(added.id) == Some(added));
    let changed = ServerView {
        name: answer.name@,
        host: answer.host@,
        port: answer.port,
        username: answer.username@,
        tags: texts(answer.tags@),
        ..added
    };
    assert(changed == added);
}

/// Deletes a server and its links.
pub fn delete_server(state: &mut AppState, id: String) -> (r: CommandResult<()>)
    ensures
        final(state).encryption == old(state).encryption,
        final(state).sessions == old(state).sessions,
        match id_parse(id@) {
            Ok(k) => r is Ok && final(state).storage@ == old(state).storage@.without_server(k),
            Err(_) => (r matches Err(e) && e@ == id_fault("Invalid UUID: "@, id@))
                && final(state).storage@ == old(state).storage@,
        },
{
    let k = match parse_command_id(id.as_str(), "Invalid UUID: ") {
        Ok(k) => k,
        Err(e) => {
            return Err(e);
        },
    };
    ServerRepository::delete(&mut state.storage, k);
    Ok(())
}

/// A secret as the front-end sees it: neither plaintext nor ciphertext.
#[derive(Debug)]
pub struct SecretResponse {
    pub id: String,
    pub name: String,
    pub kind: String,
}

/// The mathematical value of a `SecretResponse`.
pub struct SecretResponseView {
    pub id: Seq<char>,
    pub name: Seq<char>,
    pub kind: Seq<char>,
}

impl View for SecretResponse {
    type V = SecretResponseView;

    open spec fn view(&self) -> SecretResponseView {
        SecretResponseView { id: self.id@, name: self.name@, kind: self.kind@ }
    }
}

/// What the front-end sees of a secret.
pub open spec fn secret_response(s: SecretView) -> SecretResponseView {
    SecretResponseView { id: id_text(s.id), name: s.name, kind: kind_text(s.kind) }
}

/// What the front-end sees of each of some secrets.
pub open spec fn secret_responses(s: Seq<SecretView>) -> Seq<SecretResponseView> {
    s.map_values(|x: SecretView| secret_response(x))
}

/// The values of a sequence of answers.
pub open spec fn secret_response_views(v: Seq<SecretResponse>) -> Seq<SecretResponseView> {
    v.map_values(|x: SecretResponse| x@)
}

impl SecretResponse {
    /// What the front-end sees of `s`. The identifier in it reads back as
    /// the identifier of `s`.
    pub fn from(s: Secret) -> (r: Self)
        ensures
            r@ == secret_response(s@),
            reads_as(r.id@, s.id),
    {
        let kind = match s.kind {
            SecretKind::Password => "password",
            SecretKind::PrivateKey => "privatekey",
            SecretKind::Token => "token",
            SecretKind::Kubeconfig => "kubeconfig",
        };
        SecretResponse { id: format_id(s.id), name: s.name, kind: kind.to_owned() }
    }
}

/// All secrets, by name.
pub fn get_secrets(state: &AppState) -> (r: CommandResult<Vec<SecretResponse>>)
    ensures
        r matches Ok(v) && secret_response_views(v@) == secret_responses(
            state.storage@.listed_secrets(),
        ),
{
    let secrets = SecretRepository::list(&state.storage);
    let mut out: Vec<SecretResponse> = Vec::new();
    let mut i: usize = 0;
    while i < secrets.len()
        invariant
            i <= secrets.len(),
            out@.len() == i,
            forall|j: int| 0 <= j < i ==> out@[j]@ == secret_response(#[trigger] secrets@[j]@),
        decreases secrets.len() - i,
    {
        out.push(SecretResponse::from(secrets[i].clone()));
        i = i + 1;
    }
    assert(secret_response_views(out@) =~= secret_responses(secret_views(secrets@)));
    Ok(out)
}

/// The request to add a secret. `value` is the plaintext.
#[derive(Debug)]
pub struct AddSecretRequest {
    pub name: String,
    pub kind: String,
    pub value: String,
}

/// Stores a secret whose payload is already encrypted, under the identifier
/// `id` and made at time `at`.
pub fn store_secret(
    state: &mut AppState,
    id: u128,
    at: Timestamp,
    name: String,
    kind: SecretKind,
    encrypted_value: Vec<u8>,
) -> (r: SecretResponse)
    ensures
        final(state).encryption == old(state).encryption,
        final(state).sessions == old(state).sessions,
        final(state).storage@ == old(state).storage@.with_secret(
            SecretView {
                id,
                name: name@,
                kind,
                username: None,
                encrypted_value: encrypted_value@,
                created_at: at,
                updated_at: at,
            },
        ),
        r@ == (SecretResponseView { id: id_text(id), name: name@, kind: kind_text(kind) }),
        reads_as(r.id@, id),
{
    let secret = Secret::with_identity(id, at, name, kind, encrypted_value, None);
    SecretRepository::store(&mut state.storage, &secret);
    SecretResponse::from(secret)
}

/// Adds a secret: encrypts the value under the master key and stores the
/// blob, under a fresh identifier and at the current time. It always
/// succeeds. The answer holds identifier, name and kind; the stored blob is
/// longer than the value and holds it under the master key.
pub fn add_secret(state: &mut AppState, request: AddSecretRequest) -> (r: CommandResult<
    SecretResponse,
>)
    ensures
        final(state).encryption == old(state).encryption,
        final(state).sessions == old(state).sessions,
        r matches Ok(a) && exists|s: SecretView|
            #![auto]
            final(state).storage@ == old(state).storage@.with_secret(s) && a@ == secret_response(
                s,
            ) && reads_as(a.id@, s.id) && s.name == request.name@ && s.kind == kind_of(
                lowercase(request.kind@),
            ) && s.username is None && old(state).encryption.opens(
                s.encrypted_value,
                encode_utf8(request.value@),
            ) && s.encrypted_value.len() > encode_utf8(request.value@).len(),
        lowercase_fits(request.kind@),
{
    let kind = parse_kind(request.kind.as_str());
    let encrypted = match state.encryption.encrypt_string(request.value.as_str()) {
        Ok(c) => c,
        Err(e) => {
            return Err(CommandError::from(e));
        },
    };
    let id = fresh_id();
    let at = now();
    let ghost s = SecretView {
        id,
        name: request.name@,
        kind,
        username: None,
        encrypted_value: encrypted@,
        created_at: at,
        updated_at: at,
    };
    let a = store_secret(state, id, at, request.name, kind, encrypted);
    assert(final(state).storage@ == old(state).storage@.with_secret(s) && a@ == secret_response(s)
        && reads_as(a.id@, s.id) && old(state).encryption.opens(
        s.encrypted_value,
        encode_utf8(request.value@),
    ) && s.encrypted_value.len() > encode_utf8(request.value@).len());
    Ok(a)
}

/// Deletes a secret and the links to it.
pub fn delete_secret(state: &mut AppState, id: String) -> (r: CommandResult<()>)
    ensures
        final(state).encryption == old(state).encryption,
        final(state).sessions == old(state).sessions,
        match id_parse(id@) {
            Ok(k) => r is Ok && final(state).storage@ == old(state).storage@.without_secret(k),
            Err(_) => (r matches Err(e) && e@ == id_fault("Invalid UUID: "@, id@))
                && final(state).storage@ == old(state).storage@,
        },
{
    let k = match parse_command_id(id.as_str(), "Invalid UUID: ") {
        Ok(k) => k,
        Err(e) => {
            return Err(e);
        },
    };
    SecretRepository::delete(&mut state.storage, k);
    Ok(())
}

/// The pair of identifiers that a command on a link names; the answer where
/// one cannot be read. The server's is read first.
pub open spec fn link_ids(server_id: Seq<char>, secret_id: Seq<char>) -> Result<
    (u128, u128),
    CommandErrorView,
> {
    match id_parse(server_id) {
        Err(_) => Err(id_fault("Invalid server UUID: "@, server_id)),
        Ok(a) => match id_parse(secret_id) {
            Err(_) => Err(id_fault("Invalid secret UUID: "@, secret_id)),
            Ok(b) => Ok((a, b)),
        },
    }
}

fn parse_link_ids(server_id: &str, secret_id: &str) -> (r: CommandResult<(u128, u128)>)
    ensures
        match link_ids(server_id@, secret_id@) {
            Ok(p) => r == Ok::<(u128, u128), CommandError>(p),
            Err(e) => r matches Err(x) && x@ == e,
        },
{
    let a = match parse_command_id(server_id, "Invalid server UUID: ") {
        Ok(a) => a,
        Err(e) => {
            return Err(e);
        },
    };
    let b = match parse_command_id(secret_id, "Invalid secret UUID: ") {
        Ok(b) => b,
        Err(e) => {
            return Err(e);
        },
    };
    Ok((a, b))
}

/// The priority of a link for which none was given.
pub open spec fn priority_or_default(priority: Option<i32>) -> i32 {
    match priority {
        Some(p) => p,
        None => 0,
    }
}

/// Links a secret to a server, with priority 0 where none is given. A link
/// between the two that is there is replaced.
pub fn link_secret_to_server(
    state: &mut AppState,
    server_id: String,
    secret_id: String,
    priority: Option<i32>,
) -> (r: CommandResult<()>)
    ensures
        final(state).encryption == old(state).encryption,
        final(state).sessions == old(state).sessions,
        match link_ids(server_id@, secret_id@) {
            Ok(p) => r is Ok && final(state).storage@ == old(state).storage@.with_link(
                ServerSecret {
                    server_id: p.0,
                    secret_id: p.1,
                    priority: priority_or_default(priority),
                },
            ),
            Err(e) => (r matches Err(x) && x@ == e) && final(state).storage@ == old(state).storage@,
        },
{
    let (a, b) = match parse_link_ids(server_id.as_str(), secret_id.as_str()) {
        Ok(p) => p,
        Err(e) => {
            return Err(e);
        },
    };
    let p: i32 = match priority {
        Some(p) => p,
        None => 0,
    };
    let link = ServerSecret::new(a, b, p);
    ServerRepository::link_secret(&mut state.storage, &link);
    Ok(())
}

/// Takes away the link between a server and a secret.
pub fn unlink_secret_from_server(state: &mut AppState, server_id: String, secret_id: String) -> (r:
    CommandResult<()>)
    ensures
        final(state).encryption == old(state).encryption,
        final(state).sessions == old(state).sessions,
        match link_ids(server_id@, secret_id@) {
            Ok(p) => r is Ok && final(state).storage@ == old(state).storage@.without_link(
                p.0,
                p.1,
            ),
            Err(e) => (r matches Err(x) && x@ == e) && final(state).storage@ == old(state).storage@,
        },
{
    let (a, b) = match parse_link_ids(server_id.as_str(), secret_id.as_str()) {
        Ok(p) => p,
        Err(e) => {
            return Err(e);
        },
    };
    ServerRepository::unlink_secret(&mut state.storage, a, b);
    Ok(())
}

/// What a connection starts from: the server and the way to authenticate.
#[derive(Debug)]
pub struct ConnectPlan {
    pub server: Server,
    pub auth: AuthMethod,
}

/// Whether `r` is an outcome of preparing the connection that `request` asks
/// for: the identifier has to be readable and the server there; then the
/// resolver decides.
pub open spec fn prepares(
    storage: StorageModel,
    encryption: SecretEncryption,
    request: ConnectRequest,
    r: Result<(ServerView, AuthView), CommandErrorView>,
) -> bool {
    match id_parse(request.server_id@) {
        Err(_) => r == Err::<(ServerView, AuthView), CommandErrorView>(
            id_fault("Invalid server UUID: "@, request.server_id@),
        ),
        Ok(id) => match storage.server(id) {
            None => r == Err::<(ServerView, AuthView), CommandErrorView>(
                failure("Server not found"@, "NOT_FOUND"@),
            ),
            Some(s) => (r matches Ok(p) ==> p.0 == s) && resolves(
                encryption,
                opt_text(request.password),
                opt_text(request.private_key),
                opt_text(request.passphrase),
                storage.secrets_for(id),
                match r {
                    Ok(p) => Ok(p.1),
                    Err(e) => Err(e),
                },
            ),
        },
    }
}

/// The outcome of preparing a connection, as a mathematical value.
pub open spec fn prepared(r: CommandResult<ConnectPlan>) -> Result<
    (ServerView, AuthView),
    CommandErrorView,
> {
    match r {
        Ok(p) => Ok((p.server@, p.auth@)),
        Err(e) => Err(e@),
    }
}

/// Prepares a connection: finds the server and resolves how to authenticate.
/// Nothing is registered; the session is registered once the transport
/// stands.
pub fn connect_ssh(state: &AppState, request: &ConnectRequest) -> (r: CommandResult<ConnectPlan>)
    ensures
        prepares(state.storage@, state.encryption, *request, prepared(r)),
{
    let id = match parse_command_id(request.server_id.as_str(), "Invalid server UUID: ") {
        Ok(id) => id,
        Err(e) => {
            return Err(e);
        },
    };
    let server = match ServerRepository::get(&state.storage, id) {
        Some(s) => s,
        None => {
            return Err(fail("Server not found".to_owned(), "NOT_FOUND"));
        },
    };
    let linked = ServerRepository::get_secrets(&state.storage, id);
    match resolve_auth(request, &linked, &state.encryption) {
        Ok(auth) => Ok(ConnectPlan { server, auth }),
        Err(e) => Err(e),
    }
}

/// The answer to a connect request.
#[derive(Debug)]
pub struct SessionResponse {
    pub session_id: String,
    pub server_id: String,
    pub connected: bool,
}

/// Output of a session, as the front-end receives it.
#[derive(Debug)]
pub struct SshOutputEvent {
    pub session_id: String,
    pub data: String,
    pub eof: bool,
}

/// The mathematical value of an `SshOutputEvent`.
pub struct OutputView {
    pub session_id: Seq<char>,
    pub data: Seq<char>,
    pub eof: bool,
}

impl View for SshOutputEvent {
    type V = OutputView;

    open spec fn view(&self) -> OutputView {
        OutputView { session_id: self.session_id@, data: self.data@, eof: self.eof }
    }
}

impl Clone for SshOutputEvent {
    fn clone(&self) -> (r: Self)
        ensures
            r@ == self@,
    {
        SshOutputEvent {
            session_id: self.session_id.clone(),
            data: self.data.clone(),
            eof: self.eof,
        }
    }
}

/// Registers the session of a connection that stands, under the identifier
/// `id`. An identifier that is taken is refused.
pub fn register_session(state: &mut AppState, server_id: String, id: u128, entry: ActiveSession) -> (r:
    CommandResult<SessionResponse>)
    ensures
        final(state).storage == old(state).storage,
        final(state).encryption == old(state).encryption,
        match r {
            Ok(a) => !old(state).sessions@.contains_key(id) && final(state).sessions@
                == old(state).sessions@.insert(id, entry) && a.session_id@ == id_text(id)
                && reads_as(a.session_id@, id) && a.server_id@ == server_id@ && a.connected,
            Err(e) => old(state).sessions@.contains_key(id) && final(state).sessions@
                == old(state).sessions@ && e@ == failure(
                "Session error: "@ + "Session already registered"@,
                "SESSION_ERROR"@,
            ),
        },
{
    match state.add_session(id, entry) {
        Ok(_) => Ok(SessionResponse { session_id: format_id(id), server_id, connected: true }),
        Err(e) => Err(CommandError::from(e)),
    }
}

/// Why a command on a session is refused: its identifier cannot be read, or
/// no session is registered under it. `None` where the command goes ahead.
pub open spec fn session_fault(sessions: Set<u128>, session_id: Seq<char>) -> Option<
    CommandErrorView,
> {
    match id_parse(session_id) {
        Err(_) => Some(id_fault("Invalid session UUID: "@, session_id)),
        Ok(id) => if sessions.contains(id) {
            None
        } else {
            Some(failure("Session not found"@, "NOT_FOUND"@))
        },
    }
}

/// Once a session is out of the registry, every command on it is answered
/// with `NOT_FOUND`.
pub proof fn lemma_gone_after_disconnect(sessions: Set<u128>, id: u128, session_id: Seq<char>)
    requires
        id_parse(session_id) == Ok::<u128, Seq<char>>(id),
    ensures
        session_fault(sessions.remove(id), session_id) == Some(
            failure("Session not found"@, "NOT_FOUND"@),
        ),
{
}

/// The message that carries keystrokes; none for no keystrokes.
pub fn input_message(input: String) -> (m: Option<SshInput>)
    ensures
        match m {
            Some(x) => input@.len() > 0 && x@ == InputView::Data(input@),
            None => input@.len() == 0,
        },
{
    if input.as_str().unicode_len() > 0 {
        Some(SshInput::Data(input))
    } else {
        None
    }
}

/// The message that carries a new size of the terminal.
pub fn resize_message(cols: u32, rows: u32) -> (m: SshInput)
    ensures
        m@ == (InputView::Resize { cols, rows }),
{
    SshInput::Resize { cols, rows }
}

/// The message that asks the worker to end the session.
pub fn disconnect_message() -> (m: SshInput)
    ensures
        m@ == InputView::Disconnect,
{
    SshInput::Disconnect
}

/// Ends a session: takes it out of the registry, asks its worker to
/// disconnect and raises its stop flag. Ending a session that is not there
/// is no failure.
pub fn disconnect_ssh(state: &mut AppState, session_id: String) -> (r: CommandResult<()>)
    ensures
        final(state).storage == old(state).storage,
        final(state).encryption == old(state).encryption,
        match id_parse(session_id@) {
            Ok(id) => r is Ok && final(state).sessions@ == old(state).sessions@.remove(id),
            Err(_) => (r matches Err(e) && e@ == id_fault("Invalid session UUID: "@, session_id@))
                && final(state).sessions@ == old(state).sessions@,
        },
{
    let id = match parse_command_id(session_id.as_str(), "Invalid session UUID: ") {
        Ok(id) => id,
        Err(e) => {
            return Err(e);
        },
    };
    match state.remove_session(id) {
        Some(session) => {
            let message = disconnect_message();
            let _ = send_input(&session.input_tx, message);
            session.stop_flag.store(true, std::sync::atomic::Ordering::Relaxed);
        },
        None => {},
    }
    Ok(())
}

fn find_session(state: &AppState, session_id: &str) -> (r: CommandResult<u128>)
    ensures
        match session_fault(state.sessions@.dom(), session_id@) {
            Some(e) => r matches Err(x) && x@ == e,
            None => r matches Ok(id) && id_parse(session_id@) == Ok::<u128, Seq<char>>(id)
                && state.sessions@.contains_key(id),
        },
{
    let id = match parse_command_id(session_id, "Invalid session UUID: ") {
        Ok(id) => id,
        Err(e) => {
            return Err(e);
        },
    };
    if state.sessions.contains(id) {
        Ok(id)
    } else {
        Err(fail("Session not found".to_owned(), "NOT_FOUND"))
    }
}

/// Queues keystrokes for a session: the message of `input_message`. Nothing
/// is queued for an empty input.
pub fn send_ssh_input(state: &AppState, session_id: String, input: String) -> (r: CommandResult<()>)
    ensures
        match session_fault(state.sessions@.dom(), session_id@) {
            Some(e) => r matches Err(x) && x@ == e,
            None => r is Ok,
        },
{
    let id = match find_session(state, session_id.as_str()) {
        Ok(id) => id,
        Err(e) => {
            return Err(e);
        },
    };
    match input_message(input) {
        Some(message) => {
            let _ = state.with_session(
                id,
                |session: &ActiveSession| send_input(&session.input_tx, message),
            );
        },
        None => {},
    }
    Ok(())
}

/// Queues a new terminal size for a session: the message of
/// `resize_message`.
pub fn resize_terminal(state: &AppState, session_id: String, cols: u32, rows: u32) -> (r:
    CommandResult<()>)
    ensures
        match session_fault(state.sessions@.dom(), session_id@) {
            Some(e) => r matches Err(x) && x@ == e,
            None => r is Ok,
        },
{
    let id = match find_session(state, session_id.as_str()) {
        Ok(id) => id,
        Err(e) => {
            return Err(e);
        },
    };
    let message = resize_message(cols, rows);
    let _ = state.with_session(
        id,
        |session: &ActiveSession| send_input(&session.input_tx, message),
    );
    Ok(())
}

} // verus!
