//! The SSH transport, as far as it is decided here: the settings of the
//! pseudo-terminal, and the steps of a connection attempt. The steps touch
//! the network, the file system and the SSH agent; the caller performs each
//! step it is handed and reports what came of it.

use crate::error::{Error, ErrorKind, ErrorView};
use crate::ids::{format_id, fresh_id, id_text};
use crate::models::{clone_opt_string, opt_text, Server, ServerView};
use crate::traits::{AuthMethod, AuthView};
use vstd::prelude::*;
use vstd::string::*;
use vstd::utf8::encode_utf8;

verus! {

/// The settings of a pseudo-terminal.
#[derive(Debug)]
pub struct PtyConfig {
    /// The terminal type.
    pub term: String,
    pub cols: u32,
    pub rows: u32,
    /// The width in pixels.
    pub width: u32,
    /// The height in pixels.
    pub height: u32,
}

impl Default for PtyConfig {
    /// An `xterm-256color` of 80 columns and 24 rows.
    fn default() -> (r: Self)
        ensures
            r.term@ == "xterm-256color"@,
            r.cols == 80,
            r.rows == 24,
            r.width == 0,
            r.height == 0,
    {
        PtyConfig { term: "xterm-256color".to_owned(), cols: 80, rows: 24, width: 0, height: 0 }
    }
}

/// What came of the step that the caller was handed last.
#[derive(Debug)]
pub enum ConnectEvent {
    /// The step succeeded.
    Done,
    /// The step failed, with the message of the failure.
    Failed(String),
    /// Whether the probed path is an existing file.
    PathProbed(bool),
    /// The agent listed this many identities.
    Identities(usize),
    /// Whether the session counts as authenticated.
    Authenticated(bool),
}

/// The mathematical value of a `ConnectEvent`.
pub enum ConnectEventView {
    Done,
    Failed(Seq<char>),
    PathProbed(bool),
    Identities(usize),
    Authenticated(bool),
}

impl View for ConnectEvent {
    type V = ConnectEventView;

    open spec fn view(&self) -> ConnectEventView {
        match self {
            ConnectEvent::Done => ConnectEventView::Done,
            ConnectEvent::Failed(m) => ConnectEventView::Failed(m@),
            ConnectEvent::PathProbed(b) => ConnectEventView::PathProbed(*b),
            ConnectEvent::Identities(n) => ConnectEventView::Identities(*n),
            ConnectEvent::Authenticated(b) => ConnectEventView::Authenticated(*b),
        }
    }
}

/// The step that the caller is to perform next.
#[derive(Debug)]
pub enum ConnectAction {
    /// Open a TCP connection to the address.
    TcpConnect { address: String },
    /// Put the socket into blocking mode.
    SetBlocking,
    /// Create the SSH session over the socket.
    CreateSession,
    /// Perform the SSH handshake.
    Handshake,
    /// Authenticate with a password.
    AuthPassword { username: String, password: String },
    /// Find out whether the path is an existing file.
    ProbeKeyPath { path: String },
    /// Authenticate with the key file at the path.
    AuthKeyFile { username: String, path: String, passphrase: Option<String> },
    /// Create a new file of this name in the temporary directory, readable
    /// and writable by its owner only, and write the key into it.
    WriteTempKey { file_name: String, contents: String },
    /// Authenticate with the key file of this name in the temporary
    /// directory.
    AuthTempKey { username: String, file_name: String, passphrase: Option<String> },
    /// Overwrite the file of this name in the temporary directory with this
    /// many zero bytes, then remove it; failures are ignored.
    ScrubTempKey { file_name: String, length: usize },
    /// Get the handle of the SSH agent.
    AgentOpen,
    /// Connect to the SSH agent.
    AgentConnect,
    /// Have the SSH agent list its identities.
    AgentList,
    /// Authenticate with the identity of this index.
    AgentTry { username: String, index: usize },
    /// Ask the session whether it is authenticated.
    CheckAuthenticated,
    /// The connection stands.
    Succeed,
    /// The attempt is over, with this error.
    Fail(Error),
}

/// The mathematical value of a `ConnectAction`.
pub enum ConnectActionView {
    TcpConnect { address: Seq<char> },
    SetBlocking,
    CreateSession,
    Handshake,
    AuthPassword { username: Seq<char>, password: Seq<char> },
    ProbeKeyPath { path: Seq<char> },
    AuthKeyFile { username: Seq<char>, path: Seq<char>, passphrase: Option<Seq<char>> },
    WriteTempKey { file_name: Seq<char>, contents: Seq<char> },
    AuthTempKey { username: Seq<char>, file_name: Seq<char>, passphrase: Option<Seq<char>> },
    ScrubTempKey { file_name: Seq<char>, length: usize },
    AgentOpen,
    AgentConnect,
    AgentList,
    AgentTry { username: Seq<char>, index: usize },
    CheckAuthenticated,
    Succeed,
    Fail(ErrorView),
}

impl View for ConnectAction {
    type V = ConnectActionView;

    open spec fn view(&self) -> ConnectActionView {
        match self {
            ConnectAction::TcpConnect { address } => ConnectActionView::TcpConnect {
                address: address@,
            },
            ConnectAction::SetBlocking => ConnectActionView::SetBlocking,
            ConnectAction::CreateSession => ConnectActionView::CreateSession,
            ConnectAction::Handshake => ConnectActionView::Handshake,
            ConnectAction::AuthPassword { username, password } => ConnectActionView::AuthPassword {
                username: username@,
                password: password@,
            },
            ConnectAction::ProbeKeyPath { path } => ConnectActionView::ProbeKeyPath { path: path@ },
            ConnectAction::AuthKeyFile { username, path, passphrase } => ConnectActionView::AuthKeyFile {
                username: username@,
                path: path@,
                passphrase: opt_text(*passphrase),
            },
            ConnectAction::WriteTempKey { file_name, contents } => ConnectActionView::WriteTempKey {
                file_name: file_name@,
                contents: contents@,
            },
            ConnectAction::AuthTempKey { username, file_name, passphrase } => ConnectActionView::AuthTempKey {
                username: username@,
                file_name: file_name@,
                passphrase: opt_text(*passphrase),
            },
            ConnectAction::ScrubTempKey { file_name, length } => ConnectActionView::ScrubTempKey {
                file_name: file_name@,
                length: *length,
            },
            ConnectAction::AgentOpen => ConnectActionView::AgentOpen,
            ConnectAction::AgentConnect => ConnectActionView::AgentConnect,
            ConnectAction::AgentList => ConnectActionView::AgentList,
            ConnectAction::AgentTry { username, index } => ConnectActionView::AgentTry {
                username: username@,
                index: *index,
            },
            ConnectAction::CheckAuthenticated => ConnectActionView::CheckAuthenticated,
            ConnectAction::Succeed => ConnectActionView::Succeed,
            ConnectAction::Fail(e) => ConnectActionView::Fail(e@),
        }
    }
}

/// Where a connection attempt stands: the step whose outcome it waits for.
#[derive(Debug, Clone, Copy, PartialEq, Eq, Structural)]
pub enum ConnectPhase {
    Tcp,
    Blocking,
    Session,
    Handshake,
    Password,
    Probe,
    KeyFile,
    TempWrite,
    TempAuth,
    /// The temporary key file is being scrubbed; `refused` where the
    /// authentication with it failed.
    TempScrub { refused: bool },
    AgentOpen,
    AgentConnect,
    AgentList,
    AgentTry { index: usize, count: usize },
    Check,
    Over,
}

impl ConnectPhase {
    /// The phases of the TCP connection and of the handshake.
    pub open spec fn is_connection_phase(self) -> bool {
        self is Tcp || self is Blocking || self is Handshake
    }

    /// The phases of authentication.
    pub open spec fn is_authentication_phase(self) -> bool {
        !(self is Tcp || self is Blocking || self is Session || self is Handshake || self is Over)
    }
}

/// The mathematical value of a `Connector`.
pub struct ConnectorModel {
    pub address: Seq<char>,
    pub username: Seq<char>,
    pub auth: AuthView,
    /// The name of the temporary key file, should one be needed.
    pub temp_name: Seq<char>,
    pub phase: ConnectPhase,
    /// Why the authentication with the temporary key file failed.
    pub refusal: Seq<char>,
}

/// The name of a temporary key file: a fixed stem and an identifier that
/// cannot be predicted.
pub open spec fn temp_key_name(key_id: u128) -> Seq<char> {
    ".tacoshell_key_"@ + id_text(key_id)
}

pub open spec fn failed(kind: ErrorKind, what: Seq<char>, message: Seq<char>) -> ConnectActionView {
    ConnectActionView::Fail(ErrorView { kind, detail: what + message })
}

impl ConnectorModel {
    /// An attempt to connect to `server` with `auth`, and its first step.
    /// `key_id` names the temporary key file, should one be needed.
    pub open spec fn start(server: ServerView, auth: AuthView, key_id: u128) -> (
        ConnectorModel,
        ConnectActionView,
    ) {
        (
            ConnectorModel {
                address: server.address(),
                username: server.username,
                auth,
                temp_name: temp_key_name(key_id),
                phase: ConnectPhase::Tcp,
                refusal: Seq::empty(),
            },
            ConnectActionView::TcpConnect { address: server.address() },
        )
    }

    pub open spec fn over(self, action: ConnectActionView) -> (ConnectorModel, ConnectActionView) {
        (ConnectorModel { phase: ConnectPhase::Over, ..self }, action)
    }

    pub open spec fn to(self, phase: ConnectPhase, action: ConnectActionView) -> (
        ConnectorModel,
        ConnectActionView,
    ) {
        (ConnectorModel { phase, ..self }, action)
    }

    /// The attempt is over because the step failed. An outcome other than a
    /// failure, where the step has none, counts as a failure without a
    /// message.
    pub open spec fn refuse(self, kind: ErrorKind, what: Seq<char>, event: ConnectEventView) -> (
        ConnectorModel,
        ConnectActionView,
    ) {
        match event {
            ConnectEventView::Failed(m) => self.over(failed(kind, what, m)),
            _ => self.over(failed(kind, what, "unexpected outcome"@)),
        }
    }

    /// The first step of authentication.
    pub open spec fn authenticate(self) -> (ConnectorModel, ConnectActionView) {
        match self.auth {
            AuthView::Password(password) => self.to(
                ConnectPhase::Password,
                ConnectActionView::AuthPassword { username: self.username, password },
            ),
            AuthView::PrivateKey { key, passphrase } => self.to(
                ConnectPhase::Probe,
                ConnectActionView::ProbeKeyPath { path: key },
            ),
            AuthView::Agent => self.to(ConnectPhase::AgentOpen, ConnectActionView::AgentOpen),
        }
    }

    pub open spec fn check(self) -> (ConnectorModel, ConnectActionView) {
        self.to(ConnectPhase::Check, ConnectActionView::CheckAuthenticated)
    }

    pub open spec fn no_identity(self) -> (ConnectorModel, ConnectActionView) {
        self.over(failed(ErrorKind::Authentication, "No valid identity found in agent"@, ""@))
    }

    pub open spec fn key(self) -> Seq<char> {
        match self.auth {
            AuthView::PrivateKey { key, passphrase } => key,
            _ => Seq::empty(),
        }
    }

    pub open spec fn passphrase(self) -> Option<Seq<char>> {
        match self.auth {
            AuthView::PrivateKey { key, passphrase } => passphrase,
            _ => None,
        }
    }

    pub open spec fn scrub(self, refused: bool, refusal: Seq<char>) -> (
        ConnectorModel,
        ConnectActionView,
    ) {
        (
            ConnectorModel { phase: ConnectPhase::TempScrub { refused }, refusal, ..self },
            ConnectActionView::ScrubTempKey {
                file_name: self.temp_name,
                length: encode_utf8(self.key()).len() as usize,
            },
        )
    }

    /// The attempt after `event`, and the next step.
    pub open spec fn step(self, event: ConnectEventView) -> (ConnectorModel, ConnectActionView) {
        match self.phase {
            ConnectPhase::Tcp => match event {
                ConnectEventView::Done => self.to(
                    ConnectPhase::Blocking,
                    ConnectActionView::SetBlocking,
                ),
                _ => self.refuse(
                    ErrorKind::Connection,
                    "Failed to connect to "@ + self.address + ": "@,
                    event,
                ),
            },
            ConnectPhase::Blocking => match event {
                ConnectEventView::Done => self.to(
                    ConnectPhase::Session,
                    ConnectActionView::CreateSession,
                ),
                _ => self.refuse(ErrorKind::Connection, "Failed to set blocking mode: "@, event),
            },
            ConnectPhase::Session => match event {
                ConnectEventView::Done => self.to(
                    ConnectPhase::Handshake,
                    ConnectActionView::Handshake,
                ),
                _ => self.refuse(ErrorKind::Session, "Failed to create session: "@, event),
            },
            ConnectPhase::Handshake => match event {
                ConnectEventView::Done => self.authenticate(),
                _ => self.refuse(ErrorKind::Connection, "SSH handshake failed: "@, event),
            },
            ConnectPhase::Password => match event {
                ConnectEventView::Done => self.check(),
                _ => self.refuse(ErrorKind::Authentication, "Password auth failed: "@, event),
            },
            ConnectPhase::Probe => match event {
                ConnectEventView::PathProbed(true) => self.to(
                    ConnectPhase::KeyFile,
                    ConnectActionView::AuthKeyFile {
                        username: self.username,
                        path: self.key(),
                        passphrase: self.passphrase(),
                    },
                ),
                _ => self.to(
                    ConnectPhase::TempWrite,
                    ConnectActionView::WriteTempKey {
                        file_name: self.temp_name,
                        contents: self.key(),
                    },
                ),
            },
            ConnectPhase::KeyFile => match event {
                ConnectEventView::Done => self.check(),
                _ => self.refuse(ErrorKind::Authentication, "Key auth failed: "@, event),
            },
            ConnectPhase::TempWrite => match event {
                ConnectEventView::Done => self.to(
                    ConnectPhase::TempAuth,
                    ConnectActionView::AuthTempKey {
                        username: self.username,
                        file_name: self.temp_name,
                        passphrase: self.passphrase(),
                    },
                ),
                _ => self.refuse(ErrorKind::Authentication, "Failed to write temp key: "@, event),
            },
            ConnectPhase::TempAuth => match event {
                ConnectEventView::Done => self.scrub(false, Seq::empty()),
                ConnectEventView::Failed(m) => self.scrub(true, m),
                _ => self.scrub(true, "unexpected outcome"@),
            },
            ConnectPhase::TempScrub { refused } => if refused {
                self.over(failed(ErrorKind::Authentication, "Key auth failed: "@, self.refusal))
            } else {
                self.check()
            },
            ConnectPhase::AgentOpen => match event {
                ConnectEventView::Done => self.to(
                    ConnectPhase::AgentConnect,
                    ConnectActionView::AgentConnect,
                ),
                _ => self.refuse(ErrorKind::Authentication, "Failed to get SSH agent: "@, event),
            },
            ConnectPhase::AgentConnect => match event {
                ConnectEventView::Done => self.to(
                    ConnectPhase::AgentList,
                    ConnectActionView::AgentList,
                ),
                _ => self.refuse(
                    ErrorKind::Authentication,
                    "Failed to connect to agent: "@,
                    event,
                ),
            },
            ConnectPhase::AgentList => match event {
                ConnectEventView::Identities(count) => if count == 0 {
                    self.no_identity()
                } else {
                    self.to(
                        ConnectPhase::AgentTry { index: 0, count },
                        ConnectActionView::AgentTry { username: self.username, index: 0 },
                    )
                },
                _ => self.refuse(ErrorKind::Authentication, "Failed to list identities: "@, event),
            },
            ConnectPhase::AgentTry { index, count } => match event {
                ConnectEventView::Done => self.check(),
                _ => if index < count - 1 {
                    self.to(
                        ConnectPhase::AgentTry { index: (index + 1) as usize, count },
                        ConnectActionView::AgentTry {
                            username: self.username,
                            index: (index + 1) as usize,
                        },
                    )
                } else {
                    self.no_identity()
                },
            },
            ConnectPhase::Check => match event {
                ConnectEventView::Authenticated(true) => self.over(ConnectActionView::Succeed),
                _ => self.over(failed(ErrorKind::Authentication, "Authentication failed"@, ""@)),
            },
            ConnectPhase::Over => self.over(
                failed(ErrorKind::Session, "The connection attempt is over"@, ""@),
            ),
        }
    }

    /// A failure while the TCP connection or the handshake is made is of the
    /// kind `Connection`; a failure while the session authenticates is of
    /// the kind `Authentication`.
    pub proof fn lemma_failure_kinds(self, event: ConnectEventView)
        ensures
            self.step(event).1 matches ConnectActionView::Fail(e) ==> {
                &&& self.phase.is_connection_phase() ==> e.kind == ErrorKind::Connection
                &&& self.phase.is_authentication_phase() ==> e.kind == ErrorKind::Authentication
            },
    {
    }

    /// The connection stands only once the session has said that it is
    /// authenticated.
    pub proof fn lemma_success_is_checked(self, event: ConnectEventView)
        ensures
            self.step(event).1 is Succeed ==> self.phase is Check && event
                == ConnectEventView::Authenticated(true),
    {
    }

    /// A key that was written to a temporary file is scrubbed before anything
    /// else happens, whether the authentication with it succeeded or not: the
    /// file is overwritten with as many zeros as the key has bytes, and
    /// removed.
    pub proof fn lemma_temp_key_is_scrubbed(self, event: ConnectEventView)
        requires
            self.phase is TempAuth,
        ensures
            self.step(event).1 == (ConnectActionView::ScrubTempKey {
                file_name: self.temp_name,
                length: encode_utf8(self.key()).len() as usize,
            }),
            self.step(event).0.phase is TempScrub,
    {
    }

    /// A key that names no existing file is taken as the key itself.
    pub proof fn lemma_missing_path_is_inline_key(self)
        requires
            self.phase is Probe,
        ensures
            self.step(ConnectEventView::PathProbed(false)).1 == (ConnectActionView::WriteTempKey {
                file_name: self.temp_name,
                contents: self.key(),
            }),
    {
    }
}

/// An attempt to connect to a server.
#[derive(Debug)]
pub struct Connector {
    address: String,
    username: String,
    auth: AuthMethod,
    temp_name: String,
    phase: ConnectPhase,
    refusal: String,
}

impl View for Connector {
    type V = ConnectorModel;

    closed spec fn view(&self) -> ConnectorModel {
        ConnectorModel {
            address: self.address@,
            username: self.username@,
            auth: self.auth@,
            temp_name: self.temp_name@,
            phase: self.phase,
            refusal: self.refusal@,
        }
    }
}

fn fail_with(kind: ErrorKind, what: &str, message: &str) -> (r: ConnectAction)
    ensures
        r@ == failed(kind, what@, message@),
{
    let mut detail = what.to_owned();
    detail.append(message);
    match kind {
        ErrorKind::Connection => ConnectAction::Fail(Error::Connection(detail)),
        ErrorKind::Authentication => ConnectAction::Fail(Error::Authentication(detail)),
        ErrorKind::Session => ConnectAction::Fail(Error::Session(detail)),
        ErrorKind::Database => ConnectAction::Fail(Error::Database(detail)),
        ErrorKind::Secret => ConnectAction::Fail(Error::Secret(detail)),
        ErrorKind::Transfer => ConnectAction::Fail(Error::Transfer(detail)),
        ErrorKind::Kubernetes => ConnectAction::Fail(Error::Kubernetes(detail)),
        ErrorKind::Config => ConnectAction::Fail(Error::Config(detail)),
        ErrorKind::Io => ConnectAction::Fail(Error::Io(detail)),
        ErrorKind::Serialization => ConnectAction::Fail(Error::Serialization(detail)),
        ErrorKind::Other => ConnectAction::Fail(Error::Other(detail)),
    }
}

impl Connector {
    /// An attempt to connect to `server` with `auth`, and its first step.
    /// `key_id` names the temporary key file, should one be needed.
    pub fn start_with(server: &Server, auth: AuthMethod, key_id: u128) -> (r: (
        Connector,
        ConnectAction,
    ))
        ensures
            (r.0@, r.1@) == ConnectorModel::start(server@, auth@, key_id),
    {
        let mut temp_name = ".tacoshell_key_".to_owned();
        let id = format_id(key_id);
        temp_name.append(id.as_str());
        let address = server.address();
        let action = ConnectAction::TcpConnect { address: address.clone() };
        (
            Connector {
                address,
                username: server.username.clone(),
                auth,
                temp_name,
                phase: ConnectPhase::Tcp,
                refusal: String::new(),
            },
            action,
        )
    }

    /// An attempt to connect to `server` with `auth`, and its first step. The
    /// temporary key file, should one be needed, gets a fresh random name.
    pub fn start(server: &Server, auth: AuthMethod) -> (r: (Connector, ConnectAction))
        ensures
            exists|key_id: u128|
                (r.0@, r.1@) == #[trigger] ConnectorModel::start(server@, auth@, key_id),
    {
        let key_id = fresh_id();
        Connector::start_with(server, auth, key_id)
    }

    /// Whether the attempt is over.
    pub fn is_over(&self) -> (r: bool)
        ensures
            r == (self@.phase is Over),
    {
        match self.phase {
            ConnectPhase::Over => true,
            _ => false,
        }
    }

    fn refuse(&mut self, kind: ErrorKind, what: &str, event: ConnectEvent) -> (r: ConnectAction)
        ensures
            (final(self)@, r@) == old(self)@.refuse(kind, what@, event@),
    {
        self.phase = ConnectPhase::Over;
        match event {
            ConnectEvent::Failed(m) => fail_with(kind, what, m.as_str()),
            _ => fail_with(kind, what, "unexpected outcome"),
        }
    }

    fn check(&mut self) -> (r: ConnectAction)
        ensures
            (final(self)@, r@) == old(self)@.check(),
    {
        self.phase = ConnectPhase::Check;
        ConnectAction::CheckAuthenticated
    }

    fn no_identity(&mut self) -> (r: ConnectAction)
        ensures
            (final(self)@, r@) == old(self)@.no_identity(),
    {
        self.phase = ConnectPhase::Over;
        fail_with(ErrorKind::Authentication, "No valid identity found in agent", "")
    }

    fn key(&self) -> (r: String)
        ensures
            r@ == self@.key(),
    {
        match &self.auth {
            AuthMethod::PrivateKey { key, passphrase } => key.clone(),
            _ => String::new(),
        }
    }

    fn passphrase(&self) -> (r: Option<String>)
        ensures
            opt_text(r) == self@.passphrase(),
    {
        match &self.auth {
            AuthMethod::PrivateKey { key, passphrase } => clone_opt_string(passphrase),
            _ => None,
        }
    }

    fn scrub(&mut self, refused: bool, refusal: String) -> (r: ConnectAction)
        ensures
            (final(self)@, r@) == old(self)@.scrub(refused, refusal@),
    {
        let key = self.key();
        self.phase = ConnectPhase::TempScrub { refused };
        self.refusal = refusal;
        ConnectAction::ScrubTempKey { file_name: self.temp_name.clone(), length: key.as_str().len() }
    }

    /// Takes in what came of the last step and hands out the next one.
    pub fn step(&mut self, event: ConnectEvent) -> (r: ConnectAction)
        ensures
            (final(self)@, r@) == old(self)@.step(event@),
    {
        match self.phase {
            ConnectPhase::Tcp => match event {
                ConnectEvent::Done => {
                    self.phase = ConnectPhase::Blocking;
                    ConnectAction::SetBlocking
                },
                _ => {
                    let mut what = "Failed to connect to ".to_owned();
                    what.append(self.address.as_str());
                    what.append(": ");
                    self.refuse(ErrorKind::Connection, what.as_str(), event)
                },
            },
            ConnectPhase::Blocking => match event {
                ConnectEvent::Done => {
                    self.phase = ConnectPhase::Session;
                    ConnectAction::CreateSession
                },
                _ => self.refuse(ErrorKind::Connection, "Failed to set blocking mode: ", event),
            },
            ConnectPhase::Session => match event {
                ConnectEvent::Done => {
                    self.phase = ConnectPhase::Handshake;
                    ConnectAction::Handshake
                },
                _ => self.refuse(ErrorKind::Session, "Failed to create session: ", event),
            },
            ConnectPhase::Handshake => match event {
                ConnectEvent::Done => match &self.auth {
                    AuthMethod::Password(password) => {
                        let action = ConnectAction::AuthPassword {
                            username: self.username.clone(),
                            password: password.clone(),
                        };
                        self.phase = ConnectPhase::Password;
                        action
                    },
                    AuthMethod::PrivateKey { key, passphrase } => {
                        let action = ConnectAction::ProbeKeyPath { path: key.clone() };
                        self.phase = ConnectPhase::Probe;
                        action
                    },
                    AuthMethod::Agent => {
                        self.phase = ConnectPhase::AgentOpen;
                        ConnectAction::AgentOpen
                    },
                },
                _ => self.refuse(ErrorKind::Connection, "SSH handshake failed: ", event),
            },
            ConnectPhase::Password => match event {
                ConnectEvent::Done => self.check(),
                _ => self.refuse(ErrorKind::Authentication, "Password auth failed: ", event),
            },
            ConnectPhase::Probe => match event {
                ConnectEvent::PathProbed(true) => {
                    let action = ConnectAction::AuthKeyFile {
                        username: self.username.clone(),
                        path: self.key(),
                        passphrase: self.passphrase(),
                    };
                    self.phase = ConnectPhase::KeyFile;
                    action
                },
                _ => {
                    let action = ConnectAction::WriteTempKey {
                        file_name: self.temp_name.clone(),
                        contents: self.key(),
                    };
                    self.phase = ConnectPhase::TempWrite;
                    action
                },
            },
            ConnectPhase::KeyFile => match event {
                ConnectEvent::Done => self.check(),
                _ => self.refuse(ErrorKind::Authentication, "Key auth failed: ", event),
            },
            ConnectPhase::TempWrite => match event {
                ConnectEvent::Done => {
                    let action = ConnectAction::AuthTempKey {
                        username: self.username.clone(),
                        file_name: self.temp_name.clone(),
                        passphrase: self.passphrase(),
                    };
                    self.phase = ConnectPhase::TempAuth;
                    action
                },
                _ => self.refuse(ErrorKind::Authentication, "Failed to write temp key: ", event),
            },
            ConnectPhase::TempAuth => match event {
                ConnectEvent::Done => self.scrub(false, String::new()),
                ConnectEvent::Failed(m) => self.scrub(true, m),
                _ => self.scrub(true, "unexpected outcome".to_owned()),
            },
            ConnectPhase::TempScrub { refused } => {
                if refused {
                    self.phase = ConnectPhase::Over;
                    fail_with(ErrorKind::Authentication, "Key auth failed: ", self.refusal.as_str())
                } else {
                    self.check()
                }
            },
            ConnectPhase::AgentOpen => match event {
                ConnectEvent::Done => {
                    self.phase = ConnectPhase::AgentConnect;
                    ConnectAction::AgentConnect
                },
                _ => self.refuse(ErrorKind::Authentication, "Failed to get SSH agent: ", event),
            },
            ConnectPhase::AgentConnect => match event {
                ConnectEvent::Done => {
                    self.phase = ConnectPhase::AgentList;
                    ConnectAction::AgentList
                },
                _ => self.refuse(ErrorKind::Authentication, "Failed to connect to agent: ", event),
            },
            ConnectPhase::AgentList => match event {
                ConnectEvent::Identities(count) => {
                    if count == 0 {
                        self.no_identity()
                    } else {
                        self.phase = ConnectPhase::AgentTry { index: 0, count };
                        ConnectAction::AgentTry { username: self.username.clone(), index: 0 }
                    }
                },
                _ => self.refuse(ErrorKind::Authentication, "Failed to list identities: ", event),
            },
            ConnectPhase::AgentTry { index, count } => match event {
                ConnectEvent::Done => self.check(),
                _ => {
                    if count > 0 && index < count - 1 {
                        self.phase = ConnectPhase::AgentTry { index: index + 1, count };
                        ConnectAction::AgentTry {
                            username: self.username.clone(),
                            index: index + 1,
                        }
                    } else {
                        self.no_identity()
                    }
                },
            },
            ConnectPhase::Check => match event {
                ConnectEvent::Authenticated(true) => {
                    self.phase = ConnectPhase::Over;
                    ConnectAction::Succeed
                },
                _ => {
                    self.phase = ConnectPhase::Over;
                    fail_with(ErrorKind::Authentication, "Authentication failed", "")
                },
            },
            ConnectPhase::Over => fail_with(
                ErrorKind::Session,
                "The connection attempt is over",
                "",
            ),
        }
    }
}

} // verus!
