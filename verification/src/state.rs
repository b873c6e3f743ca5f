//! The state that every command works on, and in it the registry of live
//! sessions: for each session the endpoint of its command queue and its stop
//! flag.

use crate::error::Error;
use crate::secrets::SecretEncryption;
use crate::storage::Storage;
use std::collections::HashMap;
use std::sync::atomic::AtomicBool;
use std::sync::Arc;
use tokio::sync::mpsc::UnboundedSender;
use vstd::prelude::*;
use vstd::string::*;

verus! {

broadcast use vstd::std_specs::hash::group_hash_axioms;

/// `tokio::sync::mpsc::UnboundedSender`, the sending end of a queue without
/// bound. Nothing of what the queue holds is visible here.
#[verifier::external_type_specification]
#[verifier::external_body]
#[verifier::reject_recursive_types(T)]
pub struct ExUnboundedSender<T>(UnboundedSender<T>);

/// A message to the worker of a session.
#[derive(Debug)]
pub enum SshInput {
    /// Keystrokes for the remote shell.
    Data(String),
    /// A new size of the terminal.
    Resize { cols: u32, rows: u32 },
    /// The request to end the session.
    Disconnect,
}

/// The mathematical value of an `SshInput`.
pub enum InputView {
    Data(Seq<char>),
    Resize { cols: u32, rows: u32 },
    Disconnect,
}

impl View for SshInput {
    type V = InputView;

    open spec fn view(&self) -> InputView {
        match self {
            SshInput::Data(d) => InputView::Data(d@),
            SshInput::Resize { cols, rows } => InputView::Resize { cols: *cols, rows: *rows },
            SshInput::Disconnect => InputView::Disconnect,
        }
    }
}

/// What the registry holds of a live session: the sending end of its command
/// queue and its stop flag.
pub struct ActiveSession {
    pub input_tx: UnboundedSender<SshInput>,
    pub stop_flag: Arc<AtomicBool>,
}

/// Puts a message into a session's queue with
/// `tokio::sync::mpsc::UnboundedSender::send`. The answer is whether the
/// queue took it; it does not once the receiving end is gone.
#[verifier::external_body]
pub(crate) fn send_input(tx: &UnboundedSender<SshInput>, input: SshInput) -> (sent: bool) {
    tx.send(input).is_ok()
}

/// The live sessions by identifier.
pub struct SessionRegistry {
    sessions: HashMap<u128, ActiveSession>,
}

impl View for SessionRegistry {
    type V = Map<u128, ActiveSession>;

    closed spec fn view(&self) -> Map<u128, ActiveSession> {
        self.sessions@
    }
}

impl SessionRegistry {
    /// A registry without sessions.
    pub fn new() -> (r: Self)
        ensures
            r@ == Map::<u128, ActiveSession>::empty(),
    {
        SessionRegistry { sessions: HashMap::new() }
    }

    /// Whether a session is registered under `id`.
    pub fn contains(&self, id: u128) -> (r: bool)
        ensures
            r == self@.contains_key(id),
    {
        self.sessions.contains_key(&id)
    }

    /// Registers a session. An identifier that is taken is refused, and the
    /// registry stays as it is.
    pub fn add(&mut self, id: u128, entry: ActiveSession) -> (r: Result<(), Error>)
        ensures
            match r {
                Ok(_) => !old(self)@.contains_key(id) && final(self)@ == old(self)@.insert(
                    id,
                    entry,
                ),
                Err(e) => old(self)@.contains_key(id) && final(self)@ == old(self)@ && (
                e matches Error::Session(m) && m@ == "Session already registered"@),
            },
    {
        if self.sessions.contains_key(&id) {
            Err(Error::Session("Session already registered".to_owned()))
        } else {
            self.sessions.insert(id, entry);
            Ok(())
        }
    }

    /// Takes a session out, and hands back what was registered under `id`.
    pub fn remove(&mut self, id: u128) -> (r: Option<ActiveSession>)
        ensures
            final(self)@ == old(self)@.remove(id),
            match r {
                Some(e) => old(self)@.contains_key(id) && e == old(self)@[id],
                None => !old(self)@.contains_key(id),
            },
    {
        self.sessions.remove(&id)
    }

    /// Calls `f` on the session registered under `id`, if there is one.
    pub fn with_session<F: FnOnce(&ActiveSession) -> R, R>(&self, id: u128, f: F) -> (r: Option<R>)
        requires
            self@.contains_key(id) ==> f.requires((&self@[id],)),
        ensures
            match r {
                Some(v) => self@.contains_key(id) && f.ensures((&self@[id],), v),
                None => !self@.contains_key(id),
            },
    {
        match self.sessions.get(&id) {
            Some(entry) => Some(f(entry)),
            None => None,
        }
    }
}

/// The state shared by all commands.
pub struct AppState {
    /// The repository.
    pub storage: Storage,
    /// The vault.
    pub encryption: SecretEncryption,
    /// The live sessions.
    pub sessions: SessionRegistry,
}

impl AppState {
    /// The state over a repository, with a vault under `master_key` and no
    /// session.
    pub fn new(storage: Storage, master_key: String) -> (r: Self)
        ensures
            r.storage@ == storage@,
            r.encryption.key() == master_key@,
            r.sessions@ == Map::<u128, ActiveSession>::empty(),
    {
        AppState {
            storage,
            encryption: SecretEncryption::new(master_key),
            sessions: SessionRegistry::new(),
        }
    }

    /// Registers a session.
    pub fn add_session(&mut self, id: u128, session: ActiveSession) -> (r: Result<(), Error>)
        ensures
            final(self).storage == old(self).storage,
            final(self).encryption == old(self).encryption,
            match r {
                Ok(_) => !old(self).sessions@.contains_key(id) && final(self).sessions@
                    == old(self).sessions@.insert(id, session),
                Err(e) => old(self).sessions@.contains_key(id) && final(self).sessions@
                    == old(self).sessions@ && (e matches Error::Session(m) && m@
                    == "Session already registered"@),
            },
    {
        self.sessions.add(id, session)
    }

    /// Takes a session out of the registry.
    pub fn remove_session(&mut self, id: u128) -> (r: Option<ActiveSession>)
        ensures
            final(self).storage == old(self).storage,
            final(self).encryption == old(self).encryption,
            final(self).sessions@ == old(self).sessions@.remove(id),
            match r {
                Some(e) => old(self).sessions@.contains_key(id) && e == old(self).sessions@[id],
                None => !old(self).sessions@.contains_key(id),
            },
    {
        self.sessions.remove(id)
    }

    /// Calls `f` on the session registered under `id`, if there is one.
    pub fn with_session<F: FnOnce(&ActiveSession) -> R, R>(&self, id: u128, f: F) -> (r: Option<R>)
        requires
            self.sessions@.contains_key(id) ==> f.requires((&self.sessions@[id],)),
        ensures
            match r {
                Some(v) => self.sessions@.contains_key(id) && f.ensures(
                    (&self.sessions@[id],),
                    v,
                ),
                None => !self.sessions@.contains_key(id),
            },
    {
        self.sessions.with_session(id, f)
    }
}

} // verus!
