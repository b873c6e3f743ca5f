//! The master key: 32 random bytes in 64 lower-case hexadecimal digits, kept
//! in the secret store of the operating system, or, where that store cannot
//! be reached, in a file that only its owner can read. The store and the
//! file are the caller's to touch; this module decides what is done next.

use crate::error::{Error, ErrorKind, ErrorView};
use crate::text::{hex_lower, is_lower_hex, lemma_hex_lower_digits, trim, trimmed};
use vstd::prelude::*;
use vstd::string::*;

verus! {

/// The service under which the master key is kept in the secret store.
pub const KEYRING_SERVICE: &'static str = "tacoshell";

/// The account under which the master key is kept in the secret store.
pub const KEYRING_USER: &'static str = "master-key";

/// The name of the file that holds the master key where the secret store
/// cannot be reached.
pub const FALLBACK_FILE: &'static str = ".master_key";

/// Whether `s` has the form of a master key: 64 lower-case hexadecimal
/// digits.
pub open spec fn is_master_key(s: Seq<char>) -> bool {
    s.len() == 64 && forall|i: int| 0 <= i < 64 ==> is_lower_hex(#[trigger] s[i])
}

/// 32 bytes from the random number generator of the operating system, by
/// `rand::rngs::OsRng`. Nothing is claimed of their values.
#[verifier::external_body]
fn random_key_bytes() -> (r: [u8; 32]) {
    let mut bytes = [0u8; 32];
    rand::RngCore::fill_bytes(&mut rand::rngs::OsRng, &mut bytes);
    bytes
}

/// Bytes in lower-case hexadecimal, by `base16ct::lower::encode_string`: two
/// digits for each byte, the high nibble first.
#[verifier::external_body]
fn hex_encode(bytes: &[u8]) -> (r: String)
    requires
        bytes@.len() <= usize::MAX / 2,
    ensures
        r@ == hex_lower(bytes@),
{
    base16ct::lower::encode_string(bytes)
}

/// Whether `c` is one of `0`..`9`, `a`..`f`.
pub fn char_is_lower_hex(c: char) -> (r: bool)
    ensures
        r == is_lower_hex(c),
{
    let n: u32 = c as u32;
    (0x30 <= n && n <= 0x39) || (0x61 <= n && n <= 0x66)
}

/// Whether `s` has the form of a master key.
pub fn has_key_form(s: &str) -> (r: bool)
    ensures
        r == is_master_key(s@),
{
    if s.unicode_len() != 64 {
        return false;
    }
    let mut i: usize = 0;
    while i < 64
        invariant
            i <= 64,
            s@.len() == 64,
            forall|j: int| 0 <= j < i ==> is_lower_hex(#[trigger] s@[j]),
        decreases 64 - i,
    {
        if !char_is_lower_hex(s.get_char(i)) {
            return false;
        }
        i = i + 1;
    }
    true
}

/// A new master key: 32 bytes of the operating system's randomness, in
/// hexadecimal.
pub fn generate_master_key() -> (r: String)
    ensures
        is_master_key(r@),
{
    let bytes = random_key_bytes();
    let r = hex_encode(bytes.as_slice());
    proof {
        lemma_hex_lower_digits(bytes@);
    }
    r
}

/// What came of the step that the caller was handed last.
#[derive(Debug)]
pub enum KeyEvent {
    /// The entry of the secret store could not be opened: the store cannot
    /// be reached.
    EntryFailed(String),
    /// The secret store holds this key.
    Found(String),
    /// The secret store holds no key.
    NoEntry,
    /// The secret store cannot be reached.
    Unavailable,
    /// Whether the secret store took the new key.
    Stored(bool),
    /// What the fallback file holds, if it can be read.
    FileRead(Option<String>),
    /// The fallback file was written, or failed to be.
    FileWritten,
}

/// The mathematical value of a `KeyEvent`.
pub enum KeyEventView {
    EntryFailed(Seq<char>),
    Found(Seq<char>),
    NoEntry,
    Unavailable,
    Stored(bool),
    FileRead(Option<Seq<char>>),
    FileWritten,
}

impl View for KeyEvent {
    type V = KeyEventView;

    open spec fn view(&self) -> KeyEventView {
        match self {
            KeyEvent::EntryFailed(m) => KeyEventView::EntryFailed(m@),
            KeyEvent::Found(k) => KeyEventView::Found(k@),
            KeyEvent::NoEntry => KeyEventView::NoEntry,
            KeyEvent::Unavailable => KeyEventView::Unavailable,
            KeyEvent::Stored(b) => KeyEventView::Stored(*b),
            KeyEvent::FileRead(c) => KeyEventView::FileRead(
                match c {
                    Some(s) => Some(s@),
                    None => None,
                },
            ),
            KeyEvent::FileWritten => KeyEventView::FileWritten,
        }
    }
}

/// The step that the caller is to perform next.
#[derive(Debug)]
pub enum KeyAction {
    /// Open the entry of the secret store and read the key.
    Lookup,
    /// Store this key in the secret store.
    Store(String),
    /// Read the fallback file.
    ReadFile,
    /// Write this key to the fallback file, readable and writable by its
    /// owner only; a failure is ignored. Warn that the fallback is in effect.
    WriteFile(String),
    /// Use this key. `fallback` says that it comes from the fallback file;
    /// warn of it.
    Use { key: String, fallback: bool },
    /// Give up, with this error.
    Fail(Error),
}

/// The mathematical value of a `KeyAction`.
pub enum KeyActionView {
    Lookup,
    Store(Seq<char>),
    ReadFile,
    WriteFile(Seq<char>),
    Use { key: Seq<char>, fallback: bool },
    Fail(ErrorView),
}

impl View for KeyAction {
    type V = KeyActionView;

    open spec fn view(&self) -> KeyActionView {
        match self {
            KeyAction::Lookup => KeyActionView::Lookup,
            KeyAction::Store(k) => KeyActionView::Store(k@),
            KeyAction::ReadFile => KeyActionView::ReadFile,
            KeyAction::WriteFile(k) => KeyActionView::WriteFile(k@),
            KeyAction::Use { key, fallback } => KeyActionView::Use { key: key@, fallback: *fallback },
            KeyAction::Fail(e) => KeyActionView::Fail(e@),
        }
    }
}

/// Where the provider stands.
#[derive(Debug, Clone, Copy, PartialEq, Eq, Structural)]
pub enum KeyPhase {
    /// Waiting for the secret store to answer.
    Lookup,
    /// Waiting for the secret store to take the new key.
    Storing,
    /// Waiting for the fallback file to be read.
    Reading,
    /// Waiting for the fallback file to be written.
    Writing,
    /// Over.
    Done,
}

/// The mathematical value of a `KeyProvider`.
pub struct KeyProviderModel {
    pub phase: KeyPhase,
    /// The key that was generated last.
    pub fresh: Seq<char>,
}

impl KeyProviderModel {
    pub open spec fn start() -> (KeyProviderModel, KeyActionView) {
        (KeyProviderModel { phase: KeyPhase::Lookup, fresh: Seq::empty() }, KeyActionView::Lookup)
    }

    pub open spec fn done(self, action: KeyActionView) -> (KeyProviderModel, KeyActionView) {
        (KeyProviderModel { phase: KeyPhase::Done, ..self }, action)
    }

    pub open spec fn fall_back(self) -> (KeyProviderModel, KeyActionView) {
        (KeyProviderModel { phase: KeyPhase::Reading, ..self }, KeyActionView::ReadFile)
    }

    /// The provider after `event`, and the next step. `fresh` is the key to
    /// take where a new one is needed. A store that holds a key gives it; a
    /// store without an entry is given a new key; a store that cannot be
    /// reached, be it that its entry cannot be opened, that the lookup fails
    /// or that it does not take the new key, sends the provider to the
    /// fallback file.
    pub open spec fn step(self, event: KeyEventView, fresh: Seq<char>) -> (
        KeyProviderModel,
        KeyActionView,
    ) {
        match self.phase {
            KeyPhase::Lookup => match event {
                KeyEventView::Found(key) => self.done(KeyActionView::Use { key, fallback: false }),
                KeyEventView::NoEntry => (
                    KeyProviderModel { phase: KeyPhase::Storing, fresh },
                    KeyActionView::Store(fresh),
                ),
                _ => self.fall_back(),
            },
            KeyPhase::Storing => match event {
                KeyEventView::Stored(true) => self.done(
                    KeyActionView::Use { key: self.fresh, fallback: false },
                ),
                _ => self.fall_back(),
            },
            KeyPhase::Reading => match event {
                KeyEventView::FileRead(Some(content)) => if is_master_key(trimmed(content)) {
                    self.done(KeyActionView::Use { key: trimmed(content), fallback: true })
                } else {
                    (
                        KeyProviderModel { phase: KeyPhase::Writing, fresh },
                        KeyActionView::WriteFile(fresh),
                    )
                },
                _ => (
                    KeyProviderModel { phase: KeyPhase::Writing, fresh },
                    KeyActionView::WriteFile(fresh),
                ),
            },
            KeyPhase::Writing => self.done(KeyActionView::Use { key: self.fresh, fallback: true }),
            KeyPhase::Done => self.done(
                KeyActionView::Fail(
                    ErrorView { kind: ErrorKind::Config, detail: "The master key is settled"@ },
                ),
            ),
        }
    }

    /// Every key that the provider generates, stores or takes from the
    /// fallback file has the form of a master key, and the key that it uses
    /// after storing or writing one is the key that it stored or wrote.
    pub proof fn lemma_keys_have_form(self, event: KeyEventView, fresh: Seq<char>)
        requires
            is_master_key(fresh),
            self.phase is Storing || self.phase is Writing ==> is_master_key(self.fresh),
        ensures
            self.step(event, fresh).1 matches KeyActionView::Store(k) ==> is_master_key(k)
                && self.step(event, fresh).0.fresh == k,
            self.step(event, fresh).1 matches KeyActionView::WriteFile(k) ==> is_master_key(k)
                && self.step(event, fresh).0.fresh == k,
            self.step(event, fresh).1 matches KeyActionView::Use { key, fallback } ==> (fallback
                || self.phase is Storing ==> is_master_key(key)) && (self.phase is Storing
                || self.phase is Writing ==> key == self.fresh),
            self.step(event, fresh).0.phase is Storing || self.step(event, fresh).0.phase is Writing
                ==> is_master_key(self.step(event, fresh).0.fresh),
    {
    }
}

/// The provider of the master key.
#[derive(Debug)]
pub struct KeyProvider {
    phase: KeyPhase,
    fresh: String,
}

impl View for KeyProvider {
    type V = KeyProviderModel;

    closed spec fn view(&self) -> KeyProviderModel {
        KeyProviderModel { phase: self.phase, fresh: self.fresh@ }
    }
}

impl KeyProvider {
    /// A provider, and its first step.
    pub fn start() -> (r: (KeyProvider, KeyAction))
        ensures
            (r.0@, r.1@) == KeyProviderModel::start(),
    {
        (KeyProvider { phase: KeyPhase::Lookup, fresh: String::new() }, KeyAction::Lookup)
    }

    /// Whether the key is settled.
    pub fn is_done(&self) -> (r: bool)
        ensures
            r == (self@.phase is Done),
    {
        match self.phase {
            KeyPhase::Done => true,
            _ => false,
        }
    }

    fn fall_back(&mut self) -> (r: KeyAction)
        ensures
            (final(self)@, r@) == old(self)@.fall_back(),
    {
        self.phase = KeyPhase::Reading;
        KeyAction::ReadFile
    }

    fn write_fresh(&mut self, fresh: String) -> (r: KeyAction)
        ensures
            final(self)@ == (KeyProviderModel { phase: KeyPhase::Writing, fresh: fresh@ }),
            r@ == KeyActionView::WriteFile(fresh@),
    {
        self.phase = KeyPhase::Writing;
        self.fresh = fresh.clone();
        KeyAction::WriteFile(fresh)
    }

    /// Takes in what came of the last step and hands out the next one, with
    /// `fresh` as the key to take where a new one is needed.
    pub fn step_with(&mut self, event: KeyEvent, fresh: String) -> (r: KeyAction)
        ensures
            (final(self)@, r@) == old(self)@.step(event@, fresh@),
    {
        match self.phase {
            KeyPhase::Lookup => match event {
                KeyEvent::Found(key) => {
                    self.phase = KeyPhase::Done;
                    KeyAction::Use { key, fallback: false }
                },
                KeyEvent::NoEntry => {
                    self.phase = KeyPhase::Storing;
                    self.fresh = fresh.clone();
                    KeyAction::Store(fresh)
                },
                _ => self.fall_back(),
            },
            KeyPhase::Storing => match event {
                KeyEvent::Stored(true) => {
                    self.phase = KeyPhase::Done;
                    KeyAction::Use { key: self.fresh.clone(), fallback: false }
                },
                _ => self.fall_back(),
            },
            KeyPhase::Reading => match event {
                KeyEvent::FileRead(Some(content)) => {
                    let key = trim(content.as_str());
                    if has_key_form(key.as_str()) {
                        self.phase = KeyPhase::Done;
                        KeyAction::Use { key, fallback: true }
                    } else {
                        self.write_fresh(fresh)
                    }
                },
                _ => self.write_fresh(fresh),
            },
            KeyPhase::Writing => {
                self.phase = KeyPhase::Done;
                KeyAction::Use { key: self.fresh.clone(), fallback: true }
            },
            KeyPhase::Done => KeyAction::Fail(
                Error::Config("The master key is settled".to_owned()),
            ),
        }
    }

    /// Whether the step after `event` takes a new key.
    pub open spec fn needs_fresh(model: KeyProviderModel, event: KeyEventView) -> bool {
        match model.phase {
            KeyPhase::Lookup => event is NoEntry,
            KeyPhase::Reading => match event {
                KeyEventView::FileRead(Some(content)) => !is_master_key(trimmed(content)),
                _ => true,
            },
            _ => false,
        }
    }

    fn takes_fresh(&self, event: &KeyEvent) -> (r: bool)
        ensures
            r == KeyProvider::needs_fresh(self@, event@),
    {
        match self.phase {
            KeyPhase::Lookup => match event {
                KeyEvent::NoEntry => true,
                _ => false,
            },
            KeyPhase::Reading => match event {
                KeyEvent::FileRead(Some(content)) => {
                    let key = trim(content.as_str());
                    !has_key_form(key.as_str())
                },
                _ => true,
            },
            _ => false,
        }
    }

    /// Takes in what came of the last step and hands out the next one. Where
    /// a new key is needed it is generated.
    pub fn step(&mut self, event: KeyEvent) -> (r: KeyAction)
        ensures
            exists|fresh: Seq<char>|
                is_master_key(fresh) && (final(self)@, r@) == #[trigger] old(self)@.step(
                    event@,
                    fresh,
                ),
    {
        if self.takes_fresh(&event) {
            let fresh = generate_master_key();
            self.step_with(event, fresh)
        } else {
            let ghost any = Seq::new(64, |i: int| '0');
            assert(is_master_key(any));
            let r = self.step_with(event, String::new());
            assert((final(self)@, r@) == old(self)@.step(event@, any));
            r
        }
    }
}

} // verus!
