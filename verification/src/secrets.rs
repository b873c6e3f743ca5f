//! The credential vault: passphrase-based authenticated encryption of secret
//! payloads under the master key, done by the `age` crate.

use crate::error::Error;
use crate::text::{decimal, decimal_string, string_from_utf8, utf8_error_text};
use vstd::prelude::*;
use vstd::string::*;
use vstd::utf8::{decode_utf8, encode_utf8, valid_utf8};

verus! {

/// `age::DecryptError`, the error of a decryption. Nothing of what it holds is
/// visible here.
#[verifier::external_type_specification]
#[verifier::external_body]
pub struct ExDecryptError(age::DecryptError);

/// `age::EncryptError`, the error of an encryption. Nothing of what it holds
/// is visible here.
#[verifier::external_type_specification]
#[verifier::external_body]
pub struct ExEncryptError(age::EncryptError);

/// The plaintext that `ciphertext` holds as an age file encrypted with
/// `passphrase`: what `age` hands out when it decrypts the one with the
/// other. `None` where the bytes are no such file.
pub uninterp spec fn age_plaintext(passphrase: Seq<char>, ciphertext: Seq<u8>) -> Option<Seq<u8>>;

/// The step of an encryption at which `age` failed.
#[derive(Debug, Clone, Copy, PartialEq, Eq, Structural)]
pub enum SealStage {
    /// Writing the header.
    Header,
    /// Encrypting the payload.
    Payload,
    /// Writing the last chunk.
    Finish,
}

/// The step of a decryption at which `age` failed.
#[derive(Debug, Clone, Copy, PartialEq, Eq, Structural)]
pub enum OpenStage {
    /// Reading the header.
    Header,
    /// Unwrapping the file key with the passphrase.
    Unwrap,
    /// Decrypting the payload.
    Payload,
}

/// Which of its errors `age` reported when a decryption failed.
#[derive(Debug, Clone, Copy, PartialEq, Eq, Structural)]
pub enum DecryptCause {
    DecryptionFailed,
    ExcessiveWork,
    InvalidHeader,
    InvalidMac,
    Io,
    KeyDecryptionFailed,
    NoMatchingKeys,
    UnknownFormat,
}

/// Why a secret could not be read, as callers tell it apart.
#[derive(Debug, Clone, Copy, PartialEq, Eq, Structural)]
pub enum SecretFault {
    /// The key is not the one the blob was encrypted under.
    BadKey,
    /// The blob is malformed, truncated or forged.
    Corrupt,
    /// An underlying read failed.
    Io,
    /// The plaintext is no UTF-8.
    Encoding,
}

/// What `age` reported when a decryption failed: which of its errors, and
/// with it the text that `age` shows for the error. For a work factor that
/// is too high it holds the two numbers of the error in place of a text.
#[derive(Debug)]
pub enum DecryptReport {
    DecryptionFailed(String),
    ExcessiveWork {
        /// The work factor that the blob asks for.
        required: u8,
        /// The work factor that takes this machine about a second.
        target: u8,
    },
    InvalidHeader(String),
    InvalidMac(String),
    Io(String),
    KeyDecryptionFailed(String),
    NoMatchingKeys(String),
    UnknownFormat(String),
}

impl DecryptReport {
    /// Which error was reported.
    pub open spec fn cause(self) -> DecryptCause {
        match self {
            DecryptReport::DecryptionFailed(_) => DecryptCause::DecryptionFailed,
            DecryptReport::ExcessiveWork { .. } => DecryptCause::ExcessiveWork,
            DecryptReport::InvalidHeader(_) => DecryptCause::InvalidHeader,
            DecryptReport::InvalidMac(_) => DecryptCause::InvalidMac,
            DecryptReport::Io(_) => DecryptCause::Io,
            DecryptReport::KeyDecryptionFailed(_) => DecryptCause::KeyDecryptionFailed,
            DecryptReport::NoMatchingKeys(_) => DecryptCause::NoMatchingKeys,
            DecryptReport::UnknownFormat(_) => DecryptCause::UnknownFormat,
        }
    }

    /// The message of the report: the text of `age`, or, for a work factor
    /// that is too high, the two numbers in decimal.
    pub open spec fn message(self) -> Seq<char> {
        match self {
            DecryptReport::DecryptionFailed(m) => m@,
            DecryptReport::ExcessiveWork { required, target } => "Excessive work factor "@
                + decimal(required as nat) + " for a target of "@ + decimal(target as nat),
            DecryptReport::InvalidHeader(m) => m@,
            DecryptReport::InvalidMac(m) => m@,
            DecryptReport::Io(m) => m@,
            DecryptReport::KeyDecryptionFailed(m) => m@,
            DecryptReport::NoMatchingKeys(m) => m@,
            DecryptReport::UnknownFormat(m) => m@,
        }
    }
}

/// A failed decryption.
#[derive(Debug)]
pub enum DecryptFailure {
    /// `age` refused the blob at `stage`.
    Refused { stage: OpenStage, cause: DecryptCause, message: String },
    /// The blob is an age file, but not one encrypted with a passphrase.
    NotPassphrase,
    /// The blob was decrypted, but what it holds is no UTF-8.
    NotUtf8 { message: String },
}

impl DecryptFailure {
    /// The kind of the failure. A refused passphrase is a bad key; a failed
    /// read while the header is taken in is an I/O failure; everything else,
    /// a payload that does not decrypt included, is a corrupt blob.
    pub open spec fn spec_fault(self) -> SecretFault {
        match self {
            DecryptFailure::NotPassphrase => SecretFault::Corrupt,
            DecryptFailure::NotUtf8 { .. } => SecretFault::Encoding,
            DecryptFailure::Refused { stage, cause, .. } => match cause {
                DecryptCause::DecryptionFailed
                | DecryptCause::KeyDecryptionFailed
                | DecryptCause::NoMatchingKeys => if stage == OpenStage::Unwrap {
                    SecretFault::BadKey
                } else {
                    SecretFault::Corrupt
                },
                DecryptCause::Io => if stage == OpenStage::Header {
                    SecretFault::Io
                } else {
                    SecretFault::Corrupt
                },
                _ => SecretFault::Corrupt,
            },
        }
    }

    /// The message of the error that the failure becomes.
    pub open spec fn spec_message(self) -> Seq<char> {
        match self {
            DecryptFailure::NotPassphrase => "Unexpected decryptor type"@,
            DecryptFailure::NotUtf8 { message } => "Invalid UTF-8 in decrypted data: "@ + message@,
            DecryptFailure::Refused { stage, message, .. } => match stage {
                OpenStage::Header => "Failed to create decryptor: "@ + message@,
                OpenStage::Unwrap => "Failed to decrypt: "@ + message@,
                OpenStage::Payload => "Failed to read decrypted data: "@ + message@,
            },
        }
    }

    /// The kind of the failure.
    pub fn fault(&self) -> (r: SecretFault)
        ensures
            r == self.spec_fault(),
    {
        match self {
            DecryptFailure::NotPassphrase => SecretFault::Corrupt,
            DecryptFailure::NotUtf8 { .. } => SecretFault::Encoding,
            DecryptFailure::Refused { stage, cause, .. } => match cause {
                DecryptCause::DecryptionFailed
                | DecryptCause::KeyDecryptionFailed
                | DecryptCause::NoMatchingKeys => match stage {
                    OpenStage::Unwrap => SecretFault::BadKey,
                    _ => SecretFault::Corrupt,
                },
                DecryptCause::Io => match stage {
                    OpenStage::Header => SecretFault::Io,
                    _ => SecretFault::Corrupt,
                },
                _ => SecretFault::Corrupt,
            },
        }
    }

    /// The error of kind `Secret` that the failure becomes.
    pub fn into_error(self) -> (e: Error)
        ensures
            e matches Error::Secret(m) && m@ == self.spec_message(),
    {
        match self {
            DecryptFailure::NotPassphrase => Error::Secret("Unexpected decryptor type".to_owned()),
            DecryptFailure::NotUtf8 { message } => {
                let mut m = "Invalid UTF-8 in decrypted data: ".to_owned();
                m.append(message.as_str());
                Error::Secret(m)
            },
            DecryptFailure::Refused { stage, cause: _, message } => {
                let mut m = match stage {
                    OpenStage::Header => "Failed to create decryptor: ".to_owned(),
                    OpenStage::Unwrap => "Failed to decrypt: ".to_owned(),
                    OpenStage::Payload => "Failed to read decrypted data: ".to_owned(),
                };
                m.append(message.as_str());
                Error::Secret(m)
            },
        }
    }
}

/// The failure that a report of `age` at a step of the decryption becomes.
pub fn refusal(stage: OpenStage, report: DecryptReport) -> (f: DecryptFailure)
    ensures
        f matches DecryptFailure::Refused { stage: at, cause, message } && at == stage && cause
            == report.cause() && message@ == report.message(),
{
    let (cause, message) = match report {
        DecryptReport::DecryptionFailed(m) => (DecryptCause::DecryptionFailed, m),
        DecryptReport::ExcessiveWork { required, target } => {
            let mut m = "Excessive work factor ".to_owned();
            let wanted = decimal_string(required as u32);
            m.append(wanted.as_str());
            m.append(" for a target of ");
            let aimed = decimal_string(target as u32);
            m.append(aimed.as_str());
            (DecryptCause::ExcessiveWork, m)
        },
        DecryptReport::InvalidHeader(m) => (DecryptCause::InvalidHeader, m),
        DecryptReport::InvalidMac(m) => (DecryptCause::InvalidMac, m),
        DecryptReport::Io(m) => (DecryptCause::Io, m),
        DecryptReport::KeyDecryptionFailed(m) => (DecryptCause::KeyDecryptionFailed, m),
        DecryptReport::NoMatchingKeys(m) => (DecryptCause::NoMatchingKeys, m),
        DecryptReport::UnknownFormat(m) => (DecryptCause::UnknownFormat, m),
    };
    DecryptFailure::Refused { stage, cause, message }
}

/// The message of the error that a failed encryption becomes.
pub open spec fn seal_message(stage: SealStage, message: Seq<char>) -> Seq<char> {
    match stage {
        SealStage::Header => "Failed to create encryptor: "@ + message,
        SealStage::Payload => "Failed to encrypt: "@ + message,
        SealStage::Finish => "Failed to finish encryption: "@ + message,
    }
}

/// The error of kind `Secret` that a failed encryption becomes.
pub fn seal_error(stage: SealStage, message: String) -> (e: Error)
    ensures
        e matches Error::Secret(m) && m@ == seal_message(stage, message@),
{
    let mut m = match stage {
        SealStage::Header => "Failed to create encryptor: ".to_owned(),
        SealStage::Payload => "Failed to encrypt: ".to_owned(),
        SealStage::Finish => "Failed to finish encryption: ".to_owned(),
    };
    m.append(message.as_str());
    Error::Secret(m)
}

/// Encrypts with `age::Encryptor::with_user_passphrase`: the header, the
/// payload, the last chunk, all written into a vector. `age` passes on only
/// the errors of what it writes into, and a vector has none, so the call
/// succeeds. What comes out is an age file that holds `plaintext` under
/// `passphrase`: header, nonce, and the payload with a tag for each chunk, so
/// it is longer than the payload. Its bytes differ from call to call.
#[verifier::external_body]
fn age_seal(passphrase: &str, plaintext: &[u8]) -> (r: Result<
    Vec<u8>,
    (SealStage, age::EncryptError),
>)
    ensures
        r is Ok,
        r matches Ok(c) ==> age_plaintext(passphrase@, c@) == Some(plaintext@),
        r matches Ok(c) ==> c@.len() > plaintext@.len(),
{
    let key = age::secrecy::Secret::new(passphrase.to_owned());
    let mut writer = age::Encryptor::with_user_passphrase(key).wrap_output(Vec::new()).map_err(
        |e| (SealStage::Header, e),
    )?;
    std::io::Write::write_all(&mut writer, plaintext).map_err(
        |e| (SealStage::Payload, age::EncryptError::Io(e)),
    )?;
    writer.finish().map_err(|e| (SealStage::Finish, age::EncryptError::Io(e)))
}

/// Decrypts with `age::Decryptor::new` and the passphrase decryptor's
/// `decrypt`, with the work factor that `age` accepts by default, then reads
/// the payload to its end. `Ok(Some(..))` holds the plaintext of the file;
/// `Ok(None)` says that the file is not one encrypted with a passphrase. A
/// failure comes back with the step at which it happened. Whether a file is
/// refused for its work factor depends on the machine, so nothing is claimed
/// of when the call succeeds.
#[verifier::external_body]
fn age_open(passphrase: &str, ciphertext: &[u8]) -> (r: Result<
    Option<Vec<u8>>,
    (OpenStage, age::DecryptError),
>)
    ensures
        r matches Ok(Some(p)) ==> age_plaintext(passphrase@, ciphertext@) == Some(p@),
{
    let decryptor = match age::Decryptor::new(ciphertext).map_err(|e| (OpenStage::Header, e))? {
        age::Decryptor::Passphrase(d) => d,
        _ => return Ok(None),
    };
    let key = age::secrecy::Secret::new(passphrase.to_owned());
    let mut reader = decryptor.decrypt(&key, None).map_err(|e| (OpenStage::Unwrap, e))?;
    let mut decrypted = Vec::new();
    std::io::Read::read_to_end(&mut reader, &mut decrypted).map_err(
        |e| (OpenStage::Payload, age::DecryptError::Io(e)),
    )?;
    Ok(Some(decrypted))
}

/// The text of an encryption error of `age`, for the error of a write; none
/// for the error that stands for a failed decryption of identities, which is
/// not displayed here.
#[verifier::external_body]
fn encrypt_error_text(e: &age::EncryptError) -> (r: Option<String>) {
    match e {
        age::EncryptError::EncryptedIdentities(_) => None,
        age::EncryptError::Io(e) => Some(e.to_string()),
    }
}

/// Tells the errors of `age::DecryptError` apart, and takes the text that
/// `age` displays for each but one: the error of a work factor that is too
/// high gives its two numbers, and is never displayed, since `age` computes
/// a shift from them that can overflow. The texts are written in the
/// language that the process has selected, so nothing is claimed of them.
#[verifier::external_body]
fn decrypt_error_report(e: &age::DecryptError) -> (r: DecryptReport) {
    match e {
        age::DecryptError::DecryptionFailed => DecryptReport::DecryptionFailed(e.to_string()),
        age::DecryptError::ExcessiveWork { required, target } => DecryptReport::ExcessiveWork {
            required: *required,
            target: *target,
        },
        age::DecryptError::InvalidHeader => DecryptReport::InvalidHeader(e.to_string()),
        age::DecryptError::InvalidMac => DecryptReport::InvalidMac(e.to_string()),
        age::DecryptError::Io(_) => DecryptReport::Io(e.to_string()),
        age::DecryptError::KeyDecryptionFailed => DecryptReport::KeyDecryptionFailed(e.to_string()),
        age::DecryptError::NoMatchingKeys => DecryptReport::NoMatchingKeys(e.to_string()),
        age::DecryptError::UnknownFormat => DecryptReport::UnknownFormat(e.to_string()),
    }
}

/// The text that decrypted bytes encode. Succeeds on UTF-8 and on nothing
/// else.
pub fn plaintext_to_string(bytes: Vec<u8>) -> (r: Result<String, DecryptFailure>)
    ensures
        match r {
            Ok(s) => valid_utf8(bytes@) && s@ == decode_utf8(bytes@),
            Err(f) => !valid_utf8(bytes@) && (f matches DecryptFailure::NotUtf8 { message }
                && message@ == utf8_error_text(bytes@)),
        },
{
    match string_from_utf8(bytes) {
        Ok(s) => Ok(s),
        Err(message) => Err(DecryptFailure::NotUtf8 { message }),
    }
}

/// Encrypts and decrypts secret payloads under one master key, held for the
/// life of the process.
pub struct SecretEncryption {
    passphrase: String,
}

impl SecretEncryption {
    /// The master key.
    pub closed spec fn key(&self) -> Seq<char> {
        self.passphrase@
    }

    /// Whether `ciphertext` is a blob that holds `plaintext` under the master
    /// key.
    pub open spec fn opens(&self, ciphertext: Seq<u8>, plaintext: Seq<u8>) -> bool {
        age_plaintext(self.key(), ciphertext) == Some(plaintext)
    }

    /// A vault under the master key `passphrase`.
    pub fn new(passphrase: String) -> (r: Self)
        ensures
            r.key() == passphrase@,
    {
        SecretEncryption { passphrase }
    }

    /// Encrypts `plaintext`. It always succeeds. The blob that comes back
    /// holds `plaintext` under the master key and is longer than it, so it is
    /// not the plaintext; two calls give different blobs.
    pub fn encrypt(&self, plaintext: &[u8]) -> (r: Result<Vec<u8>, Error>)
        ensures
            r matches Ok(c) && self.opens(c@, plaintext@) && c@.len() > plaintext@.len() && c@
                != plaintext@,
    {
        match age_seal(self.passphrase.as_str(), plaintext) {
            Ok(c) => Ok(c),
            Err((stage, e)) => {
                let message = match encrypt_error_text(&e) {
                    Some(m) => m,
                    None => "identities could not be decrypted".to_owned(),
                };
                Err(seal_error(stage, message))
            },
        }
    }

    /// Decrypts `ciphertext`, and says at which step and why it was refused.
    pub fn try_decrypt(&self, ciphertext: &[u8]) -> (r: Result<Vec<u8>, DecryptFailure>)
        ensures
            r matches Ok(p) ==> self.opens(ciphertext@, p@),
            r matches Err(f) ==> f is Refused || f is NotPassphrase,
    {
        match age_open(self.passphrase.as_str(), ciphertext) {
            Ok(Some(p)) => Ok(p),
            Ok(None) => Err(DecryptFailure::NotPassphrase),
            Err((stage, e)) => Err(refusal(stage, decrypt_error_report(&e))),
        }
    }

    /// Decrypts `ciphertext`. What comes back on success is the plaintext that
    /// the blob holds under the master key, and nothing else.
    pub fn decrypt(&self, ciphertext: &[u8]) -> (r: Result<Vec<u8>, Error>)
        ensures
            match r {
                Ok(p) => self.opens(ciphertext@, p@),
                Err(e) => e is Secret,
            },
    {
        match self.try_decrypt(ciphertext) {
            Ok(p) => Ok(p),
            Err(f) => Err(f.into_error()),
        }
    }

    /// Encrypts the UTF-8 bytes of `plaintext`. It always succeeds.
    pub fn encrypt_string(&self, plaintext: &str) -> (r: Result<Vec<u8>, Error>)
        ensures
            r matches Ok(c) && self.opens(c@, encode_utf8(plaintext@)) && c@.len() > encode_utf8(
                plaintext@,
            ).len(),
    {
        self.encrypt(plaintext.as_bytes())
    }

    /// Decrypts `ciphertext` and reads the plaintext as UTF-8, and says at
    /// which step and why either was refused.
    pub fn try_decrypt_string(&self, ciphertext: &[u8]) -> (r: Result<String, DecryptFailure>)
        ensures
            match r {
                Ok(s) => exists|p: Seq<u8>|
                    #![auto]
                    self.opens(ciphertext@, p) && valid_utf8(p) && s@ == decode_utf8(p),
                Err(f) => f is NotUtf8 ==> exists|p: Seq<u8>|
                    #![auto]
                    self.opens(ciphertext@, p) && !valid_utf8(p),
            },
    {
        let p = self.try_decrypt(ciphertext)?;
        let r = plaintext_to_string(p);
        proof {
            if r is Ok {
                assert(self.opens(ciphertext@, p@) && valid_utf8(p@) && r->Ok_0@ == decode_utf8(
                    p@,
                ));
            } else {
                assert(self.opens(ciphertext@, p@) && !valid_utf8(p@));
            }
        }
        r
    }

    /// Decrypts `ciphertext` and reads the plaintext as UTF-8.
    pub fn decrypt_string(&self, ciphertext: &[u8]) -> (r: Result<String, Error>)
        ensures
            match r {
                Ok(s) => exists|p: Seq<u8>|
                    #![auto]
                    self.opens(ciphertext@, p) && valid_utf8(p) && s@ == decode_utf8(p),
                Err(e) => e is Secret,
            },
    {
        match self.try_decrypt_string(ciphertext) {
            Ok(s) => Ok(s),
            Err(f) => Err(f.into_error()),
        }
    }

    /// A blob holds one plaintext under a key: what decrypts from an
    /// encryption of `v` under the same key is `v`.
    pub proof fn lemma_decrypt_inverts_encrypt(&self, c: Seq<u8>, v: Seq<u8>, d: Seq<u8>)
        requires
            self.opens(c, v),
            self.opens(c, d),
        ensures
            d == v,
    {
    }

    /// The text that decrypts from an encryption of the text `t` under the
    /// same key is `t`.
    pub proof fn lemma_decrypt_string_inverts_encrypt_string(
        &self,
        c: Seq<u8>,
        t: Seq<char>,
        p: Seq<u8>,
    )
        requires
            self.opens(c, encode_utf8(t)),
            self.opens(c, p),
        ensures
            valid_utf8(p),
            decode_utf8(p) == t,
    {
        vstd::utf8::encode_utf8_valid_utf8(t);
        vstd::utf8::encode_utf8_decode_utf8(t);
    }
}

} // verus!
