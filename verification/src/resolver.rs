//! The resolver: from a server and what the caller supplied to the way to
//! authenticate. What the caller supplies wins; else the linked secret of the
//! lowest priority decides; else the SSH agent is asked.

use crate::commands::{failure, CommandError, CommandErrorView};
use crate::models::{clone_opt_string, opt_text, Secret, SecretKind, SecretView};
use crate::secrets::SecretEncryption;
use crate::storage::secret_views;
use crate::text::{string_from_utf8, utf8_error_text};
use crate::traits::{AuthMethod, AuthView};
use vstd::prelude::*;
use vstd::string::*;
use vstd::utf8::{decode_utf8, valid_utf8};

verus! {

/// The credentials that the caller of a connect request may supply.
#[derive(Debug)]
pub struct ConnectRequest {
    pub server_id: String,
    /// A password to use in place of the stored secrets.
    pub password: Option<String>,
    /// A private key, or the path of one, to use in place of the stored
    /// secrets.
    pub private_key: Option<String>,
    /// The passphrase of that private key.
    pub passphrase: Option<String>,
}

/// The outcome of a resolution, as a mathematical value.
pub open spec fn resolved(r: Result<AuthMethod, CommandError>) -> Result<AuthView, CommandErrorView> {
    match r {
        Ok(a) => Ok(a@),
        Err(e) => Err(e@),
    }
}

/// What the caller's credentials alone decide: a password before a private
/// key, and nothing where neither is given.
pub open spec fn auth_of_overrides(
    password: Option<Seq<char>>,
    private_key: Option<Seq<char>>,
    passphrase: Option<Seq<char>>,
) -> Option<AuthView> {
    match password {
        Some(p) => Some(AuthView::Password(p)),
        None => match private_key {
            Some(key) => Some(AuthView::PrivateKey { key, passphrase }),
            None => None,
        },
    }
}

/// Whether a secret of this kind can be used to log in: a password or a
/// private key.
pub open spec fn is_supported(kind: SecretKind) -> bool {
    kind is Password || kind is PrivateKey
}

/// The answer for a secret of a kind that cannot be used to log in.
pub open spec fn unsupported() -> CommandErrorView {
    failure("Unsupported secret type for SSH"@, "UNSUPPORTED_SECRET"@)
}

/// What the plaintext of a stored secret decides. The kind comes first: a
/// secret that is neither a password nor a private key is refused whatever
/// it holds. The plaintext of the two other kinds has to be UTF-8.
pub open spec fn auth_of_plaintext(kind: SecretKind, plaintext: Seq<u8>) -> Result<
    AuthView,
    CommandErrorView,
> {
    if !is_supported(kind) {
        Err(unsupported())
    } else if !valid_utf8(plaintext) {
        Err(failure("Invalid secret encoding: "@ + utf8_error_text(plaintext), "DECODE_ERROR"@))
    } else if kind is Password {
        Ok(AuthView::Password(decode_utf8(plaintext)))
    } else {
        Ok(AuthView::PrivateKey { key: decode_utf8(plaintext), passphrase: None })
    }
}

/// Whether `r` is an outcome of resolving with the caller's credentials, the
/// secrets `linked` in order of priority and the vault `encryption`. What the
/// caller supplies wins; without it and without a linked secret the agent is
/// asked. Else the first linked secret decides: one of a kind that cannot be
/// used is refused without being decrypted; one that can is decrypted, and
/// either the vault refuses it or its plaintext decides.
pub open spec fn resolves(
    encryption: SecretEncryption,
    password: Option<Seq<char>>,
    private_key: Option<Seq<char>>,
    passphrase: Option<Seq<char>>,
    linked: Seq<SecretView>,
    r: Result<AuthView, CommandErrorView>,
) -> bool {
    match auth_of_overrides(password, private_key, passphrase) {
        Some(a) => r == Ok::<AuthView, CommandErrorView>(a),
        None => if linked.len() == 0 {
            r == Ok::<AuthView, CommandErrorView>(AuthView::Agent)
        } else if !is_supported(linked[0].kind) {
            r == Err::<AuthView, CommandErrorView>(unsupported())
        } else {
            ||| (r matches Err(e) && e.code == Some("SECRET_ERROR"@))
            ||| exists|p: Seq<u8>|
                #![auto]
                encryption.opens(linked[0].encrypted_value, p) && r == auth_of_plaintext(
                    linked[0].kind,
                    p,
                )
        },
    }
}

fn refuse_kind() -> (e: CommandError)
    ensures
        e@ == unsupported(),
{
    CommandError {
        message: "Unsupported secret type for SSH".to_owned(),
        code: Some("UNSUPPORTED_SECRET".to_owned()),
    }
}

/// The credentials that the decrypted payload of a secret gives. The kind is
/// looked at before the payload.
pub fn auth_from_plaintext(kind: SecretKind, plaintext: Vec<u8>) -> (r: Result<
    AuthMethod,
    CommandError,
>)
    ensures
        resolved(r) == auth_of_plaintext(kind, plaintext@),
{
    match kind {
        SecretKind::Password | SecretKind::PrivateKey => {},
        _ => {
            return Err(refuse_kind());
        },
    }
    let value = match string_from_utf8(plaintext) {
        Ok(v) => v,
        Err(reason) => {
            let mut message = "Invalid secret encoding: ".to_owned();
            message.append(reason.as_str());
            return Err(
                CommandError { message, code: Some("DECODE_ERROR".to_owned()) },
            );
        },
    };
    match kind {
        SecretKind::Password => Ok(AuthMethod::Password(value)),
        _ => Ok(AuthMethod::PrivateKey { key: value, passphrase: None }),
    }
}

/// Resolves how to authenticate. `linked` holds the secrets of the server in
/// order of priority; only the first is used.
pub fn resolve_auth(
    request: &ConnectRequest,
    linked: &Vec<Secret>,
    encryption: &SecretEncryption,
) -> (r: Result<AuthMethod, CommandError>)
    ensures
        resolves(
            *encryption,
            opt_text(request.password),
            opt_text(request.private_key),
            opt_text(request.passphrase),
            secret_views(linked@),
            resolved(r),
        ),
{
    match &request.password {
        Some(p) => {
            return Ok(AuthMethod::Password(p.clone()));
        },
        None => {},
    }
    match &request.private_key {
        Some(k) => {
            return Ok(
                AuthMethod::PrivateKey {
                    key: k.clone(),
                    passphrase: clone_opt_string(&request.passphrase),
                },
            );
        },
        None => {},
    }
    if linked.len() == 0 {
        return Ok(AuthMethod::Agent);
    }
    let secret = &linked[0];
    match secret.kind {
        SecretKind::Password | SecretKind::PrivateKey => {},
        _ => {
            return Err(refuse_kind());
        },
    }
    let plaintext = match encryption.decrypt(secret.encrypted_value.as_slice()) {
        Ok(p) => p,
        Err(e) => {
            return Err(CommandError::from(e));
        },
    };
    let r = auth_from_plaintext(secret.kind, plaintext);
    proof {
        assert(encryption.opens(secret_views(linked@)[0].encrypted_value, plaintext@) && resolved(r)
            == auth_of_plaintext(secret_views(linked@)[0].kind, plaintext@));
    }
    r
}

} // verus!
