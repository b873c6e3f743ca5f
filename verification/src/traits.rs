//! Values that pass between the components: how to authenticate, and what a
//! directory listing holds.

use crate::clock::Timestamp;
use crate::models::opt_text;
use vstd::prelude::*;
use vstd::string::*;

verus! {

/// The credentials for one connection. Never stored.
#[derive(Debug)]
pub enum AuthMethod {
    /// A password.
    Password(String),
    /// A private key, as the path of a key file or as the key itself, with
    /// the passphrase that opens it.
    PrivateKey { key: String, passphrase: Option<String> },
    /// Whatever the SSH agent offers.
    Agent,
}

/// The mathematical value of an `AuthMethod`.
pub enum AuthView {
    Password(Seq<char>),
    PrivateKey { key: Seq<char>, passphrase: Option<Seq<char>> },
    Agent,
}

impl View for AuthMethod {
    type V = AuthView;

    open spec fn view(&self) -> AuthView {
        match self {
            AuthMethod::Password(p) => AuthView::Password(p@),
            AuthMethod::PrivateKey { key, passphrase } => AuthView::PrivateKey {
                key: key@,
                passphrase: opt_text(*passphrase),
            },
            AuthMethod::Agent => AuthView::Agent,
        }
    }
}

/// An entry of a remote directory.
#[derive(Debug)]
pub struct FileEntry {
    pub name: String,
    pub path: String,
    pub is_dir: bool,
    pub size: u64,
    pub modified: Option<Timestamp>,
    pub permissions: Option<u32>,
}

/// Whether `chrono::DateTime::from_timestamp` makes a time of `secs` whole
/// seconds: whether they lie between the first second of the first date and
/// the last second of the last date that the crate can hold, of which the
/// last is December 31 of the year 262142.
pub open spec fn in_time_range(secs: i64) -> bool {
    -8_334_601_228_800 <= secs <= 8_210_266_876_799
}

/// The time `secs` seconds after 1970-01-01T00:00:00Z, as
/// `chrono::DateTime::from_timestamp` makes it; the epoch itself, which is
/// the crate's default time, where the seconds are out of its range.
#[verifier::external_body]
pub(crate) fn time_or_epoch(secs: i64) -> (r: Timestamp)
    ensures
        r == if in_time_range(secs) {
            (Timestamp { secs, nanos: 0 })
        } else {
            (Timestamp { secs: 0, nanos: 0 })
        },
{
    let t = chrono::DateTime::from_timestamp(secs, 0).unwrap_or_default();
    Timestamp { secs: t.timestamp(), nanos: t.timestamp_subsec_nanos() }
}

/// The seconds that a file server reports, read as a signed number of the
/// same 64 bits.
pub open spec fn signed_seconds(t: u64) -> i64 {
    if t <= i64::MAX as u64 {
        t as i64
    } else {
        (t - 0x1_0000_0000_0000_0000) as i64
    }
}

impl FileEntry {
    /// The entry for what a file server reports of a path: no size counts as
    /// zero, and a time of modification that is out of range as the epoch.
    pub fn from_stat(
        name: String,
        path: String,
        is_dir: bool,
        size: Option<u64>,
        mtime: Option<u64>,
        permissions: Option<u32>,
    ) -> (r: Self)
        ensures
            r.name@ == name@,
            r.path@ == path@,
            r.is_dir == is_dir,
            r.size == match size {
                Some(s) => s,
                None => 0,
            },
            r.modified == match mtime {
                Some(t) => Some(
                    if in_time_range(signed_seconds(t)) {
                        (Timestamp { secs: signed_seconds(t), nanos: 0 })
                    } else {
                        (Timestamp { secs: 0, nanos: 0 })
                    },
                ),
                None => None,
            },
            r.permissions == permissions,
    {
        let size: u64 = match size {
            Some(s) => s,
            None => 0,
        };
        let modified = match mtime {
            Some(t) => {
                let secs: i64 = if t <= 0x7fff_ffff_ffff_ffff {
                    t as i64
                } else {
                    let low: u64 = t - 0x8000_0000_0000_0000;
                    (low as i64) + i64::MIN
                };
                Some(time_or_epoch(secs))
            },
            None => None,
        };
        FileEntry { name, path, is_dir, size, modified, permissions }
    }
}

} // verus!
