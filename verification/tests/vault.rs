use tacoshell::error::Error;
use tacoshell::secrets::{
    plaintext_to_string, refusal, seal_error, DecryptCause, DecryptFailure, DecryptReport,
    OpenStage, SealStage, SecretEncryption, SecretFault,
};

#[test]
fn test_encrypt_decrypt() {
    let encryption = SecretEncryption::new("test-passphrase".to_string());
    let plaintext = b"my secret password";

    let encrypted = encryption.encrypt(plaintext).unwrap();
    assert_ne!(encrypted, plaintext);

    let decrypted = encryption.decrypt(&encrypted).unwrap();
    assert_eq!(decrypted, plaintext);
}

#[test]
fn test_encrypt_decrypt_string() {
    let encryption = SecretEncryption::new("test-passphrase".to_string());
    let plaintext = "my secret password";

    let encrypted = encryption.encrypt_string(plaintext).unwrap();
    let decrypted = encryption.decrypt_string(&encrypted).unwrap();

    assert_eq!(decrypted, plaintext);
}

#[test]
fn test_wrong_passphrase_fails() {
    let encryption = SecretEncryption::new("correct-passphrase".to_string());
    let encrypted = encryption.encrypt(b"secret").unwrap();

    let wrong_encryption = SecretEncryption::new("wrong-passphrase".to_string());
    assert!(wrong_encryption.decrypt(&encrypted).is_err());
}

#[test]
fn wrong_master_key_is_a_bad_key_and_shows_no_plaintext() {
    let right = SecretEncryption::new("K".to_string());
    let encrypted = right.encrypt_string("hello").unwrap();
    let wrong = SecretEncryption::new("K'".to_string());
    let failure = wrong.try_decrypt(&encrypted).unwrap_err();
    assert_eq!(failure.fault(), SecretFault::BadKey);
    let error = failure.into_error();
    assert!(matches!(error, Error::Secret(_)));
    let shown = error.to_string();
    assert!(shown.starts_with("Secret error: Failed to decrypt: "));
    assert!(!shown.contains("hello"));
}

#[test]
fn a_blob_is_longer_than_what_it_holds() {
    let encryption = SecretEncryption::new("k".to_string());
    for plaintext in [&b""[..], &b"x"[..], &[7u8; 70_000][..]] {
        let blob = encryption.encrypt(plaintext).unwrap();
        assert!(blob.len() > plaintext.len());
        assert_eq!(encryption.decrypt(&blob).unwrap(), plaintext);
    }
    let blob = encryption.encrypt_string("").unwrap();
    assert!(!blob.is_empty());
    assert_eq!(encryption.decrypt_string(&blob).unwrap(), "");
}

#[test]
fn a_blob_that_asks_for_too_much_work_is_refused() {
    let encryption = SecretEncryption::new("k".to_string());
    let blob = encryption.encrypt(b"payload").unwrap();
    let start = blob.windows(10).position(|w| w == b"-> scrypt ").unwrap();
    let end = start + blob[start..].iter().position(|b| *b == b'\n').unwrap();
    let factor = start + blob[start..end].iter().rposition(|b| *b == b' ').unwrap() + 1;
    for asked in ["60", "63", "99", "200", "255"] {
        let mut forged = blob[..factor].to_vec();
        forged.extend_from_slice(asked.as_bytes());
        forged.extend_from_slice(&blob[end..]);
        let failure = encryption.try_decrypt(&forged).unwrap_err();
        match &failure {
            DecryptFailure::Refused { stage, cause, message } => {
                assert_eq!(*stage, OpenStage::Unwrap);
                assert_eq!(*cause, DecryptCause::ExcessiveWork);
                assert!(message.starts_with(&format!("Excessive work factor {} for a target of ", asked)));
            }
            other => panic!("unexpected failure {:?}", other),
        }
        assert_eq!(failure.fault(), SecretFault::Corrupt);
        assert!(encryption.decrypt(&forged).is_err());
        assert!(encryption.decrypt_string(&forged).is_err());
    }
}

#[test]
fn reports_become_failures() {
    let f = refusal(OpenStage::Unwrap, DecryptReport::ExcessiveWork { required: 60, target: 18 });
    assert!(matches!(
        &f,
        DecryptFailure::Refused { stage: OpenStage::Unwrap, cause: DecryptCause::ExcessiveWork, message }
            if message == "Excessive work factor 60 for a target of 18"
    ));
    assert_eq!(
        f.into_error().to_string(),
        "Secret error: Failed to decrypt: Excessive work factor 60 for a target of 18"
    );
    let f = refusal(OpenStage::Unwrap, DecryptReport::ExcessiveWork { required: 255, target: 0 });
    assert!(matches!(
        &f,
        DecryptFailure::Refused { message, .. } if message == "Excessive work factor 255 for a target of 0"
    ));
    let told = [
        (DecryptReport::DecryptionFailed("a".to_string()), DecryptCause::DecryptionFailed),
        (DecryptReport::InvalidHeader("a".to_string()), DecryptCause::InvalidHeader),
        (DecryptReport::InvalidMac("a".to_string()), DecryptCause::InvalidMac),
        (DecryptReport::Io("a".to_string()), DecryptCause::Io),
        (DecryptReport::KeyDecryptionFailed("a".to_string()), DecryptCause::KeyDecryptionFailed),
        (DecryptReport::NoMatchingKeys("a".to_string()), DecryptCause::NoMatchingKeys),
        (DecryptReport::UnknownFormat("a".to_string()), DecryptCause::UnknownFormat),
    ];
    for (report, expected) in told {
        match refusal(OpenStage::Header, report) {
            DecryptFailure::Refused { stage, cause, message } => {
                assert_eq!((stage, cause, message.as_str()), (OpenStage::Header, expected, "a"));
            }
            other => panic!("unexpected failure {:?}", other),
        }
    }
}

#[test]
fn two_encryptions_of_one_plaintext_differ() {
    let encryption = SecretEncryption::new("k".to_string());
    let a = encryption.encrypt(b"same").unwrap();
    let b = encryption.encrypt(b"same").unwrap();
    assert_ne!(a, b);
    assert_ne!(a, b"same".to_vec());
}

#[test]
fn malformed_blob_is_refused() {
    let encryption = SecretEncryption::new("k".to_string());
    let failure = encryption.try_decrypt(b"this is no age file").unwrap_err();
    assert!(matches!(failure, DecryptFailure::Refused { stage: OpenStage::Header, .. }));
    assert_ne!(failure.fault(), SecretFault::BadKey);
    assert!(encryption.decrypt(b"").is_err());
}

#[test]
fn truncated_blob_is_refused() {
    let encryption = SecretEncryption::new("k".to_string());
    let mut encrypted = encryption.encrypt(b"a payload that is cut short").unwrap();
    encrypted.truncate(encrypted.len() - 5);
    let failure = encryption.try_decrypt(&encrypted).unwrap_err();
    assert_eq!(failure.fault(), SecretFault::Corrupt);
}

#[test]
fn forged_blob_is_refused() {
    let encryption = SecretEncryption::new("k".to_string());
    let mut encrypted = encryption.encrypt(b"a payload that is tampered with").unwrap();
    let last = encrypted.len() - 1;
    encrypted[last] ^= 0x01;
    assert!(encryption.decrypt(&encrypted).is_err());
}

#[test]
fn decrypt_string_refuses_bytes_that_are_no_utf8() {
    let encryption = SecretEncryption::new("k".to_string());
    let encrypted = encryption.encrypt(&[0xff, 0xfe, 0x41]).unwrap();
    let failure = encryption.try_decrypt_string(&encrypted).unwrap_err();
    assert_eq!(failure.fault(), SecretFault::Encoding);
    let error = encryption.decrypt_string(&encrypted).unwrap_err();
    match error {
        Error::Secret(m) => assert!(m.starts_with("Invalid UTF-8 in decrypted data: ")),
        other => panic!("unexpected error {:?}", other),
    }
}

#[test]
fn plaintext_to_string_decodes_utf8() {
    let bytes = "gr\u{fc}\u{df}e \u{1f30e}".as_bytes().to_vec();
    assert_eq!(plaintext_to_string(bytes).unwrap(), "gr\u{fc}\u{df}e \u{1f30e}");
    let failure = plaintext_to_string(vec![0xc3]).unwrap_err();
    assert_eq!(failure.fault(), SecretFault::Encoding);
    assert!(matches!(failure, DecryptFailure::NotUtf8 { ref message } if !message.is_empty()));
    assert_eq!(plaintext_to_string(Vec::new()).unwrap(), "");
}

#[test]
fn failures_are_classified() {
    let refused = |stage, cause| DecryptFailure::Refused { stage, cause, message: "m".to_string() };
    assert_eq!(
        refused(OpenStage::Unwrap, DecryptCause::DecryptionFailed).fault(),
        SecretFault::BadKey
    );
    assert_eq!(
        refused(OpenStage::Unwrap, DecryptCause::KeyDecryptionFailed).fault(),
        SecretFault::BadKey
    );
    assert_eq!(refused(OpenStage::Unwrap, DecryptCause::ExcessiveWork).fault(), SecretFault::Corrupt);
    assert_eq!(refused(OpenStage::Header, DecryptCause::InvalidHeader).fault(), SecretFault::Corrupt);
    assert_eq!(refused(OpenStage::Header, DecryptCause::InvalidMac).fault(), SecretFault::Corrupt);
    assert_eq!(refused(OpenStage::Header, DecryptCause::UnknownFormat).fault(), SecretFault::Corrupt);
    assert_eq!(refused(OpenStage::Header, DecryptCause::Io).fault(), SecretFault::Io);
    assert_eq!(refused(OpenStage::Payload, DecryptCause::Io).fault(), SecretFault::Corrupt);
    assert_eq!(
        refused(OpenStage::Payload, DecryptCause::DecryptionFailed).fault(),
        SecretFault::Corrupt
    );
    assert_eq!(DecryptFailure::NotPassphrase.fault(), SecretFault::Corrupt);
}

#[test]
fn failures_become_secret_errors() {
    let shown = |f: DecryptFailure| f.into_error().to_string();
    assert_eq!(shown(DecryptFailure::NotPassphrase), "Secret error: Unexpected decryptor type");
    assert_eq!(
        shown(DecryptFailure::NotUtf8 { message: "bad byte".to_string() }),
        "Secret error: Invalid UTF-8 in decrypted data: bad byte"
    );
    assert_eq!(
        shown(DecryptFailure::Refused {
            stage: OpenStage::Header,
            cause: DecryptCause::InvalidHeader,
            message: "bad".to_string()
        }),
        "Secret error: Failed to create decryptor: bad"
    );
    assert_eq!(
        shown(DecryptFailure::Refused {
            stage: OpenStage::Payload,
            cause: DecryptCause::Io,
            message: "eof".to_string()
        }),
        "Secret error: Failed to read decrypted data: eof"
    );
    assert_eq!(
        seal_error(SealStage::Header, "x".to_string()).to_string(),
        "Secret error: Failed to create encryptor: x"
    );
    assert_eq!(
        seal_error(SealStage::Payload, "x".to_string()).to_string(),
        "Secret error: Failed to encrypt: x"
    );
    assert_eq!(
        seal_error(SealStage::Finish, "x".to_string()).to_string(),
        "Secret error: Failed to finish encryption: x"
    );
}
