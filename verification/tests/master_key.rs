use tacoshell::error::Error;
use tacoshell::master_key::{
    char_is_lower_hex, generate_master_key, has_key_form, KeyAction, KeyEvent, KeyProvider,
    FALLBACK_FILE, KEYRING_SERVICE, KEYRING_USER,
};

const KEY: &str = "00112233445566778899aabbccddeeff00112233445566778899aabbccddeeff";

fn fresh() -> String {
    "f".repeat(64)
}

#[test]
fn the_entry_of_the_secret_store_is_fixed() {
    assert_eq!(KEYRING_SERVICE, "tacoshell");
    assert_eq!(KEYRING_USER, "master-key");
    assert_eq!(FALLBACK_FILE, ".master_key");
}

#[test]
fn generated_keys_are_64_lower_case_hex_digits() {
    let a = generate_master_key();
    let b = generate_master_key();
    assert_eq!(a.len(), 64);
    assert!(a.chars().all(|c| matches!(c, '0'..='9' | 'a'..='f')));
    assert!(has_key_form(&a));
    assert_ne!(a, b);
}

#[test]
fn the_form_of_a_key_is_checked() {
    assert!(has_key_form(KEY));
    assert!(!has_key_form(&KEY[..63]));
    assert!(!has_key_form(&format!("{}0", KEY)));
    assert!(!has_key_form(&KEY.to_uppercase()));
    assert!(!has_key_form(&KEY.replace('0', "g")));
    assert!(!has_key_form(""));
    assert!(!has_key_form(&"\u{e9}".repeat(64)));
    assert!(char_is_lower_hex('0') && char_is_lower_hex('9') && char_is_lower_hex('a'));
    assert!(char_is_lower_hex('f'));
    assert!(!char_is_lower_hex('g') && !char_is_lower_hex('A') && !char_is_lower_hex('/'));
    assert!(!char_is_lower_hex(':') && !char_is_lower_hex('`'));
}

#[test]
fn a_key_in_the_secret_store_is_used() {
    let (mut p, first) = KeyProvider::start();
    assert!(matches!(first, KeyAction::Lookup));
    let used = p.step(KeyEvent::Found("whatever is stored".to_string()));
    assert!(matches!(used, KeyAction::Use { key, fallback: false } if key == "whatever is stored"));
    assert!(p.is_done());
    assert!(matches!(p.step(KeyEvent::NoEntry), KeyAction::Fail(Error::Config(_))));
}

#[test]
fn a_first_launch_generates_and_stores_a_key() {
    let (mut p, _) = KeyProvider::start();
    let stored = match p.step(KeyEvent::NoEntry) {
        KeyAction::Store(k) => k,
        other => panic!("unexpected step {:?}", other),
    };
    assert!(has_key_form(&stored));
    assert!(!p.is_done());
    assert!(matches!(p.step(KeyEvent::Stored(true)), KeyAction::Use { key, fallback: false } if key == stored));
}

#[test]
fn a_store_that_fails_falls_back_to_the_file() {
    let (mut p, _) = KeyProvider::start();
    assert!(matches!(p.step_with(KeyEvent::NoEntry, fresh()), KeyAction::Store(k) if k == fresh()));
    assert!(matches!(p.step_with(KeyEvent::Stored(false), fresh()), KeyAction::ReadFile));
    let used = p.step_with(KeyEvent::FileRead(Some(format!("  {}\n", KEY))), fresh());
    assert!(matches!(used, KeyAction::Use { key, fallback: true } if key == KEY));
    assert!(p.is_done());
}

#[test]
fn an_unreachable_store_falls_back_to_the_file() {
    let (mut p, _) = KeyProvider::start();
    assert!(matches!(p.step(KeyEvent::Unavailable), KeyAction::ReadFile));
    let written = match p.step(KeyEvent::FileRead(None)) {
        KeyAction::WriteFile(k) => k,
        other => panic!("unexpected step {:?}", other),
    };
    assert!(has_key_form(&written));
    assert!(matches!(p.step(KeyEvent::FileWritten), KeyAction::Use { key, fallback: true } if key == written));
}

#[test]
fn a_file_that_holds_no_key_is_replaced() {
    for content in ["", "short", &KEY.to_uppercase(), &format!("{}{}", KEY, KEY)] {
        let (mut p, _) = KeyProvider::start();
        p.step_with(KeyEvent::Unavailable, fresh());
        let step = p.step_with(KeyEvent::FileRead(Some(content.to_string())), fresh());
        assert!(matches!(step, KeyAction::WriteFile(k) if k == fresh()), "for {:?}", content);
        let used = p.step_with(KeyEvent::FileWritten, "0".repeat(64));
        assert!(matches!(used, KeyAction::Use { key, fallback: true } if key == fresh()));
    }
}

#[test]
fn an_entry_that_cannot_be_opened_falls_back_to_the_file() {
    let (mut p, _) = KeyProvider::start();
    assert!(matches!(p.step(KeyEvent::EntryFailed("no backend".to_string())), KeyAction::ReadFile));
    assert!(!p.is_done());
    let used = p.step(KeyEvent::FileRead(Some(KEY.to_string())));
    assert!(matches!(used, KeyAction::Use { key, fallback: true } if key == KEY));
    let (mut p, _) = KeyProvider::start();
    p.step(KeyEvent::EntryFailed(String::new()));
    let written = match p.step(KeyEvent::FileRead(None)) {
        KeyAction::WriteFile(k) => k,
        other => panic!("unexpected step {:?}", other),
    };
    assert!(has_key_form(&written));
    assert!(matches!(p.step(KeyEvent::FileWritten), KeyAction::Use { key, fallback: true } if key == written));
    match p.step(KeyEvent::FileWritten) {
        KeyAction::Fail(e) => {
            assert_eq!(e.to_string(), "Configuration error: The master key is settled")
        }
        other => panic!("unexpected step {:?}", other),
    }
}
