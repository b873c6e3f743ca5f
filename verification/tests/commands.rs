use std::sync::atomic::{AtomicBool, Ordering};
use std::sync::Arc;
use tacoshell::clock::Timestamp;
use tacoshell::commands::{
    add_secret, add_server, add_server_as, connect_ssh, delete_secret, delete_server,
    disconnect_message, disconnect_ssh, get_secrets, get_servers, input_message, kind_from_lower,
    link_secret_to_server, resize_message,
    parse_command_id, parse_kind, parse_protocol, protocol_from_lower, register_session,
    resize_terminal, send_ssh_input, store_secret, unlink_secret_from_server, update_server,
    update_server_at, validate_add_server, AddSecretRequest, AddServerRequest, CommandError,
    SecretResponse, ServerResponse,
};
use tacoshell::error::Error;
use tacoshell::models::{Protocol, Secret, SecretKind, Server, ServerSecret};
use tacoshell::resolver::{auth_from_plaintext, resolve_auth, ConnectRequest};
use tacoshell::secrets::SecretEncryption;
use tacoshell::state::{ActiveSession, AppState, SshInput};
use tacoshell::storage::{SecretRepository, ServerRepository, Storage};
use tacoshell::traits::AuthMethod;
use tokio::sync::mpsc::{unbounded_channel, UnboundedReceiver};

fn state() -> AppState {
    AppState::new(Storage::in_memory(), "0123456789abcdef".repeat(4))
}

fn request(name: &str, host: &str, port: u16, username: &str) -> AddServerRequest {
    AddServerRequest {
        name: name.to_string(),
        host: host.to_string(),
        port,
        username: username.to_string(),
        protocol: None,
        tags: None,
    }
}

fn connect(server_id: &str) -> ConnectRequest {
    ConnectRequest {
        server_id: server_id.to_string(),
        password: None,
        private_key: None,
        passphrase: None,
    }
}

fn session() -> (ActiveSession, UnboundedReceiver<SshInput>, Arc<AtomicBool>) {
    let (input_tx, rx) = unbounded_channel::<SshInput>();
    let stop_flag = Arc::new(AtomicBool::new(false));
    (ActiveSession { input_tx, stop_flag: stop_flag.clone() }, rx, stop_flag)
}

fn refused(result: Result<impl std::fmt::Debug, CommandError>) -> (String, Option<String>) {
    let e = result.unwrap_err();
    (e.message, e.code)
}

const ID_A: &str = "550e8400-e29b-41d4-a716-446655440000";
const ID_B: &str = "a1a2a3a4-b1b2-c1c2-d1d2-d3d4d5d6d7d8";
const VALUE_A: u128 = 0x550e8400e29b41d4a716446655440000;
const VALUE_B: u128 = 0xa1a2a3a4b1b2c1c2d1d2d3d4d5d6d7d8;

#[test]
fn add_server_with_port_zero_is_refused_and_stores_nothing() {
    let mut st = state();
    let (message, code) = refused(add_server(&mut st, request("h1", "10.0.0.1", 0, "u")));
    assert_eq!(message, "Port must be between 1 and 65535");
    assert_eq!(code, None);
    assert!(st.storage.data.servers.is_empty());
}

#[test]
fn add_server_with_whitespace_only_name_is_refused() {
    let mut st = state();
    for name in ["", " ", "\t\n  ", "\u{a0}\u{2003}\u{3000}"] {
        let (message, code) = refused(add_server(&mut st, request(name, "10.0.0.1", 22, "u")));
        assert_eq!(message, "Server name cannot be empty");
        assert_eq!(code, None);
    }
    assert!(st.storage.data.servers.is_empty());
}

#[test]
fn add_server_checks_each_field_in_turn() {
    let mut st = state();
    let long = "x".repeat(256);
    assert_eq!(
        refused(add_server(&mut st, request(&long, "", 0, ""))).0,
        "Server name too long (max 255 characters)"
    );
    assert_eq!(refused(add_server(&mut st, request("n", " ", 0, ""))).0, "Host cannot be empty");
    assert_eq!(
        refused(add_server(&mut st, request("n", "h", 0, ""))).0,
        "Port must be between 1 and 65535"
    );
    assert_eq!(
        refused(add_server(&mut st, request("n", "h", 1, "\r\n"))).0,
        "Username cannot be empty"
    );
    assert!(validate_add_server(&request("n", "h", 1, "u")).is_ok());
    assert!(validate_add_server(&request(&"x".repeat(255), "h", 65535, "u")).is_ok());
    assert!(validate_add_server(&request(&"\u{e9}".repeat(255), "h", 65535, "u")).is_ok());
    assert!(validate_add_server(&request(&"\u{e9}".repeat(256), "h", 65535, "u")).is_err());
    assert!(st.storage.data.servers.is_empty());
}

#[test]
fn add_server_trims_and_answers_with_what_it_stored() {
    let mut st = state();
    let mut req = request("  h1 \t", "\n10.0.0.1 ", 2222, " u ");
    req.protocol = Some("SFTP".to_string());
    req.tags = Some(vec!["prod".to_string(), "eu".to_string()]);
    let answer = add_server_as(&mut st, req, VALUE_A, Timestamp { secs: 9, nanos: 1 }).unwrap();
    assert_eq!(answer.id, ID_A);
    assert_eq!(
        (answer.name.as_str(), answer.host.as_str(), answer.port, answer.username.as_str()),
        ("h1", "10.0.0.1", 2222, "u")
    );
    assert_eq!(answer.protocol, "sftp");
    assert_eq!(answer.tags, vec!["prod".to_string(), "eu".to_string()]);
    let stored = ServerRepository::get(&st.storage, VALUE_A).unwrap();
    assert_eq!(stored.name, "h1");
    assert_eq!(stored.protocol, Protocol::Sftp);
    assert_eq!(stored.created_at, Timestamp { secs: 9, nanos: 1 });
    assert_eq!(stored.updated_at, stored.created_at);

    let fresh = add_server(&mut st, request("h2", "h", 22, "u")).unwrap();
    assert_eq!(fresh.protocol, "ssh");
    assert!(fresh.tags.is_empty());
    assert_eq!(fresh.id.len(), 36);
    assert_eq!(st.storage.data.servers.len(), 2);
}

#[test]
fn protocols_and_kinds_are_read_whatever_their_case() {
    assert_eq!(parse_protocol("sftp"), Protocol::Sftp);
    assert_eq!(parse_protocol("SfTp"), Protocol::Sftp);
    assert_eq!(parse_protocol("FTP"), Protocol::Ftp);
    assert_eq!(parse_protocol("ssh"), Protocol::Ssh);
    assert_eq!(parse_protocol("telnet"), Protocol::Ssh);
    assert_eq!(parse_protocol(""), Protocol::Ssh);
    assert_eq!(protocol_from_lower("SFTP"), Protocol::Ssh);
    assert_eq!(parse_kind("Private_Key"), SecretKind::PrivateKey);
    assert_eq!(parse_kind("PRIVATEKEY"), SecretKind::PrivateKey);
    assert_eq!(parse_kind("Token"), SecretKind::Token);
    assert_eq!(parse_kind("\u{212a}ubeconfig"), SecretKind::Kubeconfig);
    assert_eq!(parse_kind("password"), SecretKind::Password);
    assert_eq!(parse_kind("anything"), SecretKind::Password);
    assert_eq!(kind_from_lower("Token"), SecretKind::Password);
}

#[test]
fn identifiers_are_read_and_written_as_uuids() {
    assert_eq!(parse_command_id(ID_A, "Invalid UUID: ").unwrap(), VALUE_A);
    assert_eq!(parse_command_id(&ID_B.to_uppercase(), "x").unwrap(), VALUE_B);
    assert_eq!(parse_command_id("550e8400e29b41d4a716446655440000", "x").unwrap(), VALUE_A);
    let (message, code) = refused(parse_command_id("not-a-uuid", "Invalid server UUID: "));
    assert!(message.starts_with("Invalid server UUID: "));
    assert!(message.len() > "Invalid server UUID: ".len());
    assert_eq!(code.as_deref(), Some("INVALID_UUID"));
    let s = Server::with_identity(
        VALUE_B,
        Timestamp { secs: 0, nanos: 0 },
        "n".to_string(),
        "h".to_string(),
        1,
        "u".to_string(),
    );
    assert_eq!(ServerResponse::from(s).id, ID_B);
    let k = Secret::with_identity(
        1,
        Timestamp { secs: 0, nanos: 0 },
        "n".to_string(),
        SecretKind::PrivateKey,
        vec![],
        None,
    );
    let answer = SecretResponse::from(k);
    assert_eq!(answer.id, "00000000-0000-0000-0000-000000000001");
    assert_eq!(answer.kind, "privatekey");
}

#[test]
fn errors_are_answered_with_their_codes() {
    let answer = |e: Error| {
        let c = CommandError::from(e);
        (c.message, c.code)
    };
    assert_eq!(
        answer(Error::Connection("x".to_string())),
        ("Connection error: x".to_string(), Some("CONNECTION_ERROR".to_string()))
    );
    assert_eq!(
        answer(Error::Authentication("x".to_string())),
        ("Authentication failed: x".to_string(), Some("AUTH_FAILED".to_string()))
    );
    assert_eq!(
        answer(Error::Session("x".to_string())),
        ("Session error: x".to_string(), Some("SESSION_ERROR".to_string()))
    );
    assert_eq!(
        answer(Error::Database("x".to_string())),
        ("Database error: x".to_string(), Some("DATABASE_ERROR".to_string()))
    );
    assert_eq!(
        answer(Error::Secret("x".to_string())),
        ("Secret error: x".to_string(), Some("SECRET_ERROR".to_string()))
    );
    assert_eq!(answer(Error::Transfer("x".to_string())), ("Transfer error: x".to_string(), None));
    assert_eq!(answer(Error::Kubernetes("x".to_string())), ("Kubernetes error: x".to_string(), None));
    assert_eq!(answer(Error::Config("x".to_string())), ("Configuration error: x".to_string(), None));
    assert_eq!(answer(Error::Io("x".to_string())), ("IO error: x".to_string(), None));
    assert_eq!(
        answer(Error::Serialization("x".to_string())),
        ("Serialization error: x".to_string(), None)
    );
    assert_eq!(answer(Error::Other("x".to_string())), ("x".to_string(), None));
}

#[test]
fn servers_are_answered_by_name() {
    let mut st = state();
    for name in ["zeta", "alpha", "mid"] {
        add_server(&mut st, request(name, "h", 22, "u")).unwrap();
    }
    let names: Vec<String> = get_servers(&st).unwrap().into_iter().map(|s| s.name).collect();
    assert_eq!(names, vec!["alpha", "mid", "zeta"]);
}

#[test]
fn update_server_changes_the_fields_it_is_given() {
    let mut st = state();
    let mut req = request("h1", "10.0.0.1", 22, "u");
    req.protocol = Some("ftp".to_string());
    let added = add_server_as(&mut st, req, VALUE_A, Timestamp { secs: 1, nanos: 0 }).unwrap();
    let change = ServerResponse {
        id: added.id.clone(),
        name: "renamed".to_string(),
        host: "example.org".to_string(),
        port: 2200,
        username: "root".to_string(),
        protocol: "ssh".to_string(),
        tags: vec!["t".to_string()],
    };
    update_server_at(&mut st, change, Timestamp { secs: 50, nanos: 0 }).unwrap();
    let got = ServerRepository::get(&st.storage, VALUE_A).unwrap();
    assert_eq!(
        (got.name.as_str(), got.host.as_str(), got.port, got.username.as_str()),
        ("renamed", "example.org", 2200, "root")
    );
    assert_eq!(got.protocol, Protocol::Ftp);
    assert_eq!(got.tags, vec!["t".to_string()]);
    assert_eq!(got.created_at, Timestamp { secs: 1, nanos: 0 });
    assert_eq!(got.updated_at, Timestamp { secs: 50, nanos: 0 });
}

#[test]
fn add_then_update_with_the_same_fields_is_no_change() {
    let mut st = state();
    let added = add_server(&mut st, request("h1", "10.0.0.1", 22, "u")).unwrap();
    let before = ServerRepository::get(&st.storage, parse_command_id(&added.id, "").unwrap()).unwrap();
    update_server(&mut st, ServerResponse { ..added }).unwrap();
    let after = ServerRepository::get(&st.storage, before.id).unwrap();
    assert_eq!(
        (after.id, after.name, after.host, after.port, after.username, after.protocol, after.tags),
        (before.id, before.name, before.host, before.port, before.username, before.protocol, before.tags)
    );
    assert_eq!(after.created_at, before.created_at);
    assert_eq!(get_servers(&st).unwrap().len(), 1);
}

#[test]
fn commands_refuse_what_they_cannot_find_or_read() {
    let mut st = state();
    let ghost = ServerResponse {
        id: ID_A.to_string(),
        name: "n".to_string(),
        host: "h".to_string(),
        port: 1,
        username: "u".to_string(),
        protocol: "ssh".to_string(),
        tags: vec![],
    };
    assert_eq!(
        refused(update_server(&mut st, ghost)),
        ("Server not found".to_string(), Some("NOT_FOUND".to_string()))
    );
    let unreadable = ServerResponse {
        id: "zz".to_string(),
        name: "n".to_string(),
        host: "h".to_string(),
        port: 1,
        username: "u".to_string(),
        protocol: "ssh".to_string(),
        tags: vec![],
    };
    assert_eq!(refused(update_server(&mut st, unreadable)).1.as_deref(), Some("INVALID_UUID"));
    assert_eq!(refused(delete_server(&mut st, "zz".to_string())).1.as_deref(), Some("INVALID_UUID"));
    assert_eq!(refused(delete_secret(&mut st, "".to_string())).1.as_deref(), Some("INVALID_UUID"));
    assert!(delete_server(&mut st, ID_A.to_string()).is_ok());
    assert!(delete_secret(&mut st, ID_A.to_string()).is_ok());
    let (message, code) =
        refused(link_secret_to_server(&mut st, "zz".to_string(), "yy".to_string(), None));
    assert!(message.starts_with("Invalid server UUID: "));
    assert_eq!(code.as_deref(), Some("INVALID_UUID"));
    let (message, _) =
        refused(link_secret_to_server(&mut st, ID_A.to_string(), "yy".to_string(), None));
    assert!(message.starts_with("Invalid secret UUID: "));
    let (message, _) = refused(unlink_secret_from_server(&mut st, ID_A.to_string(), "y".to_string()));
    assert!(message.starts_with("Invalid secret UUID: "));
    assert!(st.storage.data.server_secrets.is_empty());
    let (message, code) = refused(connect_ssh(&st, &connect("zz")));
    assert!(message.starts_with("Invalid server UUID: "));
    assert_eq!(code.as_deref(), Some("INVALID_UUID"));
    assert_eq!(
        refused(connect_ssh(&st, &connect(ID_A))),
        ("Server not found".to_string(), Some("NOT_FOUND".to_string()))
    );
}

#[test]
fn links_default_to_priority_zero() {
    let mut st = state();
    link_secret_to_server(&mut st, ID_A.to_string(), ID_B.to_string(), None).unwrap();
    assert_eq!(st.storage.data.server_secrets, vec![ServerSecret::new(VALUE_A, VALUE_B, 0)]);
    link_secret_to_server(&mut st, ID_A.to_string(), ID_B.to_string(), Some(-4)).unwrap();
    assert_eq!(st.storage.data.server_secrets, vec![ServerSecret::new(VALUE_A, VALUE_B, -4)]);
    unlink_secret_from_server(&mut st, ID_A.to_string(), ID_B.to_string()).unwrap();
    assert!(st.storage.data.server_secrets.is_empty());
}

#[test]
fn secrets_are_answered_without_their_payload() {
    let mut st = state();
    let answer = store_secret(
        &mut st,
        VALUE_B,
        Timestamp { secs: 3, nanos: 0 },
        "zz".to_string(),
        SecretKind::Kubeconfig,
        vec![7, 7],
    );
    assert_eq!((answer.id.as_str(), answer.name.as_str(), answer.kind.as_str()), (ID_B, "zz", "kubeconfig"));
    store_secret(
        &mut st,
        VALUE_A,
        Timestamp { secs: 3, nanos: 0 },
        "aa".to_string(),
        SecretKind::Password,
        vec![],
    );
    let listed = get_secrets(&st).unwrap();
    let shown: Vec<(String, String)> = listed.into_iter().map(|s| (s.name, s.kind)).collect();
    assert_eq!(
        shown,
        vec![("aa".to_string(), "password".to_string()), ("zz".to_string(), "kubeconfig".to_string())]
    );
    assert_eq!(SecretRepository::get(&st.storage, VALUE_B).unwrap().encrypted_value, vec![7, 7]);
}

#[test]
fn password_round_trip() {
    let mut st = state();
    let h1 = add_server(&mut st, request("h1", "10.0.0.1", 22, "u")).unwrap();
    let added_secret = add_secret(
        &mut st,
        AddSecretRequest {
            name: "p1".to_string(),
            kind: "password".to_string(),
            value: "s3cret".to_string(),
        },
    )
    .unwrap();
    assert_eq!((added_secret.name.as_str(), added_secret.kind.as_str()), ("p1", "password"));
    let stored = &st.storage.data.secrets[0];
    assert_eq!(parse_command_id(&added_secret.id, "").unwrap(), stored.id);
    assert!(stored.encrypted_value.len() > "s3cret".len());
    assert!(stored.username.is_none());
    assert_ne!(stored.encrypted_value, b"s3cret".to_vec());
    assert!(!stored.encrypted_value.windows(6).any(|w| w == b"s3cret"));
    link_secret_to_server(&mut st, h1.id.clone(), added_secret.id.clone(), Some(0)).unwrap();
    let plan = connect_ssh(&st, &connect(&h1.id)).unwrap();
    assert_eq!(plan.server.name, "h1");
    assert_eq!(plan.server.address(), "10.0.0.1:22");
    match plan.auth {
        AuthMethod::Password(p) => assert_eq!(p, "s3cret"),
        other => panic!("unexpected method {:?}", other),
    }
}

#[test]
fn resolver_prefers_the_lowest_priority() {
    let vault = SecretEncryption::new("k".to_string());
    let mut storage = Storage::in_memory();
    let at = Timestamp { secs: 0, nanos: 0 };
    let a = Secret::with_identity(
        10,
        at,
        "pA".to_string(),
        SecretKind::Password,
        vault.encrypt_string("of A").unwrap(),
        None,
    );
    let b = Secret::with_identity(
        11,
        at,
        "pB".to_string(),
        SecretKind::PrivateKey,
        vault.encrypt_string("of B").unwrap(),
        None,
    );
    SecretRepository::store(&mut storage, &a);
    SecretRepository::store(&mut storage, &b);
    ServerRepository::link_secret(&mut storage, &ServerSecret::new(1, 10, 5));
    ServerRepository::link_secret(&mut storage, &ServerSecret::new(1, 11, 1));
    let linked = ServerRepository::get_secrets(&storage, 1);
    match resolve_auth(&connect(""), &linked, &vault).unwrap() {
        AuthMethod::PrivateKey { key, passphrase } => {
            assert_eq!(key, "of B");
            assert_eq!(passphrase, None);
        }
        other => panic!("unexpected method {:?}", other),
    }
}

#[test]
fn agent_fallback() {
    let mut st = state();
    let h1 = add_server(&mut st, request("h1", "10.0.0.1", 22, "u")).unwrap();
    let plan = connect_ssh(&st, &connect(&h1.id)).unwrap();
    assert!(matches!(plan.auth, AuthMethod::Agent));
    let vault = SecretEncryption::new("k".to_string());
    assert!(matches!(resolve_auth(&connect(""), &Vec::new(), &vault).unwrap(), AuthMethod::Agent));
}

#[test]
fn what_the_caller_supplies_wins() {
    let vault = SecretEncryption::new("k".to_string());
    let unreadable = Secret::with_identity(
        1,
        Timestamp { secs: 0, nanos: 0 },
        "s".to_string(),
        SecretKind::Password,
        b"no blob".to_vec(),
        None,
    );
    let linked = vec![unreadable];
    let mut req = connect("");
    req.password = Some("typed".to_string());
    req.private_key = Some("/home/u/.ssh/id".to_string());
    req.passphrase = Some("pp".to_string());
    match resolve_auth(&req, &linked, &vault).unwrap() {
        AuthMethod::Password(p) => assert_eq!(p, "typed"),
        other => panic!("unexpected method {:?}", other),
    }
    req.password = None;
    match resolve_auth(&req, &linked, &vault).unwrap() {
        AuthMethod::PrivateKey { key, passphrase } => {
            assert_eq!(key, "/home/u/.ssh/id");
            assert_eq!(passphrase.as_deref(), Some("pp"));
        }
        other => panic!("unexpected method {:?}", other),
    }
    req.private_key = None;
    let e = resolve_auth(&req, &linked, &vault).unwrap_err();
    assert_eq!(e.code.as_deref(), Some("SECRET_ERROR"));
}

#[test]
fn decrypted_payloads_decide_by_kind() {
    let ok = |kind, bytes: &[u8]| auth_from_plaintext(kind, bytes.to_vec()).unwrap();
    assert!(matches!(ok(SecretKind::Password, b"pw"), AuthMethod::Password(p) if p == "pw"));
    assert!(matches!(
        ok(SecretKind::PrivateKey, b"-----BEGIN"),
        AuthMethod::PrivateKey { key, passphrase: None } if key == "-----BEGIN"
    ));
    for kind in [SecretKind::Token, SecretKind::Kubeconfig] {
        let e = auth_from_plaintext(kind, b"t".to_vec()).unwrap_err();
        assert_eq!(e.message, "Unsupported secret type for SSH");
        assert_eq!(e.code.as_deref(), Some("UNSUPPORTED_SECRET"));
    }
    for kind in [SecretKind::Password, SecretKind::PrivateKey] {
        let e = auth_from_plaintext(kind, vec![0x80]).unwrap_err();
        assert!(e.message.starts_with("Invalid secret encoding: "));
        assert!(e.message.len() > "Invalid secret encoding: ".len());
        assert_eq!(e.code.as_deref(), Some("DECODE_ERROR"));
    }
    for kind in [SecretKind::Token, SecretKind::Kubeconfig] {
        let e = auth_from_plaintext(kind, vec![0x80]).unwrap_err();
        assert_eq!(e.code.as_deref(), Some("UNSUPPORTED_SECRET"));
    }
}

#[test]
fn a_secret_of_an_unsupported_kind_is_refused_without_being_decrypted() {
    let mut st = state();
    let h1 = add_server(&mut st, request("h1", "10.0.0.1", 22, "u")).unwrap();
    let server = parse_command_id(&h1.id, "").unwrap();
    for (id, kind) in [(10u128, SecretKind::Token), (11, SecretKind::Kubeconfig)] {
        let blob = b"no blob that the vault could open".to_vec();
        store_secret(&mut st, id, Timestamp { secs: 0, nanos: 0 }, "t".to_string(), kind, blob);
        ServerRepository::link_secret(&mut st.storage, &ServerSecret::new(server, id, 0));
        let e = connect_ssh(&st, &connect(&h1.id)).unwrap_err();
        assert_eq!(e.message, "Unsupported secret type for SSH");
        assert_eq!(e.code.as_deref(), Some("UNSUPPORTED_SECRET"));
        ServerRepository::unlink_secret(&mut st.storage, server, id);
    }
    store_secret(
        &mut st,
        12,
        Timestamp { secs: 0, nanos: 0 },
        "p".to_string(),
        SecretKind::Password,
        b"no blob that the vault could open".to_vec(),
    );
    ServerRepository::link_secret(&mut st.storage, &ServerSecret::new(server, 12, 0));
    let e = connect_ssh(&st, &connect(&h1.id)).unwrap_err();
    assert_eq!(e.code.as_deref(), Some("SECRET_ERROR"));
    let vault = SecretEncryption::new("k".to_string());
    let token = Secret::with_identity(
        1,
        Timestamp { secs: 0, nanos: 0 },
        "t".to_string(),
        SecretKind::Token,
        vault.encrypt(&[0xff]).unwrap(),
        None,
    );
    let password = Secret::with_identity(
        2,
        Timestamp { secs: 0, nanos: 0 },
        "p".to_string(),
        SecretKind::Password,
        vault.encrypt_string("never tried").unwrap(),
        None,
    );
    let e = resolve_auth(&connect(""), &vec![token, password], &vault).unwrap_err();
    assert_eq!(e.code.as_deref(), Some("UNSUPPORTED_SECRET"));
}

#[test]
fn messages_to_the_worker_are_built_from_the_request() {
    assert!(matches!(input_message("ls\n".to_string()), Some(SshInput::Data(d)) if d == "ls\n"));
    assert!(matches!(input_message("\u{e9}".to_string()), Some(SshInput::Data(d)) if d == "\u{e9}"));
    assert!(input_message(String::new()).is_none());
    assert!(matches!(resize_message(132, 43), SshInput::Resize { cols: 132, rows: 43 }));
    assert!(matches!(disconnect_message(), SshInput::Disconnect));
}

#[test]
fn an_added_server_is_updated_with_its_own_answer() {
    let mut st = state();
    add_server(&mut st, request("other", "h", 22, "u")).unwrap();
    let mut req = request(" h1 ", "10.0.0.1", 22, "u");
    req.protocol = Some("Sftp".to_string());
    req.tags = Some(vec!["a".to_string()]);
    let answer = add_server(&mut st, req).unwrap();
    let id = parse_command_id(&answer.id, "").unwrap();
    let before = ServerRepository::get(&st.storage, id).unwrap();
    let others = (st.storage.data.servers.len(), st.storage.data.secrets.len());
    update_server_at(&mut st, answer, Timestamp { secs: i64::MAX, nanos: 7 }).unwrap();
    let after = ServerRepository::get(&st.storage, id).unwrap();
    assert_eq!(
        (after.id, after.name, after.host, after.port, after.username, after.protocol, after.tags),
        (before.id, before.name, before.host, before.port, before.username, before.protocol, before.tags)
    );
    assert_eq!(after.created_at, before.created_at);
    assert_eq!(after.updated_at, Timestamp { secs: i64::MAX, nanos: 7 });
    assert_eq!((st.storage.data.servers.len(), st.storage.data.secrets.len()), others);
    assert_eq!(st.storage.data.servers[0].name, "other");
}

#[test]
fn sessions_are_registered_once() {
    let mut st = state();
    let (first, _rx1, _) = session();
    let answer = register_session(&mut st, ID_B.to_string(), VALUE_A, first).unwrap();
    assert_eq!((answer.session_id.as_str(), answer.server_id.as_str(), answer.connected), (ID_A, ID_B, true));
    assert!(st.sessions.contains(VALUE_A));
    let (second, _rx2, _) = session();
    let e = register_session(&mut st, ID_B.to_string(), VALUE_A, second).unwrap_err();
    assert_eq!(e.code.as_deref(), Some("SESSION_ERROR"));
    assert_eq!(e.message, "Session error: Session already registered");
    assert!(st.sessions.contains(VALUE_A));
    assert!(!st.sessions.contains(VALUE_B));
    assert_eq!(st.with_session(VALUE_A, |_| 5), Some(5));
    assert_eq!(st.with_session(VALUE_B, |_| 5), None);
    assert!(st.remove_session(VALUE_A).is_some());
    assert!(st.remove_session(VALUE_A).is_none());
}

#[test]
fn input_reaches_the_queue_in_order() {
    let mut st = state();
    let (entry, mut rx, _) = session();
    register_session(&mut st, ID_B.to_string(), VALUE_A, entry).unwrap();
    send_ssh_input(&st, ID_A.to_string(), "ls\n".to_string()).unwrap();
    resize_terminal(&st, ID_A.to_string(), 120, 40).unwrap();
    send_ssh_input(&st, ID_A.to_string(), "".to_string()).unwrap();
    send_ssh_input(&st, ID_A.to_string(), "pwd\n".to_string()).unwrap();
    assert!(matches!(rx.try_recv().unwrap(), SshInput::Data(d) if d == "ls\n"));
    assert!(matches!(rx.try_recv().unwrap(), SshInput::Resize { cols: 120, rows: 40 }));
    assert!(matches!(rx.try_recv().unwrap(), SshInput::Data(d) if d == "pwd\n"));
    assert!(rx.try_recv().is_err());
}

#[test]
fn commands_on_a_session_that_is_gone_are_not_found() {
    let mut st = state();
    let (entry, mut rx, stop) = session();
    register_session(&mut st, ID_B.to_string(), VALUE_A, entry).unwrap();
    disconnect_ssh(&mut st, ID_A.to_string()).unwrap();
    assert!(stop.load(Ordering::Relaxed));
    assert!(matches!(rx.try_recv().unwrap(), SshInput::Disconnect));
    assert!(!st.sessions.contains(VALUE_A));
    for input in ["x", "", "more"] {
        assert_eq!(
            refused(send_ssh_input(&st, ID_A.to_string(), input.to_string())),
            ("Session not found".to_string(), Some("NOT_FOUND".to_string()))
        );
    }
    assert_eq!(
        refused(resize_terminal(&st, ID_A.to_string(), 1, 1)),
        ("Session not found".to_string(), Some("NOT_FOUND".to_string()))
    );
    assert!(disconnect_ssh(&mut st, ID_A.to_string()).is_ok());
    assert_eq!(refused(disconnect_ssh(&mut st, "?".to_string())).1.as_deref(), Some("INVALID_UUID"));
    let (message, code) = refused(send_ssh_input(&st, "?".to_string(), "x".to_string()));
    assert!(message.starts_with("Invalid session UUID: "));
    assert_eq!(code.as_deref(), Some("INVALID_UUID"));
    assert_eq!(refused(resize_terminal(&st, "?".to_string(), 1, 1)).1.as_deref(), Some("INVALID_UUID"));
}
