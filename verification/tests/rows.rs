use tacoshell::clock::Timestamp;
use tacoshell::db::{
    kind_from_stored, optional, row_to_secret, row_to_server, secret_to_row, server_to_row,
    QueryFailure, SecretRow, ServerRow,
};
use tacoshell::error::Error;
use tacoshell::k8s::{ClusterClient, ClusterConfig};
use tacoshell::models::{Protocol, Secret, SecretKind, Server};
use tacoshell::traits::FileEntry;

fn server_row() -> ServerRow {
    ServerRow {
        id: "550e8400-e29b-41d4-a716-446655440000".to_string(),
        name: "h1".to_string(),
        host: "10.0.0.1".to_string(),
        port: 22,
        username: "u".to_string(),
        protocol: "sftp".to_string(),
        tags: "[\"prod\",\"eu west\"]".to_string(),
        created_at: "2024-01-02T03:04:05+00:00".to_string(),
        updated_at: "2024-01-02T04:04:05.250+01:00".to_string(),
    }
}

#[test]
fn a_server_row_is_read() {
    let s = row_to_server(server_row()).unwrap();
    assert_eq!(s.id, 0x550e8400e29b41d4a716446655440000);
    assert_eq!((s.name.as_str(), s.host.as_str(), s.port, s.username.as_str()), ("h1", "10.0.0.1", 22, "u"));
    assert_eq!(s.protocol, Protocol::Sftp);
    assert_eq!(s.tags, vec!["prod".to_string(), "eu west".to_string()]);
    assert_eq!(s.created_at, Timestamp { secs: 1704164645, nanos: 0 });
    assert_eq!(s.updated_at, Timestamp { secs: 1704164645, nanos: 250_000_000 });
}

#[test]
fn unknown_protocols_and_broken_tags_get_defaults() {
    let mut row = server_row();
    row.protocol = "SFTP".to_string();
    row.tags = "not json".to_string();
    let s = row_to_server(row).unwrap();
    assert_eq!(s.protocol, Protocol::Ssh);
    assert!(s.tags.is_empty());
    let mut row = server_row();
    row.protocol = "ftp".to_string();
    row.tags = "{\"a\":1}".to_string();
    let s = row_to_server(row).unwrap();
    assert_eq!(s.protocol, Protocol::Ftp);
    assert!(s.tags.is_empty());
}

#[test]
fn corrupt_rows_are_serialization_errors() {
    let mut row = server_row();
    row.id = "nope".to_string();
    assert!(matches!(row_to_server(row), Err(Error::Serialization(_))));
    let mut row = server_row();
    row.created_at = "yesterday".to_string();
    assert!(matches!(row_to_server(row), Err(Error::Serialization(_))));
    let mut row = server_row();
    row.updated_at = "2024-13-01T00:00:00Z".to_string();
    assert!(matches!(row_to_server(row), Err(Error::Serialization(_))));
    let row = SecretRow {
        id: "".to_string(),
        name: "s".to_string(),
        kind: "password".to_string(),
        encrypted_value: vec![],
        created_at: "2024-01-02T03:04:05Z".to_string(),
        updated_at: "2024-01-02T03:04:05Z".to_string(),
    };
    assert!(matches!(row_to_secret(row), Err(Error::Serialization(_))));
}

#[test]
fn a_server_survives_being_written_and_read() {
    let mut s = Server::with_identity(
        0xa1a2a3a4b1b2c1c2d1d2d3d4d5d6d7d8,
        Timestamp { secs: 1_700_000_000, nanos: 123_456_789 },
        "na\"me".to_string(),
        "h\u{f6}st".to_string(),
        65535,
        "u".to_string(),
    );
    s.protocol = Protocol::Ftp;
    s.tags = vec!["a,b".to_string(), "".to_string(), "\u{1f600}\\".to_string()];
    s.updated_at = Timestamp { secs: 1_700_000_100, nanos: 0 };
    let row = server_to_row(&s).unwrap();
    assert_eq!(row.id, "a1a2a3a4-b1b2-c1c2-d1d2-d3d4d5d6d7d8");
    assert_eq!(row.protocol, "ftp");
    assert_eq!(row.tags, "[\"a,b\",\"\",\"\u{1f600}\\\\\"]");
    assert_eq!(row.created_at, "2023-11-14T22:13:20.123456789+00:00");
    assert_eq!(row.updated_at, "2023-11-14T22:15:00+00:00");
    let back = row_to_server(row).unwrap();
    assert_eq!(
        (back.id, back.name, back.host, back.port, back.username, back.protocol, back.tags),
        (s.id, s.name, s.host, s.port, s.username, s.protocol, s.tags)
    );
    assert_eq!((back.created_at, back.updated_at), (s.created_at, s.updated_at));
}

#[test]
fn a_secret_survives_being_written_and_read() {
    for (kind, stored) in [
        (SecretKind::Password, "password"),
        (SecretKind::PrivateKey, "private_key"),
        (SecretKind::Token, "token"),
        (SecretKind::Kubeconfig, "kubeconfig"),
    ] {
        let s = Secret::with_identity(
            7,
            Timestamp { secs: 0, nanos: 0 },
            "n".to_string(),
            kind,
            vec![0, 255, 3],
            Some("login".to_string()),
        );
        let row = secret_to_row(&s).unwrap();
        assert_eq!(row.kind, stored);
        assert_eq!(row.id, "00000000-0000-0000-0000-000000000007");
        assert_eq!(row.created_at, "1970-01-01T00:00:00+00:00");
        let back = row_to_secret(row).unwrap();
        assert_eq!((back.id, back.name.as_str(), back.kind), (7, "n", kind));
        assert_eq!(back.encrypted_value, vec![0, 255, 3]);
        assert_eq!(back.username, None);
        assert_eq!(back.created_at, s.created_at);
    }
    assert_eq!(kind_from_stored("privatekey"), SecretKind::Password);
    assert_eq!(kind_from_stored("TOKEN"), SecretKind::Password);
}

#[test]
fn times_out_of_range_cannot_be_written() {
    let s = Server::with_identity(
        1,
        Timestamp { secs: i64::MAX, nanos: 0 },
        "n".to_string(),
        "h".to_string(),
        1,
        "u".to_string(),
    );
    assert!(matches!(server_to_row(&s), Err(Error::Serialization(_))));
    let mut late = Server::with_identity(
        1,
        Timestamp { secs: 253_402_300_799, nanos: 999_999_999 },
        "n".to_string(),
        "h".to_string(),
        1,
        "u".to_string(),
    );
    let row = server_to_row(&late).unwrap();
    assert_eq!(row.created_at, "9999-12-31T23:59:59.999999999+00:00");
    assert_eq!(row_to_server(row).unwrap().created_at, late.created_at);
    late.updated_at = Timestamp { secs: 253_402_300_800, nanos: 0 };
    assert!(matches!(server_to_row(&late), Err(Error::Serialization(_))));
    late.updated_at = Timestamp { secs: -62_167_219_201, nanos: 0 };
    assert!(matches!(server_to_row(&late), Err(Error::Serialization(_))));
    late.updated_at = Timestamp { secs: -62_167_219_200, nanos: 0 };
    assert_eq!(server_to_row(&late).unwrap().updated_at, "0000-01-01T00:00:00+00:00");
    let k = Secret::with_identity(
        1,
        Timestamp { secs: 0, nanos: 2_000_000_000 },
        "n".to_string(),
        SecretKind::Token,
        vec![],
        None,
    );
    assert!(matches!(secret_to_row(&k), Err(Error::Serialization(_))));
}

#[test]
fn no_row_is_not_a_failure() {
    assert_eq!(optional::<u8>(Ok(3)).unwrap(), Some(3));
    assert_eq!(optional::<u8>(Err(QueryFailure::NoRows)).unwrap(), None);
    match optional::<u8>(Err(QueryFailure::Store("locked".to_string()))) {
        Err(e) => assert_eq!(e.to_string(), "Database error: locked"),
        other => panic!("unexpected outcome {:?}", other),
    }
}

#[test]
fn file_entries_are_made_of_what_the_server_reports() {
    let e = FileEntry::from_stat(
        "f.txt".to_string(),
        "/tmp/f.txt".to_string(),
        false,
        Some(12),
        Some(1_700_000_000),
        Some(0o644),
    );
    assert_eq!((e.name.as_str(), e.path.as_str(), e.is_dir, e.size), ("f.txt", "/tmp/f.txt", false, 12));
    assert_eq!(e.modified, Some(Timestamp { secs: 1_700_000_000, nanos: 0 }));
    assert_eq!(e.permissions, Some(0o644));
    let d = FileEntry::from_stat("d".to_string(), "/d".to_string(), true, None, None, None);
    assert_eq!((d.is_dir, d.size, d.modified, d.permissions), (true, 0, None, None));
    let at = |mtime: u64| {
        FileEntry::from_stat("x".to_string(), "/x".to_string(), false, None, Some(mtime), None)
            .modified
            .unwrap()
    };
    assert_eq!(at(8_210_266_876_799), Timestamp { secs: 8_210_266_876_799, nanos: 0 });
    assert_eq!(at(8_210_266_876_800), Timestamp { secs: 0, nanos: 0 });
    let first: i64 = -8_334_601_228_800;
    assert_eq!(at(first as u64), Timestamp { secs: first, nanos: 0 });
    assert_eq!(at((first - 1) as u64), Timestamp { secs: 0, nanos: 0 });
    let far = FileEntry::from_stat("x".to_string(), "/x".to_string(), false, None, Some(u64::MAX), None);
    assert_eq!(far.modified, Some(Timestamp { secs: -1, nanos: 0 }));
    let off = FileEntry::from_stat("x".to_string(), "/x".to_string(), false, None, Some(i64::MAX as u64), None);
    assert_eq!(off.modified, Some(Timestamp { secs: 0, nanos: 0 }));
    let low = FileEntry::from_stat("x".to_string(), "/x".to_string(), false, None, Some(1u64 << 63), None);
    assert_eq!(low.modified, Some(Timestamp { secs: 0, nanos: 0 }));
}

#[test]
fn a_cluster_client_lists_nothing_yet() {
    let client = ClusterClient::new(ClusterConfig {
        name: "c".to_string(),
        context: "ctx".to_string(),
        kubeconfig_path: Some("/k".to_string()),
    });
    assert_eq!(client.config().name, "c");
    assert_eq!(client.config().context, "ctx");
    assert_eq!(client.config().kubeconfig_path.as_deref(), Some("/k"));
    assert!(client.list_namespaces().unwrap().is_empty());
    assert!(client.list_pods("default").unwrap().is_empty());
    assert_eq!(client.get_logs("default", "pod", None).unwrap(), "");
}
