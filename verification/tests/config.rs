use vara_orthanc::config::{
    get_local_endpoint, get_peer_endpoint, get_peer_identifier, get_plugin_enabled,
    get_sync_interval, ConfigError, Configuration, Draft, Endpoint, Member, PeerEntry,
    DEFAULT_SYNC_INTERVAL_SECONDS,
};
use vara_orthanc::host::{LogEntry, LogLevel};

const FULL: &str = r#"{
    "VaraProxy": {"Enable": true, "Peer": "backup", "PeriodicSyncIntervalSeconds": 120},
    "RegisteredUsers": {"admin": "secret", "other": "x"},
    "HttpPort": 8042,
    "OrthancPeers": {
        "backup": ["http://peer:8042", "peeruser", "peerpass"],
        "unused": ["http://unused", "u", "p"]
    }
}"#;

fn plain_config() -> Configuration {
    Configuration {
        enable: false,
        peer: None,
        sync_interval: None,
        admin_password: "pw".to_string(),
        http_port: 9042,
        peers: Vec::new(),
    }
}

fn row(identifier: &str, url: &str) -> PeerEntry {
    PeerEntry {
        identifier: identifier.to_string(),
        url: url.to_string(),
        username: "u".to_string(),
        password: "p".to_string(),
    }
}

#[test]
fn parse_reads_every_recognised_key() {
    let config = Configuration::parse(FULL).unwrap();
    assert_eq!(
        config,
        Configuration {
            enable: true,
            peer: Some("backup".to_string()),
            sync_interval: Some(120),
            admin_password: "secret".to_string(),
            http_port: 8042,
            peers: vec![PeerEntry {
                identifier: "backup".to_string(),
                url: "http://peer:8042".to_string(),
                username: "peeruser".to_string(),
                password: "peerpass".to_string(),
            }],
        }
    );
}

#[test]
fn parse_takes_defaults_for_what_is_optional() {
    let config = Configuration::parse(r#"{"RegisteredUsers": {"admin": "a"}, "HttpPort": 1}"#).unwrap();
    assert_eq!(
        config,
        Configuration {
            enable: false,
            peer: None,
            sync_interval: None,
            admin_password: "a".to_string(),
            http_port: 1,
            peers: Vec::new(),
        }
    );
}

#[test]
fn parse_reads_null_members_as_absent() {
    let text = r#"{"VaraProxy": {"Enable": null, "Peer": null, "PeriodicSyncIntervalSeconds": null},
                   "RegisteredUsers": {"admin": "a"}, "HttpPort": 80, "OrthancPeers": null}"#;
    let config = Configuration::parse(text).unwrap();
    assert!(!config.enable);
    assert_eq!(config.peer, None);
    assert_eq!(config.sync_interval, None);
    assert!(config.peers.is_empty());
}

#[test]
fn parse_ignores_an_interval_that_is_no_unsigned_integer() {
    for interval in ["-5", "1.5", "\"60\"", "true", "[60]"] {
        let text = format!(
            r#"{{"VaraProxy": {{"PeriodicSyncIntervalSeconds": {}}}, "RegisteredUsers": {{"admin": "a"}}, "HttpPort": 80}}"#,
            interval
        );
        let config = Configuration::parse(&text).unwrap();
        assert_eq!(config.sync_interval, None);
        assert_eq!(get_sync_interval(&config), 600);
    }
}

#[test]
fn parse_leaves_out_a_peer_row_that_is_malformed() {
    for entry in ["[\"http://peer\", \"u\"]", "{\"Url\": \"http://peer\"}", "[\"http://peer\", 1, \"p\"]", "null"] {
        let text = format!(
            r#"{{"VaraProxy": {{"Peer": "backup"}}, "RegisteredUsers": {{"admin": "a"}}, "HttpPort": 80,
                "OrthancPeers": {{"backup": {}}}}}"#,
            entry
        );
        let config = Configuration::parse(&text).unwrap();
        assert_eq!(config.peer, Some("backup".to_string()));
        assert!(config.peers.is_empty());
        assert_eq!(get_peer_endpoint(&config).endpoint, None);
    }
}

#[test]
fn parse_reads_the_first_three_of_a_longer_row() {
    let text = r#"{"VaraProxy": {"Peer": "b"}, "RegisteredUsers": {"admin": "a"}, "HttpPort": 80,
                   "OrthancPeers": {"b": ["http://b", "bu", "bp", "extra"]}}"#;
    let config = Configuration::parse(text).unwrap();
    assert_eq!(
        get_peer_endpoint(&config).endpoint,
        Some(Endpoint { url: "http://b".to_string(), username: "bu".to_string(), password: "bp".to_string() })
    );
}

#[test]
fn parse_turns_down_what_is_not_json() {
    assert_eq!(Configuration::parse("{"), Err(ConfigError::NotJson));
    assert_eq!(Configuration::parse(""), Err(ConfigError::NotJson));
    assert_eq!(Configuration::parse("{} {}"), Err(ConfigError::NotJson));
}

#[test]
fn parse_turns_down_an_enable_that_is_no_boolean() {
    let text = r#"{"VaraProxy": {"Enable": "yes"}, "RegisteredUsers": {"admin": "a"}, "HttpPort": 80}"#;
    assert_eq!(Configuration::parse(text), Err(ConfigError::EnableNotBoolean));
}

#[test]
fn parse_turns_down_a_peer_that_is_no_string() {
    let text = r#"{"VaraProxy": {"Peer": 7}, "RegisteredUsers": {"admin": "a"}, "HttpPort": 80}"#;
    assert_eq!(Configuration::parse(text), Err(ConfigError::PeerNotText));
}

#[test]
fn parse_turns_down_a_missing_admin_credential() {
    assert_eq!(Configuration::parse(r#"{"HttpPort": 80}"#), Err(ConfigError::MissingAdminCredential));
    assert_eq!(
        Configuration::parse(r#"{"RegisteredUsers": {"admin": 5}, "HttpPort": 80}"#),
        Err(ConfigError::MissingAdminCredential)
    );
    assert_eq!(
        Configuration::parse(r#"{"RegisteredUsers": ["admin"], "HttpPort": 80}"#),
        Err(ConfigError::MissingAdminCredential)
    );
}

#[test]
fn parse_turns_down_a_missing_port() {
    assert_eq!(
        Configuration::parse(r#"{"RegisteredUsers": {"admin": "a"}}"#),
        Err(ConfigError::MissingHttpPort)
    );
    assert_eq!(
        Configuration::parse(r#"{"RegisteredUsers": {"admin": "a"}, "HttpPort": "8042"}"#),
        Err(ConfigError::MissingHttpPort)
    );
    assert_eq!(
        Configuration::parse(r#"{"RegisteredUsers": {"admin": "a"}, "HttpPort": -1}"#),
        Err(ConfigError::MissingHttpPort)
    );
}

#[test]
fn parse_of_a_document_that_is_no_object() {
    assert_eq!(Configuration::parse("[1, 2]"), Err(ConfigError::MissingAdminCredential));
    assert_eq!(Configuration::parse("null"), Err(ConfigError::MissingAdminCredential));
}

#[test]
fn from_bytes_reads_utf8_and_turns_down_the_rest() {
    assert_eq!(Configuration::from_bytes(FULL.as_bytes()), Configuration::parse(FULL));
    assert_eq!(Configuration::from_bytes(&[0x7b, 0xff, 0x7d]), Err(ConfigError::NotText));
    assert_eq!(Configuration::from_bytes(b"{"), Err(ConfigError::NotJson));
}

#[test]
fn clone_keeps_every_field() {
    let config = Configuration::parse(FULL).unwrap();
    assert_eq!(config.clone(), config);
    let entry = row("a", "http://a");
    assert_eq!(entry.clone(), entry);
}

#[test]
fn plugin_enabled_is_the_flag() {
    let mut config = plain_config();
    assert!(!get_plugin_enabled(&config));
    config.enable = true;
    assert!(get_plugin_enabled(&config));
}

#[test]
fn local_endpoint_is_localhost_at_the_port_as_admin() {
    let endpoint = get_local_endpoint(&plain_config());
    assert_eq!(
        endpoint,
        Endpoint {
            url: "http://localhost:9042".to_string(),
            username: "admin".to_string(),
            password: "pw".to_string(),
        }
    );
    let mut config = plain_config();
    config.http_port = 0;
    assert_eq!(get_local_endpoint(&config).url, "http://localhost:0");
    config.http_port = u64::MAX;
    assert_eq!(get_local_endpoint(&config).url, "http://localhost:18446744073709551615");
}

#[test]
fn endpoint_text_leaves_the_password_out() {
    let endpoint = get_local_endpoint(&plain_config());
    assert_eq!(endpoint.to_text(), "Url: http://localhost:9042 Username: admin");
    assert_eq!(endpoint.clone_endpoint(), endpoint);
}

#[test]
fn peer_identifier_is_the_configured_peer() {
    let mut config = plain_config();
    config.peer = Some("backup".to_string());
    assert_eq!(get_peer_identifier(&config), "backup");
}

#[test]
fn peer_endpoint_with_peer_unset_is_unconfigured_with_one_error() {
    let mut config = plain_config();
    config.peers = vec![row("backup", "http://peer")];
    let lookup = get_peer_endpoint(&config);
    assert_eq!(lookup.endpoint, None);
    assert_eq!(
        lookup.log,
        vec![LogEntry {
            level: LogLevel::Error,
            message: "Please configure \"VaraProxy\" -> \"Peer\" in orthanc configuration.".to_string(),
        }]
    );
}

#[test]
fn peer_endpoint_with_no_row_is_unconfigured_with_one_error() {
    let mut config = plain_config();
    config.peer = Some("backup".to_string());
    config.peers = vec![row("other", "http://other")];
    let lookup = get_peer_endpoint(&config);
    assert_eq!(lookup.endpoint, None);
    assert_eq!(
        lookup.log,
        vec![LogEntry {
            level: LogLevel::Error,
            message: "Please configure peer identifier: backup".to_string(),
        }]
    );
}

#[test]
fn peer_endpoint_is_the_first_row_of_that_name() {
    let mut config = plain_config();
    config.peer = Some("backup".to_string());
    config.peers = vec![row("other", "http://other"), row("backup", "http://first"), row("backup", "http://second")];
    let lookup = get_peer_endpoint(&config);
    assert_eq!(
        lookup.endpoint,
        Some(Endpoint { url: "http://first".to_string(), username: "u".to_string(), password: "p".to_string() })
    );
    assert!(lookup.log.is_empty());
}

#[test]
fn sync_interval_defaults_to_ten_minutes() {
    let mut config = plain_config();
    assert_eq!(get_sync_interval(&config), 600);
    assert_eq!(DEFAULT_SYNC_INTERVAL_SECONDS, 600);
    config.sync_interval = Some(0);
    assert_eq!(get_sync_interval(&config), 0);
    config.sync_interval = Some(u64::MAX);
    assert_eq!(get_sync_interval(&config), u64::MAX);
}

fn full_draft() -> Draft {
    Draft {
        enable: Member::Given(true),
        peer: Member::Given("backup".to_string()),
        sync_interval: Some(120),
        admin_password: Some("secret".to_string()),
        http_port: Some(8042),
        peer_row: Some(row("backup", "http://peer")),
    }
}

#[test]
fn draft_is_read_member_by_member() {
    let document: serde_json::Value = serde_json::from_str(FULL).unwrap();
    assert_eq!(
        Draft::read(&document),
        Draft {
            enable: Member::Given(true),
            peer: Member::Given("backup".to_string()),
            sync_interval: Some(120),
            admin_password: Some("secret".to_string()),
            http_port: Some(8042),
            peer_row: Some(PeerEntry {
                identifier: "backup".to_string(),
                url: "http://peer:8042".to_string(),
                username: "peeruser".to_string(),
                password: "peerpass".to_string(),
            }),
        }
    );
    let document: serde_json::Value =
        serde_json::from_str(r#"{"VaraProxy": {"Enable": 1, "Peer": []}, "HttpPort": 1.5}"#).unwrap();
    assert_eq!(
        Draft::read(&document),
        Draft {
            enable: Member::Mistyped,
            peer: Member::Mistyped,
            sync_interval: None,
            admin_password: None,
            http_port: None,
            peer_row: None,
        }
    );
    let document: serde_json::Value = serde_json::from_str("17").unwrap();
    assert_eq!(
        Draft::read(&document),
        Draft {
            enable: Member::Absent,
            peer: Member::Absent,
            sync_interval: None,
            admin_password: None,
            http_port: None,
            peer_row: None,
        }
    );
}

#[test]
fn draft_settles_into_a_configuration() {
    assert_eq!(
        Configuration::from_draft(full_draft()),
        Ok(Configuration {
            enable: true,
            peer: Some("backup".to_string()),
            sync_interval: Some(120),
            admin_password: "secret".to_string(),
            http_port: 8042,
            peers: vec![row("backup", "http://peer")],
        })
    );
    let mut draft = full_draft();
    draft.enable = Member::Absent;
    draft.peer = Member::Absent;
    draft.sync_interval = None;
    draft.peer_row = None;
    assert_eq!(
        Configuration::from_draft(draft),
        Ok(Configuration {
            enable: false,
            peer: None,
            sync_interval: None,
            admin_password: "secret".to_string(),
            http_port: 8042,
            peers: Vec::new(),
        })
    );
}

#[test]
fn draft_is_turned_down_for_the_first_fault() {
    let mut draft = full_draft();
    draft.http_port = None;
    assert_eq!(Configuration::from_draft(draft), Err(ConfigError::MissingHttpPort));
    let mut draft = full_draft();
    draft.http_port = None;
    draft.admin_password = None;
    assert_eq!(Configuration::from_draft(draft), Err(ConfigError::MissingAdminCredential));
    let mut draft = full_draft();
    draft.admin_password = None;
    draft.peer = Member::Mistyped;
    assert_eq!(Configuration::from_draft(draft), Err(ConfigError::PeerNotText));
    let mut draft = full_draft();
    draft.peer = Member::Mistyped;
    draft.enable = Member::Mistyped;
    assert_eq!(Configuration::from_draft(draft), Err(ConfigError::EnableNotBoolean));
}
