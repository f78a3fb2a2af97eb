use tailsnip::config::{
    config_root, listen_text, read_failure, template_config, template_create_failure, Config,
    ConfigRoot, RawConfig, WrittenAddress, DEFAULT_DAEMON_LISTEN,
};
use tailsnip::error::AppError;

/// What the address parser makes of the addresses these tests write: the
/// valid ones display as written.
fn parse_outcome(text: &str) -> Option<String> {
    const VALID: [&str; 12] = [
        "127.0.0.1:3947",
        "0.0.0.0:1",
        "100.64.0.10:3947",
        "100.64.0.11:3947",
        "100.64.0.12:3947",
        "100.64.0.10:1",
        "100.64.0.10:2",
        "100.10.10.10:1010",
        "100.10.10.11:1010",
        "[::1]:3947",
        "100.10.0.10:3947",
        "100.10.0.11:3947",
    ];
    if VALID.contains(&text) {
        Some(text.to_string())
    } else {
        None
    }
}

fn written(text: &str) -> WrittenAddress {
    WrittenAddress {
        written: text.to_string(),
        parsed: parse_outcome(text),
    }
}

fn raw_from_toml(contents: &str) -> RawConfig {
    let table: toml::Table = contents.parse().unwrap();
    let token = table
        .get("token")
        .map(|value| value.as_str().unwrap().to_string());
    let listen = table
        .get("daemon")
        .and_then(|daemon| daemon.get("listen"))
        .map(|value| value.as_str().unwrap().to_string());
    let devices = table.get("devices").map(|devices| {
        devices
            .as_table()
            .unwrap()
            .iter()
            .map(|(alias, address)| (alias.clone(), written(address.as_str().unwrap())))
            .collect::<Vec<_>>()
    });
    let listen = listen_text(listen);
    RawConfig {
        token,
        listen: written(&listen),
        devices,
    }
}

fn load(contents: &str) -> Result<Config, AppError> {
    Config::validate(raw_from_toml(contents))
}

#[test]
fn loads_valid_config() {
    let config = load(
        r#"
token = "secret-token"

[daemon]
listen = "127.0.0.1:3947"

[devices]
macbook = "100.64.0.10:3947"
desktop = "100.64.0.11:3947"
            "#,
    )
    .unwrap();

    assert_eq!(config.token, "secret-token");
    assert_eq!(config.daemon.listen, "127.0.0.1:3947");
    assert_eq!(config.device_entries().len(), 2);
    assert_eq!(config.devices.get("macbook").unwrap(), "100.64.0.10:3947");
}

#[test]
fn rejects_missing_token() {
    let err = load(
        r#"
[devices]
macbook = "100.64.0.10:3947"
            "#,
    )
    .err()
    .unwrap();
    assert!(
        matches!(err, AppError::ConfigValidation(msg) if msg.contains("missing required field: token"))
    );
}

#[test]
fn rejects_empty_token() {
    let err = load(
        r#"
token = ""

[devices]
macbook = "100.64.0.10:3947"
            "#,
    )
    .err()
    .unwrap();
    assert!(
        matches!(err, AppError::ConfigValidation(msg) if msg.contains("token cannot be empty"))
    );
}

#[test]
fn allows_missing_devices_table() {
    let config = load(
        r#"
token = "secret-token"
            "#,
    )
    .unwrap();
    assert!(config.devices.is_empty());
}

#[test]
fn applies_default_daemon_listen_address_when_omitted() {
    let config = load(
        r#"
token = "secret-token"

[devices]
macbook = "100.64.0.10:3947"
            "#,
    )
    .unwrap();
    assert_eq!(config.daemon.listen, DEFAULT_DAEMON_LISTEN);
}

#[test]
fn rejects_empty_devices_table() {
    let err = load(
        r#"
token = "secret-token"

[devices]
            "#,
    )
    .err()
    .unwrap();
    assert!(
        matches!(err, AppError::ConfigValidation(msg) if msg.contains("devices must contain at least one entry"))
    );
}

#[test]
fn rejects_invalid_alias() {
    let err = load(
        r#"
token = "secret-token"

[devices]
"My Laptop" = "100.64.0.10:3947"
            "#,
    )
    .err()
    .unwrap();
    assert!(
        matches!(err, AppError::ConfigValidation(msg) if msg.contains("invalid device alias 'My Laptop'"))
    );
}

#[test]
fn rejects_invalid_device_address() {
    let err = load(
        r#"
token = "secret-token"

[devices]
macbook = "invalid-address"
            "#,
    )
    .err()
    .unwrap();
    assert!(
        matches!(err, AppError::ConfigValidation(msg) if msg.contains("device 'macbook' has invalid address 'invalid-address'"))
    );
}

#[test]
fn rejects_invalid_daemon_listen_address() {
    let err = load(
        r#"
token = "secret-token"

[daemon]
listen = "invalid-address"

[devices]
macbook = "100.10.10.10:1010"
desktop = "100.10.10.11:1010"
            "#,
    )
    .err()
    .unwrap();
    assert!(
        matches!(err, AppError::ConfigValidation(msg) if msg.contains("daemon.listen has invalid address 'invalid-address'"))
    );
}

#[test]
fn resolves_known_device_alias() {
    let config = load(
        r#"
token = "secret-token"

[devices]
macbook = "100.64.0.10:3947"
            "#,
    )
    .unwrap();
    let address = config.resolve_device("macbook").unwrap();
    assert_eq!(address, "100.64.0.10:3947");
}

#[test]
fn rejects_unknown_device_alias() {
    let config = load(
        r#"
token = "secret-token"

[devices]
macbook = "100.64.0.10:3947"
            "#,
    )
    .unwrap();
    let err = config.resolve_device("desktop").err().unwrap();
    assert!(matches!(err, AppError::DeviceNotFound(alias) if alias == "desktop"));
}

#[test]
fn returns_sorted_device_entries_for_operator_output() {
    let config = load(
        r#"
token = "secret-token"

[devices]
desktop = "100.64.0.11:3947"
air = "100.64.0.12:3947"
macbook = "100.64.0.10:3947"
            "#,
    )
    .unwrap();
    let aliases: Vec<_> = config
        .device_entries()
        .into_iter()
        .map(|entry| entry.alias)
        .collect();

    assert_eq!(aliases, ["air", "desktop", "macbook"]);
}

#[test]
fn template_config_holds_placeholder_token_and_default_listen() {
    let contents = template_config();
    assert!(contents.contains("token = \"change-me\""));
    assert!(contents.contains("[daemon]"));
    assert!(contents.contains("listen = \"127.0.0.1:3947\""));
    assert!(!contents.contains("[devices]"));
}

#[test]
fn template_config_is_accepted_once_parsed() {
    let config = load(&template_config()).unwrap();
    assert_eq!(config.token, "change-me");
    assert_eq!(config.daemon.listen, "127.0.0.1:3947");
    assert!(config.devices.is_empty());
}

#[test]
fn whitespace_only_token_is_rejected() {
    let err = load("token = \" \\t \"\n").err().unwrap();
    assert!(matches!(err, AppError::ConfigValidation(msg) if msg == "token cannot be empty"));
}

#[test]
fn blank_alias_is_rejected() {
    let err = load("token = \"t\"\n[devices]\n\" \" = \"100.64.0.10:3947\"\n")
        .err()
        .unwrap();
    assert!(
        matches!(err, AppError::ConfigValidation(msg) if msg == "devices alias cannot be empty")
    );
}

#[test]
fn empty_device_address_is_rejected() {
    let err = load("token = \"t\"\n[devices]\nmacbook = \"  \"\n")
        .err()
        .unwrap();
    assert!(
        matches!(err, AppError::ConfigValidation(msg) if msg == "device 'macbook' has an empty address")
    );
}

#[test]
fn full_invalid_messages_name_the_expected_forms() {
    let err = load("token = \"t\"\n[devices]\nmacbook = \"nope\"\n")
        .err()
        .unwrap();
    assert_eq!(
        err.message(),
        "invalid config: device 'macbook' has invalid address 'nope' (expected HOST:PORT with a valid IP address)"
    );
    let err = load("token = \"t\"\n[daemon]\nlisten = \"nope\"\n")
        .err()
        .unwrap();
    assert_eq!(
        err.message(),
        "invalid config: daemon.listen has invalid address 'nope' (expected IP:PORT)"
    );
    let err = load("token = \"t\"\n[devices]\nBad = \"100.64.0.10:3947\"\n")
        .err()
        .unwrap();
    assert_eq!(
        err.message(),
        "invalid config: invalid device alias 'Bad' (allowed: lowercase letters, digits, '-' and '_')"
    );
}

#[test]
fn first_refused_pair_in_table_order_is_reported() {
    // "a bad" sorts before "zz", so it is the one reported
    let err = load("token = \"t\"\n[devices]\nzz = \"nope\"\n\"a bad\" = \"100.64.0.10:3947\"\n")
        .err()
        .unwrap();
    assert!(matches!(err, AppError::ConfigValidation(msg) if msg.contains("invalid device alias 'a bad'")));
}

#[test]
fn ipv6_addresses_are_kept_in_display_form() {
    let config = load("token = \"t\"\n[devices]\nv6 = \"[::1]:3947\"\n").unwrap();
    assert_eq!(config.resolve_device("v6").unwrap(), "[::1]:3947");
}

#[test]
fn later_pair_with_same_alias_replaces_earlier() {
    let raw = RawConfig {
        token: Some("t".to_string()),
        listen: written(DEFAULT_DAEMON_LISTEN),
        devices: Some(vec![
            ("mac".to_string(), written("100.64.0.10:1")),
            ("mac".to_string(), written("100.64.0.10:2")),
        ]),
    };
    let config = Config::validate(raw).unwrap();
    assert_eq!(config.resolve_device("mac").unwrap(), "100.64.0.10:2");
    assert_eq!(config.device_entries().len(), 1);
}

#[test]
fn parse_failures_are_reported_against_the_path() {
    let err = Config::from_parse_result("/tmp/x.toml", Err("bad toml".to_string()))
        .err()
        .unwrap();
    assert_eq!(
        err.message(),
        "failed to parse config file '/tmp/x.toml': bad toml"
    );
}

#[test]
fn read_failures_distinguish_missing_files() {
    let missing = read_failure("/tmp/x.toml", true, "no such file".to_string());
    assert_eq!(
        missing.message(),
        "config file not found at '/tmp/x.toml': run 'tailsnip init' to create a template config"
    );
    let other = read_failure("/tmp/x.toml", false, "denied".to_string());
    assert_eq!(other.message(), "failed to access config file '/tmp/x.toml': denied");
}

#[test]
fn template_creation_failures_distinguish_existing_files() {
    let exists = template_create_failure("/tmp/x.toml", true, "exists".to_string());
    assert_eq!(exists.message(), "config file already exists at '/tmp/x.toml'");
    let other = template_create_failure("/tmp/x.toml", false, "denied".to_string());
    assert!(matches!(other, AppError::ConfigIo { source, .. } if source == "denied"));
}

#[test]
fn config_root_prefers_xdg_config_home() {
    assert_eq!(config_root(true, true).unwrap(), ConfigRoot::XdgConfigHome);
    assert_eq!(config_root(true, false).unwrap(), ConfigRoot::XdgConfigHome);
    assert_eq!(config_root(false, true).unwrap(), ConfigRoot::Home);
    let err = config_root(false, false).err().unwrap();
    assert_eq!(
        err.message(),
        "unable to determine config directory: HOME is not set and XDG_CONFIG_HOME is not available"
    );
}

#[test]
fn listen_text_defaults_when_absent() {
    assert_eq!(listen_text(None), "127.0.0.1:3947");
    assert_eq!(listen_text(Some("0.0.0.0:1".to_string())), "0.0.0.0:1");
}

#[test]
fn device_entries_has_one_entry_per_peer() {
    let config = load(
        "token = \"t\"\n[devices]\nb = \"100.64.0.10:3947\"\na = \"100.64.0.11:3947\"\n",
    )
    .unwrap();
    assert_eq!(config.device_entries().len(), config.devices.len());
    let copy = config.duplicate();
    assert_eq!(copy.token, config.token);
    assert_eq!(copy.device_entries(), config.device_entries());
}
