use tailsnip::error::AppError;

#[test]
fn formats_device_not_found_error() {
    let error = AppError::DeviceNotFound("macbook".to_string());
    assert_eq!(error.message(), "unknown device alias 'macbook'");
}

#[test]
fn formats_clipboard_unavailable_error() {
    let error = AppError::ClipboardUnavailable(
        "no supported backend found; install wl-clipboard or xclip".into(),
    );
    assert_eq!(
        error.message(),
        "clipboard unavailable: no supported backend found; install wl-clipboard or xclip"
    );
}

#[test]
fn formats_remote_failure_error() {
    let error = AppError::RemoteFailure("clipboard write rejected".into());
    assert_eq!(
        error.message(),
        "remote operation failed: clipboard write rejected"
    );
}

#[test]
fn formats_every_variant() {
    let p = || "/c/t.toml".to_string();
    let cases = vec![
        (AppError::Message("plain".into()), "plain"),
        (
            AppError::ConfigMissing { path: p(), hint: "h".into() },
            "config file not found at '/c/t.toml': h",
        ),
        (
            AppError::ConfigHomeMissing("r".into()),
            "unable to determine config directory: r",
        ),
        (
            AppError::ConfigDirCreate { path: p(), source: "s".into() },
            "failed to create config directory '/c/t.toml': s",
        ),
        (
            AppError::ConfigAlreadyExists(p()),
            "config file already exists at '/c/t.toml'",
        ),
        (
            AppError::ConfigIo { path: p(), source: "s".into() },
            "failed to access config file '/c/t.toml': s",
        ),
        (
            AppError::ConfigParse { path: p(), source: "s".into() },
            "failed to parse config file '/c/t.toml': s",
        ),
        (AppError::ConfigValidation("v".into()), "invalid config: v"),
        (AppError::ClipboardUnavailable("u".into()), "clipboard unavailable: u"),
        (AppError::ClipboardRead("r".into()), "failed to read clipboard: r"),
        (AppError::ClipboardWrite("w".into()), "failed to write clipboard: w"),
        (AppError::DeviceNotFound("d".into()), "unknown device alias 'd'"),
        (AppError::Transport("t".into()), "transport error: t"),
        (AppError::TransportAuth("a".into()), "authentication failed: a"),
        (AppError::TransportTimeout("o".into()), "transport timed out: o"),
        (
            AppError::TransportUnreachable("n".into()),
            "remote device unreachable: n",
        ),
        (AppError::RemoteFailure("f".into()), "remote operation failed: f"),
        (AppError::DaemonStartup("s".into()), "failed to start daemon: s"),
        (AppError::DaemonRuntime("r".into()), "daemon runtime error: r"),
    ];
    for (error, text) in cases {
        assert_eq!(error.message(), text);
    }
}
