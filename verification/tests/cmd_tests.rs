use tailsnip::cmd::{
    check_remote_text, created_message, fetched_message, parse_command, read_task_failure,
    remote_read_timeout, render_devices, sent_message, Command,
};
use tailsnip::error::AppError;
use tailsnip::types::DeviceEntry;

fn args(items: &[&str]) -> Vec<String> {
    items.iter().map(|s| s.to_string()).collect()
}

#[test]
fn renders_devices_in_order_with_tab_separator() {
    let devices = vec![
        DeviceEntry {
            alias: "desktop".to_string(),
            address: "100.64.0.11:3947".to_string(),
        },
        DeviceEntry {
            alias: "macbook".to_string(),
            address: "100.64.0.10:3947".to_string(),
        },
    ];

    let out = render_devices(&devices);

    assert_eq!(
        out,
        "desktop\t100.64.0.11:3947\nmacbook\t100.64.0.10:3947\n"
    );
}

#[test]
fn renders_empty_device_list_as_empty_output() {
    let out = render_devices(&[]);
    assert!(out.is_empty());
}

#[test]
fn rendering_concatenates() {
    let a = DeviceEntry {
        alias: "a".into(),
        address: "1.2.3.4:5".into(),
    };
    let b = DeviceEntry {
        alias: "b".into(),
        address: "5.6.7.8:9".into(),
    };
    let both = render_devices(&[a.clone(), b.clone()]);
    assert_eq!(both, render_devices(&[a]) + &render_devices(&[b]));
}

#[test]
fn parses_commands() {
    assert!(matches!(parse_command(&args(&["devices"])), Ok(Command::Devices)));
    assert!(matches!(parse_command(&args(&["daemon", "extra"])), Ok(Command::Daemon)));
    assert!(matches!(parse_command(&args(&["init"])), Ok(Command::Init)));
    assert!(matches!(parse_command(&args(&["send", "macbook"])), Ok(Command::Send(t)) if t == "macbook"));
    assert!(matches!(parse_command(&args(&["get", "desktop", "x"])), Ok(Command::Get(t)) if t == "desktop"));
}

#[test]
fn refuses_bad_command_lines() {
    assert!(matches!(
        parse_command(&args(&[])),
        Err(AppError::Message(m)) if m == "no command provided (expected: devices, send, get, daemon, init)"
    ));
    assert!(matches!(
        parse_command(&args(&["send"])),
        Err(AppError::Message(m)) if m == "missing target device"
    ));
    assert!(matches!(
        parse_command(&args(&["get"])),
        Err(AppError::Message(m)) if m == "missing target device"
    ));
    assert!(matches!(
        parse_command(&args(&["Devices"])),
        Err(AppError::Message(m)) if m == "unknown command: Devices"
    ));
}

#[test]
fn get_refuses_empty_remote_clipboard() {
    let err = check_remote_text("macbook", "").err().unwrap();
    assert!(
        matches!(err, AppError::Message(message) if message.contains("remote clipboard from macbook is empty"))
    );
    assert!(check_remote_text("macbook", " ").is_ok());
}

#[test]
fn command_messages() {
    assert_eq!(
        remote_read_timeout("macbook", 5).message(),
        "transport timed out: timed out reading clipboard from macbook after 5s"
    );
    assert_eq!(
        read_task_failure("panicked").message(),
        "clipboard read task failed: panicked"
    );
    assert_eq!(sent_message("macbook"), "sent clipboard to macbook");
    assert_eq!(fetched_message("macbook"), "fetched clipboard from macbook");
    assert_eq!(created_message("/x/tailsnip.toml"), "created config at /x/tailsnip.toml");
}

#[test]
fn rendered_lines_split_back_into_pairs() {
    let devices = vec![
        DeviceEntry {
            alias: "air".into(),
            address: "100.64.0.12:3947".into(),
        },
        DeviceEntry {
            alias: "desktop".into(),
            address: "[::1]:3947".into(),
        },
    ];
    let out = render_devices(&devices);
    let back: Vec<DeviceEntry> = out
        .lines()
        .map(|line| {
            let (alias, address) = line.split_once('\t').unwrap();
            DeviceEntry {
                alias: alias.into(),
                address: address.into(),
            }
        })
        .collect();
    assert_eq!(back, devices);
}
