use tailsnip::clipboard::{
    command_error, describe_exit, detect_capability, osascript_command, osascript_next,
    pbcopy_command, read_outcome, wl_copy_early_exit, wl_copy_owner_command, write_outcome,
    Clipboard, ClipboardBackend, ClipboardCapability, ClipboardEnvironment, CommandFailure,
    HostOs, OsascriptNext, WriteMethod,
};
use tailsnip::clipboard::{after_grace, poll_step, GraceOutcome, PollAction, PollEvent};
use tailsnip::error::AppError;

fn all_environments() -> Vec<ClipboardEnvironment> {
    let mut out = Vec::new();
    for os in [HostOs::MacOs, HostOs::Linux, HostOs::Other] {
        for bits in 0u32..128 {
            let bit = |n: u32| bits & (1 << n) != 0;
            out.push(ClipboardEnvironment {
                os,
                has_pbcopy: bit(0),
                has_pbpaste: bit(1),
                wayland_display_set: bit(2),
                has_wl_copy: bit(3),
                has_wl_paste: bit(4),
                display_set: bit(5),
                has_xclip: bit(6),
            });
        }
    }
    out
}

fn linux() -> ClipboardEnvironment {
    ClipboardEnvironment {
        os: HostOs::Linux,
        has_pbcopy: false,
        has_pbpaste: false,
        wayland_display_set: false,
        has_wl_copy: false,
        has_wl_paste: false,
        display_set: false,
        has_xclip: false,
    }
}

#[test]
fn capability_shape_is_consistent() {
    for env in all_environments() {
        let capability = detect_capability(&env);

        if capability.supported {
            assert!(capability.backend.is_some());
            assert!(capability.reason.is_none());
        } else {
            assert!(capability.backend.is_none());
            assert!(capability.reason.is_some());
        }
    }
}

#[test]
fn wayland_is_preferred_to_x11() {
    let env = ClipboardEnvironment {
        wayland_display_set: true,
        has_wl_copy: true,
        has_wl_paste: true,
        display_set: true,
        has_xclip: true,
        ..linux()
    };
    assert_eq!(
        detect_capability(&env),
        ClipboardCapability {
            supported: true,
            backend: Some(ClipboardBackend::LinuxWayland),
            reason: None
        }
    );
    let without_paste = ClipboardEnvironment {
        has_wl_paste: false,
        ..env
    };
    assert_eq!(
        detect_capability(&without_paste).backend,
        Some(ClipboardBackend::LinuxXclip)
    );
    // writing only needs wl-copy
    let writer = Clipboard::detect_for_write(&without_paste).unwrap();
    assert_eq!(writer.backend(), ClipboardBackend::LinuxWayland);
}

#[test]
fn unsupported_hosts_give_their_reason() {
    let err = Clipboard::detect(&linux()).err().unwrap();
    assert_eq!(
        err.message(),
        "clipboard unavailable: no supported Linux clipboard backend found; support requires Wayland with 'wl-copy'/'wl-paste' or X11 with 'xclip'"
    );
    let mac = ClipboardEnvironment {
        os: HostOs::MacOs,
        has_pbcopy: true,
        ..linux()
    };
    assert!(matches!(
        Clipboard::detect(&mac),
        Err(AppError::ClipboardUnavailable(m)) if m == "macOS clipboard tools 'pbcopy' and/or 'pbpaste' are unavailable"
    ));
    let other = ClipboardEnvironment {
        os: HostOs::Other,
        ..linux()
    };
    assert!(matches!(
        Clipboard::detect_for_write(&other),
        Err(AppError::ClipboardUnavailable(m)) if m == "clipboard support is only implemented for macOS and Linux"
    ));
    assert!(matches!(
        Clipboard::detect_for_write(&linux()),
        Err(AppError::ClipboardUnavailable(m)) if m.starts_with("no supported Linux clipboard write backend found")
    ));
}

#[test]
fn detect_succeeds_exactly_when_supported() {
    for env in all_environments() {
        let capability = detect_capability(&env);
        match Clipboard::detect(&env) {
            Ok(clipboard) => {
                assert!(capability.supported);
                assert_eq!(Some(clipboard.backend()), capability.backend);
            }
            Err(AppError::ClipboardUnavailable(reason)) => {
                assert!(!capability.supported);
                assert_eq!(Some(reason), capability.reason);
            }
            Err(other) => panic!("unexpected error {other:?}"),
        }
    }
}

#[test]
fn macos_reads_need_pbpaste_and_writes_use_pbcopy_without_probing() {
    let mac = ClipboardEnvironment {
        os: HostOs::MacOs,
        ..linux()
    };
    assert!(matches!(
        Clipboard::for_local_read(&mac),
        Err(AppError::ClipboardUnavailable(m)) if m == "macOS clipboard tools 'pbcopy' and/or 'pbpaste' are unavailable"
    ));
    let mac_with_pbpaste = ClipboardEnvironment {
        has_pbpaste: true,
        ..mac
    };
    assert_eq!(
        Clipboard::for_local_read(&mac_with_pbpaste).unwrap().backend(),
        ClipboardBackend::MacOsPbcopy
    );
    assert_eq!(
        Clipboard::for_local_write(&mac).unwrap().backend(),
        ClipboardBackend::MacOsPbcopy
    );
    assert!(Clipboard::for_local_read(&linux()).is_err());
}

#[test]
fn backend_round_trips_through_clipboard() {
    for backend in [
        ClipboardBackend::MacOsPbcopy,
        ClipboardBackend::LinuxWayland,
        ClipboardBackend::LinuxXclip,
    ] {
        assert_eq!(Clipboard::from_backend(backend).backend(), backend);
    }
    assert_eq!(ClipboardBackend::LinuxXclip.name(), "LinuxXclip");
    assert_eq!(ClipboardBackend::MacOsPbcopy.name(), format!("{:?}", ClipboardBackend::MacOsPbcopy));
}

#[test]
fn read_commands_per_backend() {
    let c = Clipboard::from_backend(ClipboardBackend::LinuxXclip).read_command();
    assert_eq!(c.program, "xclip");
    assert_eq!(c.args, ["-selection", "clipboard", "-o"]);
    let c = Clipboard::from_backend(ClipboardBackend::LinuxWayland).read_command();
    assert_eq!(c.program, "wl-paste");
    assert_eq!(c.args, ["--no-newline"]);
    let c = Clipboard::from_backend(ClipboardBackend::MacOsPbcopy).read_command();
    assert_eq!(c.program, "pbpaste");
    assert!(c.args.is_empty());
}

#[test]
fn write_methods_per_backend() {
    assert!(matches!(
        Clipboard::from_backend(ClipboardBackend::MacOsPbcopy).write_method(),
        WriteMethod::OsascriptOrPbcopy
    ));
    assert!(matches!(
        Clipboard::from_backend(ClipboardBackend::LinuxWayland).write_method(),
        WriteMethod::WaylandOwner
    ));
    match Clipboard::from_backend(ClipboardBackend::LinuxXclip).write_method() {
        WriteMethod::Command { command, grace_ms } => {
            assert_eq!(command.program, "xclip");
            assert_eq!(command.args, ["-selection", "clipboard"]);
            assert_eq!(grace_ms, 150);
        }
        _ => panic!("xclip writes run a command"),
    }
    assert_eq!(pbcopy_command().program, "pbcopy");
    assert_eq!(
        wl_copy_owner_command().args,
        ["--foreground", "--type", "text/plain"]
    );
    let osa = osascript_command("hi there");
    assert_eq!(osa.program, "osascript");
    assert_eq!(osa.args.last().unwrap(), "hi there");
    assert_eq!(osa.args[1], "on run argv");
}

#[test]
fn wayland_owner_only_for_wayland() {
    assert!(Clipboard::from_backend(ClipboardBackend::LinuxWayland)
        .check_wayland_owner()
        .is_ok());
    let err = Clipboard::from_backend(ClipboardBackend::LinuxXclip)
        .check_wayland_owner()
        .err()
        .unwrap();
    assert_eq!(
        err.message(),
        "failed to write clipboard: wayland owner process is only supported for Linux Wayland backend"
    );
}

#[test]
fn osascript_outcomes() {
    assert!(matches!(osascript_next(true, "noise"), OsascriptNext::Done));
    assert!(matches!(osascript_next(false, " \n"), OsascriptNext::FallBack));
    assert!(matches!(
        osascript_next(false, "  denied\n"),
        OsascriptNext::Fail(AppError::ClipboardWrite(m)) if m == "'osascript' failed: denied"
    ));
}

#[test]
fn exit_descriptions_use_trimmed_stderr_or_status() {
    assert_eq!(
        describe_exit("xclip", "\n  Error: no display \n", "exit status: 1"),
        "'xclip' failed: Error: no display"
    );
    assert_eq!(
        describe_exit("xclip", "  ", "exit status: 1"),
        "'xclip' exited with status exit status: 1"
    );
}

#[test]
fn command_errors_follow_the_direction() {
    let e = command_error("pbpaste", true, CommandFailure::TimedOut(2));
    assert!(matches!(&e, AppError::ClipboardRead(m) if m == "'pbpaste' timed out after 2s"));
    let e = command_error("pbcopy", false, CommandFailure::TimedOut(120));
    assert!(matches!(&e, AppError::ClipboardWrite(m) if m == "'pbcopy' timed out after 120s"));
    let e = command_error("xclip", false, CommandFailure::StdinUnavailable);
    assert_eq!(e.message(), "failed to write clipboard: failed to open stdin for 'xclip'");
    let e = command_error("xclip", false, CommandFailure::Spawn("not found".into()));
    assert_eq!(e.message(), "failed to write clipboard: failed to execute 'xclip': not found");
    let e = command_error("xclip", false, CommandFailure::StdinWrite("pipe".into()));
    assert_eq!(
        e.message(),
        "failed to write clipboard: failed to write clipboard input to 'xclip': pipe"
    );
    let e = command_error("xclip", true, CommandFailure::Wait("gone".into()));
    assert_eq!(e.message(), "failed to read clipboard: failed while waiting for 'xclip': gone");
    let e = command_error("xclip", true, CommandFailure::Finish("gone".into()));
    assert_eq!(
        e.message(),
        "failed to read clipboard: failed to wait for 'xclip' to finish: gone"
    );
    let e = command_error(
        "xclip",
        true,
        CommandFailure::Exited {
            stderr: "boom".into(),
            status: "exit status: 2".into(),
        },
    );
    assert_eq!(e.message(), "failed to read clipboard: 'xclip' failed: boom");
    let e = command_error("xclip", true, CommandFailure::NotUtf8("bad byte".into()));
    assert_eq!(
        e.message(),
        "failed to read clipboard: clipboard output was not valid UTF-8: bad byte"
    );
}

#[test]
fn read_outcome_decodes_utf8_output() {
    assert_eq!(
        read_outcome("pbpaste", true, "", "exit status: 0", "héllo".as_bytes().to_vec()).unwrap(),
        "héllo"
    );
    let err = read_outcome("pbpaste", true, "", "exit status: 0", vec![0xff, 0xfe])
        .err()
        .unwrap();
    assert!(
        matches!(err, AppError::ClipboardRead(m) if m.starts_with("clipboard output was not valid UTF-8: "))
    );
    let err = read_outcome("pbpaste", false, "", "exit status: 1", b"ignored".to_vec())
        .err()
        .unwrap();
    assert!(matches!(err, AppError::ClipboardRead(m) if m == "'pbpaste' exited with status exit status: 1"));
}

#[test]
fn write_outcomes() {
    assert!(write_outcome("xclip", true, "whatever", "exit status: 0").is_ok());
    assert!(matches!(
        write_outcome("xclip", false, "bad", "exit status: 1"),
        Err(AppError::ClipboardWrite(m)) if m == "'xclip' failed: bad"
    ));
    assert!(matches!(
        wl_copy_early_exit(true, "", "exit status: 0"),
        AppError::ClipboardWrite(m) if m.contains("clipboard ownership was not retained")
    ));
    assert!(matches!(
        wl_copy_early_exit(false, "", "exit status: 3"),
        AppError::ClipboardWrite(m) if m == "'wl-copy' exited with status exit status: 3"
    ));
}

#[test]
fn polling_waits_until_exit_or_deadline() {
    assert!(matches!(poll_step("xclip", false, 150, PollEvent::Exited), PollAction::Exited));
    assert!(matches!(
        poll_step("xclip", false, 150, PollEvent::Running { elapsed_ms: 10 }),
        PollAction::SleepMs(25)
    ));
    assert!(matches!(
        poll_step("xclip", false, 150, PollEvent::Running { elapsed_ms: 150 }),
        PollAction::DeadlinePassed
    ));
    assert!(matches!(
        poll_step("xclip", true, 150, PollEvent::WaitFailed("io".into())),
        PollAction::Fail(AppError::ClipboardRead(m)) if m == "failed while waiting for 'xclip': io"
    ));
}

#[test]
fn writers_still_running_after_grace_have_written() {
    assert_eq!(after_grace(false), GraceOutcome::Written);
    assert_eq!(after_grace(true), GraceOutcome::JudgeExit);
}
