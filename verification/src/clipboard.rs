//! Clipboard backends: which one a host supports, which command each uses,
//! and how the outcome of a clipboard command is judged and reported.
use vstd::prelude::*;
use vstd::utf8::{valid_utf8, decode_utf8};
use crate::error::{AppError, AppResult};
use crate::text::{texts, trimmed, trim_text, join2, join3, join4, decimal, decimal_string};

verus! {

/// Seconds a clipboard command may run before it is stopped.
pub const CLIPBOARD_COMMAND_TIMEOUT_SECS: u64 = 2;

/// Milliseconds between two looks at a running command.
pub const COMMAND_POLL_INTERVAL_MS: u64 = 25;

/// Milliseconds a writer that keeps running is given before the write is
/// taken as done (`pbcopy`, `wl-copy`, `xclip`).
pub const WRITER_GRACE_MS: u64 = 150;

/// Capacity of the queue of finished writers waiting to be reaped.
pub const CHILD_REAPER_QUEUE_CAPACITY: usize = 64;

/// A clipboard backend.
#[derive(Debug, Clone, Copy, PartialEq, Eq, Structural)]
pub enum ClipboardBackend {
    MacOsPbcopy,
    LinuxWayland,
    LinuxXclip,
}

impl ClipboardBackend {
    /// The backend's name as its `Debug` form prints it.
    pub fn name(&self) -> (r: String)
        ensures
            r@ == match self {
                ClipboardBackend::MacOsPbcopy => "MacOsPbcopy"@,
                ClipboardBackend::LinuxWayland => "LinuxWayland"@,
                ClipboardBackend::LinuxXclip => "LinuxXclip"@,
            },
    {
        match self {
            ClipboardBackend::MacOsPbcopy => String::from_str("MacOsPbcopy"),
            ClipboardBackend::LinuxWayland => String::from_str("LinuxWayland"),
            ClipboardBackend::LinuxXclip => String::from_str("LinuxXclip"),
        }
    }
}

/// Whether the host supports a clipboard, with which backend, or why not.
#[derive(Debug, Clone, PartialEq, Eq)]
pub struct ClipboardCapability {
    pub supported: bool,
    pub backend: Option<ClipboardBackend>,
    pub reason: Option<String>,
}

/// The operating system the program runs on.
#[derive(Debug, Clone, Copy, PartialEq, Eq, Structural)]
pub enum HostOs {
    MacOs,
    Linux,
    Other,
}

/// What the host offers for clipboard access: its operating system, the
/// display variables that are set and the clipboard tools that are on the
/// `PATH` as executables.
#[derive(Debug, Clone, Copy)]
pub struct ClipboardEnvironment {
    pub os: HostOs,
    pub has_pbcopy: bool,
    pub has_pbpaste: bool,
    pub wayland_display_set: bool,
    pub has_wl_copy: bool,
    pub has_wl_paste: bool,
    pub display_set: bool,
    pub has_xclip: bool,
}

/// The backend a host supports, if any.
pub open spec fn supported_backend(env: ClipboardEnvironment) -> Option<ClipboardBackend> {
    match env.os {
        HostOs::MacOs => if env.has_pbcopy && env.has_pbpaste {
            Some(ClipboardBackend::MacOsPbcopy)
        } else {
            None
        },
        HostOs::Linux => if env.wayland_display_set && env.has_wl_copy && env.has_wl_paste {
            Some(ClipboardBackend::LinuxWayland)
        } else if env.display_set && env.has_xclip {
            Some(ClipboardBackend::LinuxXclip)
        } else {
            None
        },
        HostOs::Other => None,
    }
}

/// Why a host without a supported backend has none.
pub open spec fn unsupported_reason(os: HostOs) -> Seq<char> {
    match os {
        HostOs::MacOs => "macOS clipboard tools 'pbcopy' and/or 'pbpaste' are unavailable"@,
        HostOs::Linux => "no supported Linux clipboard backend found; support requires Wayland with 'wl-copy'/'wl-paste' or X11 with 'xclip'"@,
        HostOs::Other => "clipboard support is only implemented for macOS and Linux"@,
    }
}

/// The capability of a host: on macOS `pbcopy` and `pbpaste` are needed; on
/// Linux Wayland (with `wl-copy` and `wl-paste`) is preferred to X11 (with
/// `xclip`); other systems are unsupported. A supported capability names its
/// backend and gives no reason; an unsupported one names no backend and
/// gives the reason.
pub fn detect_capability(env: &ClipboardEnvironment) -> (r: ClipboardCapability)
    ensures
        r.backend == supported_backend(*env),
        r.supported == (supported_backend(*env) is Some),
        r.supported ==> r.backend is Some && r.reason is None,
        !r.supported ==> r.backend is None && (r.reason matches Some(m) && m@ == unsupported_reason(
            env.os,
        )),
{
    match env.os {
        HostOs::MacOs => {
            if env.has_pbcopy && env.has_pbpaste {
                return ClipboardCapability {
                    supported: true,
                    backend: Some(ClipboardBackend::MacOsPbcopy),
                    reason: None,
                };
            }
            ClipboardCapability {
                supported: false,
                backend: None,
                reason: Some(
                    String::from_str(
                        "macOS clipboard tools 'pbcopy' and/or 'pbpaste' are unavailable",
                    ),
                ),
            }
        },
        HostOs::Linux => {
            if env.wayland_display_set && env.has_wl_copy && env.has_wl_paste {
                return ClipboardCapability {
                    supported: true,
                    backend: Some(ClipboardBackend::LinuxWayland),
                    reason: None,
                };
            }
            if env.display_set && env.has_xclip {
                return ClipboardCapability {
                    supported: true,
                    backend: Some(ClipboardBackend::LinuxXclip),
                    reason: None,
                };
            }
            ClipboardCapability {
                supported: false,
                backend: None,
                reason: Some(
                    String::from_str(
                        "no supported Linux clipboard backend found; support requires Wayland with 'wl-copy'/'wl-paste' or X11 with 'xclip'",
                    ),
                ),
            }
        },
        HostOs::Other => ClipboardCapability {
            supported: false,
            backend: None,
            reason: Some(
                String::from_str("clipboard support is only implemented for macOS and Linux"),
            ),
        },
    }
}

/// The backend a Linux host can write with: Wayland needs only `wl-copy`.
pub open spec fn linux_write_backend(env: ClipboardEnvironment) -> Option<ClipboardBackend> {
    if env.wayland_display_set && env.has_wl_copy {
        Some(ClipboardBackend::LinuxWayland)
    } else if env.display_set && env.has_xclip {
        Some(ClipboardBackend::LinuxXclip)
    } else {
        None
    }
}

/// A program and its arguments.
#[derive(Debug, Clone)]
pub struct CommandLine {
    pub program: String,
    pub args: Vec<String>,
}

/// The views of a command line.
pub open spec fn command_text(c: &CommandLine) -> (Seq<char>, Seq<Seq<char>>) {
    (c.program@, texts(c.args@))
}

/// How a clipboard write is carried out.
#[derive(Debug, Clone)]
pub enum WriteMethod {
    /// `osascript` where it is installed and succeeds, `pbcopy` otherwise
    /// (see `osascript_next`).
    OsascriptOrPbcopy,
    /// A `wl-copy --foreground` process that keeps owning the clipboard.
    WaylandOwner,
    /// The command reads the text on its standard input; if it is still
    /// running after `grace_ms` milliseconds the write counts as done.
    Command { command: CommandLine, grace_ms: u64 },
}

/// Access to the clipboard through one backend.
pub struct Clipboard {
    backend: ClipboardBackend,
}

impl Clipboard {
    /// The backend this clipboard uses.
    pub closed spec fn kind(&self) -> ClipboardBackend {
        self.backend
    }

    /// The backend this clipboard uses.
    pub fn backend(&self) -> (r: ClipboardBackend)
        ensures
            r == self.kind(),
    {
        self.backend
    }

    /// A clipboard that uses `backend`.
    pub fn from_backend(backend: ClipboardBackend) -> (r: Self)
        ensures
            r.kind() == backend,
    {
        Self { backend }
    }

    /// The clipboard of a host, when it supports one; otherwise the reason,
    /// reported as unavailable.
    pub fn detect(env: &ClipboardEnvironment) -> (r: AppResult<Self>)
        ensures
            match supported_backend(*env) {
                Some(b) => r matches Ok(c) && c.kind() == b,
                None => r matches Err(AppError::ClipboardUnavailable(m)) && m@
                    == unsupported_reason(env.os),
            },
    {
        let capability = detect_capability(env);
        match (capability.supported, capability.backend) {
            (true, Some(backend)) => Ok(Self { backend }),
            _ => Err(
                AppError::ClipboardUnavailable(
                    match capability.reason {
                        Some(m) => m,
                        None => String::from_str("no supported clipboard backend found"),
                    },
                ),
            ),
        }
    }

    /// The clipboard to write to. On Linux only the writing tool is needed;
    /// elsewhere this is `detect`.
    pub fn detect_for_write(env: &ClipboardEnvironment) -> (r: AppResult<Self>)
        ensures
            env.os == HostOs::Linux ==> match linux_write_backend(*env) {
                Some(b) => r matches Ok(c) && c.kind() == b,
                None => r matches Err(AppError::ClipboardUnavailable(m)) && m@
                    == "no supported Linux clipboard write backend found; write support requires Wayland with 'wl-copy' or X11 with 'xclip'"@,
            },
            env.os != HostOs::Linux ==> match supported_backend(*env) {
                Some(b) => r matches Ok(c) && c.kind() == b,
                None => r matches Err(AppError::ClipboardUnavailable(m)) && m@
                    == unsupported_reason(env.os),
            },
    {
        match env.os {
            HostOs::Linux => {
                if env.wayland_display_set && env.has_wl_copy {
                    return Ok(Self { backend: ClipboardBackend::LinuxWayland });
                }
                if env.display_set && env.has_xclip {
                    return Ok(Self { backend: ClipboardBackend::LinuxXclip });
                }
                Err(
                    AppError::ClipboardUnavailable(
                        String::from_str(
                            "no supported Linux clipboard write backend found; write support requires Wayland with 'wl-copy' or X11 with 'xclip'",
                        ),
                    ),
                )
            },
            _ => Self::detect(env),
        }
    }

    /// The clipboard that `send` reads: on macOS `pbpaste`, which must be
    /// installed (`pbcopy` is not looked for, as reading does not use it);
    /// `detect` elsewhere. A missing tool is reported as an unavailable
    /// clipboard.
    pub fn for_local_read(env: &ClipboardEnvironment) -> (r: AppResult<Self>)
        ensures
            env.os == HostOs::MacOs && env.has_pbpaste ==> (r matches Ok(c) && c.kind()
                == ClipboardBackend::MacOsPbcopy),
            env.os == HostOs::MacOs && !env.has_pbpaste ==> (r matches Err(
                AppError::ClipboardUnavailable(m),
            ) && m@ == unsupported_reason(HostOs::MacOs)),
            env.os != HostOs::MacOs ==> match supported_backend(*env) {
                Some(b) => r matches Ok(c) && c.kind() == b,
                None => r matches Err(AppError::ClipboardUnavailable(m)) && m@
                    == unsupported_reason(env.os),
            },
    {
        match env.os {
            HostOs::MacOs => {
                if env.has_pbpaste {
                    Ok(Self::from_backend(ClipboardBackend::MacOsPbcopy))
                } else {
                    Err(
                        AppError::ClipboardUnavailable(
                            String::from_str(
                                "macOS clipboard tools 'pbcopy' and/or 'pbpaste' are unavailable",
                            ),
                        ),
                    )
                }
            },
            _ => Self::detect(env),
        }
    }

    /// The clipboard that `get` writes: `pbcopy` on macOS without probing,
    /// `detect_for_write` elsewhere.
    pub fn for_local_write(env: &ClipboardEnvironment) -> (r: AppResult<Self>)
        ensures
            env.os == HostOs::MacOs ==> (r matches Ok(c) && c.kind() == ClipboardBackend::MacOsPbcopy),
            env.os == HostOs::Linux ==> match linux_write_backend(*env) {
                Some(b) => r matches Ok(c) && c.kind() == b,
                None => r matches Err(AppError::ClipboardUnavailable(m)) && m@
                    == "no supported Linux clipboard write backend found; write support requires Wayland with 'wl-copy' or X11 with 'xclip'"@,
            },
            env.os == HostOs::Other ==> (r matches Err(AppError::ClipboardUnavailable(m)) && m@
                == unsupported_reason(HostOs::Other)),
    {
        match env.os {
            HostOs::MacOs => Ok(Self::from_backend(ClipboardBackend::MacOsPbcopy)),
            _ => Self::detect_for_write(env),
        }
    }

    /// The command that prints the clipboard's text.
    pub fn read_command(&self) -> (r: CommandLine)
        ensures
            command_text(&r) == match self.kind() {
                ClipboardBackend::MacOsPbcopy => ("pbpaste"@, Seq::<Seq<char>>::empty()),
                ClipboardBackend::LinuxWayland => ("wl-paste"@, seq!["--no-newline"@]),
                ClipboardBackend::LinuxXclip => ("xclip"@, seq!["-selection"@, "clipboard"@, "-o"@]),
            },
    {
        match self.backend {
            ClipboardBackend::MacOsPbcopy => {
                let r = CommandLine { program: String::from_str("pbpaste"), args: Vec::new() };
                assert(texts(r.args@) =~= Seq::<Seq<char>>::empty());
                r
            },
            ClipboardBackend::LinuxWayland => {
                let r = CommandLine {
                    program: String::from_str("wl-paste"),
                    args: vec![String::from_str("--no-newline")],
                };
                assert(texts(r.args@) =~= seq!["--no-newline"@]);
                r
            },
            ClipboardBackend::LinuxXclip => {
                let r = CommandLine {
                    program: String::from_str("xclip"),
                    args: vec![
                        String::from_str("-selection"),
                        String::from_str("clipboard"),
                        String::from_str("-o"),
                    ],
                };
                assert(texts(r.args@) =~= seq!["-selection"@, "clipboard"@, "-o"@]);
                r
            },
        }
    }

    /// How this clipboard is written.
    pub fn write_method(&self) -> (r: WriteMethod)
        ensures
            self.kind() == ClipboardBackend::MacOsPbcopy ==> r is OsascriptOrPbcopy,
            self.kind() == ClipboardBackend::LinuxWayland ==> r is WaylandOwner,
            self.kind() == ClipboardBackend::LinuxXclip ==> (r matches WriteMethod::Command {
                command,
                grace_ms,
            } && command_text(&command) == ("xclip"@, seq!["-selection"@, "clipboard"@])
                && grace_ms == WRITER_GRACE_MS),
    {
        match self.backend {
            ClipboardBackend::MacOsPbcopy => WriteMethod::OsascriptOrPbcopy,
            ClipboardBackend::LinuxWayland => WriteMethod::WaylandOwner,
            ClipboardBackend::LinuxXclip => {
                let command = CommandLine {
                    program: String::from_str("xclip"),
                    args: vec![String::from_str("-selection"), String::from_str("clipboard")],
                };
                assert(texts(command.args@) =~= seq!["-selection"@, "clipboard"@]);
                WriteMethod::Command { command, grace_ms: WRITER_GRACE_MS }
            },
        }
    }

    /// A clipboard-owning `wl-copy` process can only be started for the
    /// Wayland backend.
    pub fn check_wayland_owner(&self) -> (r: AppResult<()>)
        ensures
            self.kind() == ClipboardBackend::LinuxWayland ==> r is Ok,
            self.kind() != ClipboardBackend::LinuxWayland ==> (r matches Err(
                AppError::ClipboardWrite(m),
            ) && m@ == "wayland owner process is only supported for Linux Wayland backend"@),
    {
        match self.backend {
            ClipboardBackend::LinuxWayland => Ok(()),
            _ => Err(
                AppError::ClipboardWrite(
                    String::from_str(
                        "wayland owner process is only supported for Linux Wayland backend",
                    ),
                ),
            ),
        }
    }
}

/// The `pbcopy` command that macOS writes fall back to.
pub fn pbcopy_command() -> (r: CommandLine)
    ensures
        command_text(&r) == ("pbcopy"@, Seq::<Seq<char>>::empty()),
{
    let r = CommandLine { program: String::from_str("pbcopy"), args: Vec::new() };
    assert(texts(r.args@) =~= Seq::<Seq<char>>::empty());
    r
}

/// The `wl-copy` command that owns the clipboard while it runs.
pub fn wl_copy_owner_command() -> (r: CommandLine)
    ensures
        command_text(&r) == ("wl-copy"@, seq!["--foreground"@, "--type"@, "text/plain"@]),
{
    let r = CommandLine {
        program: String::from_str("wl-copy"),
        args: vec![
            String::from_str("--foreground"),
            String::from_str("--type"),
            String::from_str("text/plain"),
        ],
    };
    assert(texts(r.args@) =~= seq!["--foreground"@, "--type"@, "text/plain"@]);
    r
}

/// The `osascript` invocation that sets the clipboard to `text`, which is
/// passed as the script's argument.
pub fn osascript_command(text: &str) -> (r: CommandLine)
    ensures
        command_text(&r) == (
            "osascript"@,
            seq![
                "-e"@,
                "on run argv"@,
                "-e"@,
                "set the clipboard to item 1 of argv"@,
                "-e"@,
                "end run"@,
                "--"@,
                text@,
            ],
        ),
{
    let r = CommandLine {
        program: String::from_str("osascript"),
        args: vec![
            String::from_str("-e"),
            String::from_str("on run argv"),
            String::from_str("-e"),
            String::from_str("set the clipboard to item 1 of argv"),
            String::from_str("-e"),
            String::from_str("end run"),
            String::from_str("--"),
            String::from_str(text),
        ],
    };
    assert(texts(r.args@) =~= seq![
        "-e"@,
        "on run argv"@,
        "-e"@,
        "set the clipboard to item 1 of argv"@,
        "-e"@,
        "end run"@,
        "--"@,
        text@,
    ]);
    r
}

/// What a macOS write does after running `osascript`.
#[derive(Debug)]
pub enum OsascriptNext {
    /// The clipboard is set.
    Done,
    /// The write failed with this error.
    Fail(AppError),
    /// Write with `pbcopy` instead.
    FallBack,
}

/// After `osascript` exits: success ends the write; a failure that printed
/// something on its error stream fails it; a silent failure falls back to
/// `pbcopy`.
pub fn osascript_next(success: bool, stderr: &str) -> (r: OsascriptNext)
    ensures
        success ==> r is Done,
        !success && trimmed(stderr@).len() > 0 ==> (r matches OsascriptNext::Fail(
            AppError::ClipboardWrite(m),
        ) && m@ == "'osascript' failed: "@ + trimmed(stderr@)),
        !success && trimmed(stderr@).len() == 0 ==> r is FallBack,
{
    if success {
        return OsascriptNext::Done;
    }
    let t = trim_text(stderr);
    if t.as_str().is_empty() {
        OsascriptNext::FallBack
    } else {
        OsascriptNext::Fail(AppError::ClipboardWrite(join2("'osascript' failed: ", t.as_str())))
    }
}

/// How a command that exited unsuccessfully is described: by what it
/// printed on its error stream, or by its exit status when it printed nothing.
pub open spec fn exit_detail(cmd: Seq<char>, stderr: Seq<char>, status: Seq<char>) -> Seq<char> {
    if trimmed(stderr).len() == 0 {
        "'"@ + cmd + "' exited with status "@ + status
    } else {
        "'"@ + cmd + "' failed: "@ + trimmed(stderr)
    }
}

/// Describes an unsuccessful exit.
pub fn describe_exit(cmd: &str, stderr: &str, status: &str) -> (r: String)
    ensures
        r@ == exit_detail(cmd@, stderr@, status@),
{
    let t = trim_text(stderr);
    if t.as_str().is_empty() {
        join4("'", cmd, "' exited with status ", status)
    } else {
        join4("'", cmd, "' failed: ", t.as_str())
    }
}

/// A clipboard error of the direction of the operation.
pub open spec fn clipboard_error_is(e: AppError, is_read: bool, m: Seq<char>) -> bool {
    if is_read {
        e matches AppError::ClipboardRead(x) && x@ == m
    } else {
        e matches AppError::ClipboardWrite(x) && x@ == m
    }
}

/// A read or write error with the given message.
pub fn clipboard_error(is_read: bool, message: String) -> (r: AppError)
    ensures
        clipboard_error_is(r, is_read, message@),
{
    if is_read {
        AppError::ClipboardRead(message)
    } else {
        AppError::ClipboardWrite(message)
    }
}

/// What went wrong while running a clipboard command.
#[derive(Debug, Clone)]
pub enum CommandFailure {
    /// The command could not be started.
    Spawn(String),
    /// Its standard input could not be opened.
    StdinUnavailable,
    /// The text could not be written to its standard input.
    StdinWrite(String),
    /// Asking whether it had exited failed.
    Wait(String),
    /// Collecting its output failed.
    Finish(String),
    /// It ran longer than the given number of seconds and was stopped.
    TimedOut(u64),
    /// It exited unsuccessfully, with this error stream and exit status.
    Exited { stderr: String, status: String },
    /// What it printed was not UTF-8.
    NotUtf8(String),
}

/// The message for a failure of command `cmd`.
pub open spec fn failure_message(cmd: Seq<char>, f: CommandFailure) -> Seq<char> {
    match f {
        CommandFailure::Spawn(d) => "failed to execute '"@ + cmd + "': "@ + d@,
        CommandFailure::StdinUnavailable => "failed to open stdin for '"@ + cmd + "'"@,
        CommandFailure::StdinWrite(d) => "failed to write clipboard input to '"@ + cmd + "': "@ + d@,
        CommandFailure::Wait(d) => "failed while waiting for '"@ + cmd + "': "@ + d@,
        CommandFailure::Finish(d) => "failed to wait for '"@ + cmd + "' to finish: "@ + d@,
        CommandFailure::TimedOut(secs) => "'"@ + cmd + "' timed out after "@ + decimal(secs as nat)
            + "s"@,
        CommandFailure::Exited { stderr, status } => exit_detail(cmd, stderr@, status@),
        CommandFailure::NotUtf8(d) => "clipboard output was not valid UTF-8: "@ + d@,
    }
}

/// The error for a failure of a clipboard command: a read error for a
/// reading command, a write error for a writing one.
pub fn command_error(cmd: &str, is_read: bool, failure: CommandFailure) -> (r: AppError)
    ensures
        clipboard_error_is(r, is_read, failure_message(cmd@, failure)),
{
    let message = match failure {
        CommandFailure::Spawn(d) => join4("failed to execute '", cmd, "': ", d.as_str()),
        CommandFailure::StdinUnavailable => join3("failed to open stdin for '", cmd, "'"),
        CommandFailure::StdinWrite(d) => join4(
            "failed to write clipboard input to '",
            cmd,
            "': ",
            d.as_str(),
        ),
        CommandFailure::Wait(d) => join4("failed while waiting for '", cmd, "': ", d.as_str()),
        CommandFailure::Finish(d) => join4("failed to wait for '", cmd, "' to finish: ", d.as_str()),
        CommandFailure::TimedOut(secs) => {
            let n = decimal_string(secs);
            let mut m = join4("'", cmd, "' timed out after ", n.as_str());
            m.append("s");
            m
        },
        CommandFailure::Exited { stderr, status } => describe_exit(
            cmd,
            stderr.as_str(),
            status.as_str(),
        ),
        CommandFailure::NotUtf8(d) => join2("clipboard output was not valid UTF-8: ", d.as_str()),
    };
    clipboard_error(is_read, message)
}

/// Decodes `bytes` with `String::from_utf8`, which its documentation says
/// fails exactly when the bytes are not UTF-8; the error is carried as the
/// text its `Display` gives, of which nothing is stated.
#[verifier::external_body]
fn utf8_text(bytes: Vec<u8>) -> (r: Result<String, String>)
    ensures
        r is Ok <==> valid_utf8(bytes@),
        r matches Ok(s) ==> s@ == decode_utf8(bytes@),
{
    match String::from_utf8(bytes) {
        Ok(s) => Ok(s),
        Err(e) => Err(e.to_string()),
    }
}

/// The text a reading command gave: its standard output when it exited
/// successfully and printed UTF-8; otherwise a read error.
pub fn read_outcome(cmd: &str, success: bool, stderr: &str, status: &str, stdout: Vec<u8>) -> (r:
    AppResult<String>)
    ensures
        success && valid_utf8(stdout@) ==> (r matches Ok(t) && t@ == decode_utf8(stdout@)),
        success && !valid_utf8(stdout@) ==> (r matches Err(AppError::ClipboardRead(m))
            && "clipboard output was not valid UTF-8: "@.is_prefix_of(m@)),
        !success ==> (r matches Err(AppError::ClipboardRead(m)) && m@ == exit_detail(
            cmd@,
            stderr@,
            status@,
        )),
{
    if !success {
        return Err(AppError::ClipboardRead(describe_exit(cmd, stderr, status)));
    }
    match utf8_text(stdout) {
        Ok(t) => Ok(t),
        Err(d) => Err(AppError::ClipboardRead(join2("clipboard output was not valid UTF-8: ", d.as_str()))),
    }
}

/// The outcome of a writing command that exited: success, or a write error
/// describing the exit.
pub fn write_outcome(cmd: &str, success: bool, stderr: &str, status: &str) -> (r: AppResult<()>)
    ensures
        success ==> r is Ok,
        !success ==> (r matches Err(AppError::ClipboardWrite(m)) && m@ == exit_detail(
            cmd@,
            stderr@,
            status@,
        )),
{
    if success {
        Ok(())
    } else {
        Err(AppError::ClipboardWrite(describe_exit(cmd, stderr, status)))
    }
}

/// A `wl-copy --foreground` that exits within its grace period does not own
/// the clipboard: an unsuccessful exit is described, a successful one is
/// reported as lost ownership.
pub fn wl_copy_early_exit(success: bool, stderr: &str, status: &str) -> (r: AppError)
    ensures
        !success ==> (r matches AppError::ClipboardWrite(m) && m@ == exit_detail(
            "wl-copy"@,
            stderr@,
            status@,
        )),
        success ==> (r matches AppError::ClipboardWrite(m) && m@
            == "'wl-copy --foreground' exited within the 150ms grace period; clipboard ownership was not retained"@),
{
    if !success {
        AppError::ClipboardWrite(describe_exit("wl-copy", stderr, status))
    } else {
        AppError::ClipboardWrite(
            String::from_str(
                "'wl-copy --foreground' exited within the 150ms grace period; clipboard ownership was not retained",
            ),
        )
    }
}

} // verus!

verus! {

/// What a look at a running command found.
#[derive(Debug, Clone)]
pub enum PollEvent {
    /// It has exited.
    Exited,
    /// It is still running, this many milliseconds after the wait began.
    Running { elapsed_ms: u64 },
    /// Asking whether it had exited failed with this message.
    WaitFailed(String),
}

/// What to do after a look at a running command.
#[derive(Debug)]
pub enum PollAction {
    /// It exited before the deadline.
    Exited,
    /// The deadline has passed while it runs.
    DeadlinePassed,
    /// Look again after this many milliseconds.
    SleepMs(u64),
    /// Give up with this error.
    Fail(AppError),
}

/// One step of waiting for command `cmd` until `deadline_ms` milliseconds
/// have passed: an exit ends the wait, a command still running at the
/// deadline is past it, one running before it is looked at again after the
/// poll interval, and a failed look fails the wait.
pub fn poll_step(cmd: &str, is_read: bool, deadline_ms: u64, event: PollEvent) -> (r: PollAction)
    ensures
        match event {
            PollEvent::Exited => r is Exited,
            PollEvent::Running { elapsed_ms } => if elapsed_ms >= deadline_ms {
                r is DeadlinePassed
            } else {
                r == PollAction::SleepMs(COMMAND_POLL_INTERVAL_MS)
            },
            PollEvent::WaitFailed(d) => r matches PollAction::Fail(e) && clipboard_error_is(
                e,
                is_read,
                "failed while waiting for '"@ + cmd@ + "': "@ + d@,
            ),
        },
{
    match event {
        PollEvent::Exited => PollAction::Exited,
        PollEvent::Running { elapsed_ms } => {
            if elapsed_ms >= deadline_ms {
                PollAction::DeadlinePassed
            } else {
                PollAction::SleepMs(COMMAND_POLL_INTERVAL_MS)
            }
        },
        PollEvent::WaitFailed(d) => PollAction::Fail(
            command_error(cmd, is_read, CommandFailure::Wait(d)),
        ),
    }
}

} // verus!

verus! {

/// What a write does once the writer's grace period is over.
#[derive(Debug, Clone, Copy, PartialEq, Eq, Structural)]
pub enum GraceOutcome {
    /// The writer still runs and holds the text: the write is done, and the
    /// writer is reaped whenever it exits.
    Written,
    /// The writer exited: its exit decides the write.
    JudgeExit,
}

/// A writer still running after its grace period has taken the text; one
/// that exited is judged by its exit.
pub fn after_grace(exited: bool) -> (r: GraceOutcome)
    ensures
        (r == GraceOutcome::JudgeExit) == exited,
{
    if exited {
        GraceOutcome::JudgeExit
    } else {
        GraceOutcome::Written
    }
}

/// Which backend a host reads and writes with, by what it offers: macOS
/// needs both `pbcopy` and `pbpaste`; on Linux a Wayland session with
/// `wl-copy` and `wl-paste` is used first, and otherwise an X11 display with
/// `xclip`, whether or not `WAYLAND_DISPLAY` is set; other systems have none.
pub proof fn lemma_backend_choice(env: ClipboardEnvironment)
    ensures
        env.os == HostOs::MacOs ==> (supported_backend(env) == Some(ClipboardBackend::MacOsPbcopy)
            <==> env.has_pbcopy && env.has_pbpaste),
        env.os == HostOs::MacOs && !(env.has_pbcopy && env.has_pbpaste) ==> supported_backend(env)
            is None,
        env.os == HostOs::Linux && env.wayland_display_set && env.has_wl_copy && env.has_wl_paste
            ==> supported_backend(env) == Some(ClipboardBackend::LinuxWayland),
        env.os == HostOs::Linux && !(env.wayland_display_set && env.has_wl_copy && env.has_wl_paste)
            && env.display_set && env.has_xclip ==> supported_backend(env) == Some(
            ClipboardBackend::LinuxXclip,
        ),
        env.os == HostOs::Linux && !(env.wayland_display_set && env.has_wl_copy && env.has_wl_paste)
            && !(env.display_set && env.has_xclip) ==> supported_backend(env) is None,
        env.os == HostOs::Other ==> supported_backend(env) is None,
        supported_backend(env) == Some(ClipboardBackend::LinuxXclip) ==> env.os == HostOs::Linux
            && env.display_set && env.has_xclip,
{
}

/// Which backend a Linux host writes with: `wl-copy` in a Wayland session
/// (`wl-paste` is not needed), otherwise `xclip` on an X11 display, whether
/// or not `WAYLAND_DISPLAY` is set; with neither there is none.
pub proof fn lemma_linux_write_choice(env: ClipboardEnvironment)
    ensures
        env.wayland_display_set && env.has_wl_copy ==> linux_write_backend(env) == Some(
            ClipboardBackend::LinuxWayland,
        ),
        !(env.wayland_display_set && env.has_wl_copy) && env.display_set && env.has_xclip
            ==> linux_write_backend(env) == Some(ClipboardBackend::LinuxXclip),
        !(env.wayland_display_set && env.has_wl_copy) && !(env.display_set && env.has_xclip)
            ==> linux_write_backend(env) is None,
        env.os == HostOs::Linux ==> (supported_backend(env) is Some ==> linux_write_backend(env)
            is Some),
{
}

/// Whether `WAYLAND_DISPLAY` is set does not decide the X11 choice: two Linux
/// hosts that differ only in it, neither with a complete Wayland session, get
/// the same backend for reading and for writing.
pub proof fn lemma_x11_ignores_wayland_display(a: ClipboardEnvironment, b: ClipboardEnvironment)
    requires
        a.os == HostOs::Linux,
        b.os == HostOs::Linux,
        a.display_set == b.display_set,
        a.has_xclip == b.has_xclip,
        !(a.wayland_display_set && a.has_wl_copy && a.has_wl_paste),
        !(b.wayland_display_set && b.has_wl_copy && b.has_wl_paste),
    ensures
        supported_backend(a) == supported_backend(b),
        !(a.wayland_display_set && a.has_wl_copy) && !(b.wayland_display_set && b.has_wl_copy)
            ==> linux_write_backend(a) == linux_write_backend(b),
{
}

} // verus!
