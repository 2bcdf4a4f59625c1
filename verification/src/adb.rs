//! The ADB side of a session: what is pushed, forwarded and started on the
//! device, the command lines for it, and how a finished command is judged.

use vstd::prelude::*;
use crate::decimal::{decimal, push_decimal};

verus! {

/// Why setting up or tearing down the ADB session failed.
pub enum AdbError {
    /// `adb` could not be run at all.
    AdbNotFound(std::io::Error),
    /// The server binary to push is not at the configured path.
    ServerBinaryNotFound(String),
    /// A command could not be started.
    CommandFailed { command: String, source: std::io::Error },
    /// A command ran and reported failure.
    CommandNotSuccessful { command: String, stdout: String, stderr: String },
    /// The server process could not be stopped.
    CleanupFailed(std::io::Error),
}

/// Where the server comes from and goes, and how it is reached.
#[derive(Clone, Debug)]
pub struct AdbConfig {
    pub scrcpy_server_path: String,
    pub device_server_path: String,
    pub server_version: String,
    pub local_port: u16,
    pub device_socket_name: String,
}

/// The views of a list of strings.
pub open spec fn views(v: Seq<String>) -> Seq<Seq<char>> {
    v.map_values(|s: String| s@)
}

/// The local side of the port forward, `tcp:<port>`.
pub open spec fn tcp_spec(port: u16) -> Seq<char> {
    "tcp:"@ + decimal(port as nat)
}

/// The arguments that push the server binary to the device.
pub open spec fn push_args_spec(config: AdbConfig) -> Seq<Seq<char>> {
    seq!["push"@, config.scrcpy_server_path@, config.device_server_path@]
}

/// The arguments that forward the local port to the server's socket.
pub open spec fn forward_args_spec(config: AdbConfig) -> Seq<Seq<char>> {
    seq!["forward"@, tcp_spec(config.local_port), config.device_socket_name@]
}

/// The arguments that start the pushed server on the device.
pub open spec fn start_args_spec(config: AdbConfig) -> Seq<Seq<char>> {
    seq![
        "shell"@,
        "CLASSPATH="@ + config.device_server_path@,
        "app_process"@,
        "/"@,
        "com.genymobile.scrcpy.Server"@,
        config.server_version@,
        "tunnel_forward=true"@,
        "log_level=info"@,
    ]
}

/// The arguments that remove the port forward.
pub open spec fn remove_forward_args_spec(config: AdbConfig) -> Seq<Seq<char>> {
    seq!["forward"@, "--remove"@, tcp_spec(config.local_port)]
}

impl AdbConfig {
    /// The configuration of the default setup: the v3.2 server, pushed to
    /// the device's temporary directory, reached at local port 27183
    /// through the abstract socket `scrcpy`.
    pub open spec fn is_default(&self) -> bool {
        &&& self.scrcpy_server_path@ == "server/scrcpy-server-v3.2"@
        &&& self.device_server_path@ == "/data/local/tmp/scrcpy-server-v3.2"@
        &&& self.server_version@ == "3.2"@
        &&& self.local_port == 27183
        &&& self.device_socket_name@ == "localabstract:scrcpy"@
    }
}

impl Default for AdbConfig {
    fn default() -> (r: Self)
        ensures
            r.is_default(),
    {
        AdbConfig {
            scrcpy_server_path: String::from_str("server/scrcpy-server-v3.2"),
            device_server_path: String::from_str("/data/local/tmp/scrcpy-server-v3.2"),
            server_version: String::from_str("3.2"),
            local_port: 27183,
            device_socket_name: String::from_str("localabstract:scrcpy"),
        }
    }
}

/// `tcp:<port>`, the local side of the forward.
pub fn tcp_endpoint(port: u16) -> (r: String)
    ensures
        r@ == tcp_spec(port),
{
    let mut s = String::from_str("tcp:");
    push_decimal(&mut s, port as u32);
    s
}

/// The arguments of `adb` that push the server binary to the device.
pub fn push_server_args(config: &AdbConfig) -> (r: Vec<String>)
    ensures
        views(r@) == push_args_spec(*config),
{
    let mut args: Vec<String> = Vec::new();
    args.push(String::from_str("push"));
    args.push(config.scrcpy_server_path.clone());
    args.push(config.device_server_path.clone());
    assert(views(args@) =~= seq!["push"@, config.scrcpy_server_path@, config.device_server_path@]);
    args
}

/// The push command as it is reported when it fails.
pub fn push_server_command(config: &AdbConfig) -> (r: String)
    ensures
        r@ == "adb push "@ + config.scrcpy_server_path@ + " "@ + config.device_server_path@,
{
    let mut s = String::from_str("adb push ");
    s.append(config.scrcpy_server_path.as_str());
    s.append(" ");
    s.append(config.device_server_path.as_str());
    s
}

/// The arguments of `adb` that forward the local port to the server's socket.
pub fn forward_port_args(config: &AdbConfig) -> (r: Vec<String>)
    ensures
        views(r@) == forward_args_spec(*config),
{
    let mut args: Vec<String> = Vec::new();
    args.push(String::from_str("forward"));
    args.push(tcp_endpoint(config.local_port));
    args.push(config.device_socket_name.clone());
    assert(views(args@) =~= seq!["forward"@, tcp_spec(config.local_port), config.device_socket_name@]);
    args
}

/// The forward command as it is reported when it fails.
pub fn forward_port_command(config: &AdbConfig) -> (r: String)
    ensures
        r@ == "adb forward "@ + tcp_spec(config.local_port) + " "@ + config.device_socket_name@,
{
    let mut s = String::from_str("adb forward ");
    let tcp = tcp_endpoint(config.local_port);
    s.append(tcp.as_str());
    s.append(" ");
    s.append(config.device_socket_name.as_str());
    s
}

/// The arguments of `adb` that start the server on the device.
pub fn start_server_args(config: &AdbConfig) -> (r: Vec<String>)
    ensures
        views(r@) == start_args_spec(*config),
{
    let mut classpath = String::from_str("CLASSPATH=");
    classpath.append(config.device_server_path.as_str());
    let mut args: Vec<String> = Vec::new();
    args.push(String::from_str("shell"));
    args.push(classpath);
    args.push(String::from_str("app_process"));
    args.push(String::from_str("/"));
    args.push(String::from_str("com.genymobile.scrcpy.Server"));
    args.push(config.server_version.clone());
    args.push(String::from_str("tunnel_forward=true"));
    args.push(String::from_str("log_level=info"));
    assert(views(args@) =~= seq![
        "shell"@,
        "CLASSPATH="@ + config.device_server_path@,
        "app_process"@,
        "/"@,
        "com.genymobile.scrcpy.Server"@,
        config.server_version@,
        "tunnel_forward=true"@,
        "log_level=info"@,
    ]);
    args
}

/// The start command as it is reported when it cannot be started.
pub fn start_server_command() -> (r: String)
    ensures
        r@ == "adb shell CLASSPATH=..."@,
{
    String::from_str("adb shell CLASSPATH=...")
}

/// The arguments of `adb` that remove the port forward when the session ends.
pub fn remove_forward_args(config: &AdbConfig) -> (r: Vec<String>)
    ensures
        views(r@) == remove_forward_args_spec(*config),
{
    let mut args: Vec<String> = Vec::new();
    args.push(String::from_str("forward"));
    args.push(String::from_str("--remove"));
    args.push(tcp_endpoint(config.local_port));
    assert(views(args@) =~= seq!["forward"@, "--remove"@, tcp_spec(config.local_port)]);
    args
}

/// Judges a command that ran: success is `Ok`, anything else the error that
/// names the command and holds what it printed.
pub fn command_result(command: String, success: bool, stdout: String, stderr: String) -> (r: Result<
    (),
    AdbError,
>)
    ensures
        success ==> r is Ok,
        !success ==> r == Err::<(), AdbError>(AdbError::CommandNotSuccessful { command, stdout, stderr }),
{
    if success {
        Ok(())
    } else {
        Err(AdbError::CommandNotSuccessful { command, stdout, stderr })
    }
}

/// Seconds the server is given to start on the device.
pub const SERVER_SETTLE_SECS: u64 = 2;

/// What the caller reports back while a session is set up.
pub enum SetupEvent {
    /// Nothing has been done yet.
    Started,
    /// Whether the server binary exists at the configured path.
    BinaryChecked { exists: bool },
    /// How pushing the binary went.
    Pushed(Result<(), AdbError>),
    /// How forwarding the port went.
    Forwarded(Result<(), AdbError>),
    /// How starting the server went.
    ServerStarted(Result<(), AdbError>),
}

/// What the caller does next while a session is set up.
pub enum SetupAction {
    /// Check that the server binary exists at this path.
    CheckBinary { path: String },
    /// Run `adb` with these arguments; report failure with this command.
    Push { args: Vec<String>, command: String },
    /// Run `adb` with these arguments; report failure with this command.
    Forward { args: Vec<String>, command: String },
    /// Start `adb` with these arguments; report failure with this command.
    StartServer { args: Vec<String>, command: String },
    /// Wait `SERVER_SETTLE_SECS`; the session is then ready.
    Settle,
    /// Stop: the session could not be set up.
    Fail(AdbError),
}

/// Decides the next step of setting up a session with `config`: check the
/// binary, then push it, forward the port, start the server and let it
/// settle, stopping at the first failure with its error; a missing binary
/// fails before anything is run.
pub fn session_setup_step(config: &AdbConfig, event: SetupEvent) -> (r: SetupAction)
    ensures
        stage(r) == next_stage(event),
        match event {
            SetupEvent::Started => r matches SetupAction::CheckBinary { path } && path@
                == config.scrcpy_server_path@,
            SetupEvent::BinaryChecked { exists } => if exists {
                r matches SetupAction::Push { args, command } && views(args@) == push_args_spec(
                    *config,
                ) && command@ == "adb push "@ + config.scrcpy_server_path@ + " "@
                    + config.device_server_path@
            } else {
                r matches SetupAction::Fail(AdbError::ServerBinaryNotFound(p)) && p@
                    == config.scrcpy_server_path@
            },
            SetupEvent::Pushed(res) => match res {
                Ok(_) => r matches SetupAction::Forward { args, command } && views(args@)
                    == forward_args_spec(*config) && command@ == "adb forward "@ + tcp_spec(
                    config.local_port,
                ) + " "@ + config.device_socket_name@,
                Err(e) => r == SetupAction::Fail(e),
            },
            SetupEvent::Forwarded(res) => match res {
                Ok(_) => r matches SetupAction::StartServer { args, command } && views(args@)
                    == start_args_spec(*config) && command@ == "adb shell CLASSPATH=..."@,
                Err(e) => r == SetupAction::Fail(e),
            },
            SetupEvent::ServerStarted(res) => match res {
                Ok(_) => r is Settle,
                Err(e) => r == SetupAction::Fail(e),
            },
        },
{
    match event {
        SetupEvent::Started => SetupAction::CheckBinary { path: config.scrcpy_server_path.clone() },
        SetupEvent::BinaryChecked { exists } => {
            if exists {
                SetupAction::Push { args: push_server_args(config), command: push_server_command(config) }
            } else {
                SetupAction::Fail(AdbError::ServerBinaryNotFound(config.scrcpy_server_path.clone()))
            }
        },
        SetupEvent::Pushed(res) => match res {
            Ok(_) => SetupAction::Forward {
                args: forward_port_args(config),
                command: forward_port_command(config),
            },
            Err(e) => SetupAction::Fail(e),
        },
        SetupEvent::Forwarded(res) => match res {
            Ok(_) => SetupAction::StartServer {
                args: start_server_args(config),
                command: start_server_command(),
            },
            Err(e) => SetupAction::Fail(e),
        },
        SetupEvent::ServerStarted(res) => match res {
            Ok(_) => SetupAction::Settle,
            Err(e) => SetupAction::Fail(e),
        },
    }
}

/// The kind of an action, without its data.
pub enum SetupStage {
    CheckBinary,
    Push,
    Forward,
    StartServer,
    Settle,
    Fail,
}

/// The kind of `action`.
pub open spec fn stage(action: SetupAction) -> SetupStage {
    match action {
        SetupAction::CheckBinary { .. } => SetupStage::CheckBinary,
        SetupAction::Push { .. } => SetupStage::Push,
        SetupAction::Forward { .. } => SetupStage::Forward,
        SetupAction::StartServer { .. } => SetupStage::StartServer,
        SetupAction::Settle => SetupStage::Settle,
        SetupAction::Fail(_) => SetupStage::Fail,
    }
}

/// The stage that follows an event, as `session_setup_step` decides it.
pub open spec fn next_stage(event: SetupEvent) -> SetupStage {
    match event {
        SetupEvent::Started => SetupStage::CheckBinary,
        SetupEvent::BinaryChecked { exists } => if exists {
            SetupStage::Push
        } else {
            SetupStage::Fail
        },
        SetupEvent::Pushed(res) => if res is Ok {
            SetupStage::Forward
        } else {
            SetupStage::Fail
        },
        SetupEvent::Forwarded(res) => if res is Ok {
            SetupStage::StartServer
        } else {
            SetupStage::Fail
        },
        SetupEvent::ServerStarted(res) => if res is Ok {
            SetupStage::Settle
        } else {
            SetupStage::Fail
        },
    }
}

/// The stage a setup ends in, when the binary check, the push, the forward
/// and the start report these outcomes: each step is taken only after the
/// one before it succeeded.
pub open spec fn setup_run(
    exists: bool,
    pushed: Result<(), AdbError>,
    forwarded: Result<(), AdbError>,
    started: Result<(), AdbError>,
) -> SetupStage {
    if !(next_stage(SetupEvent::BinaryChecked { exists }) is Push) {
        next_stage(SetupEvent::BinaryChecked { exists })
    } else if !(next_stage(SetupEvent::Pushed(pushed)) is Forward) {
        next_stage(SetupEvent::Pushed(pushed))
    } else if !(next_stage(SetupEvent::Forwarded(forwarded)) is StartServer) {
        next_stage(SetupEvent::Forwarded(forwarded))
    } else {
        next_stage(SetupEvent::ServerStarted(started))
    }
}

/// A setup begins by checking the binary, and a session becomes ready only
/// when the binary exists and the push, the forward and the start all
/// succeed; any missing binary or failed step ends it in failure.
pub proof fn lemma_setup_settles_only_after_all_steps(
    exists: bool,
    pushed: Result<(), AdbError>,
    forwarded: Result<(), AdbError>,
    started: Result<(), AdbError>,
)
    ensures
        next_stage(SetupEvent::Started) is CheckBinary,
        setup_run(exists, pushed, forwarded, started) is Settle <==> (exists && pushed is Ok
            && forwarded is Ok && started is Ok),
        !(setup_run(exists, pushed, forwarded, started) is Settle) ==> setup_run(
            exists,
            pushed,
            forwarded,
            started,
        ) is Fail,
{
}

/// Every command line is built from the configuration: the push names the
/// local binary and its device destination; the forward names
/// `tcp:<local port>` and the device socket; the start runs `app_process`
/// with the pushed binary as class path and the configured server version
/// as the server's first argument; the teardown removes `tcp:<local port>`.
pub proof fn lemma_args_follow_config(config: AdbConfig)
    ensures
        push_args_spec(config).len() == 3,
        push_args_spec(config)[0] == "push"@,
        push_args_spec(config)[1] == config.scrcpy_server_path@,
        push_args_spec(config)[2] == config.device_server_path@,
        forward_args_spec(config).len() == 3,
        forward_args_spec(config)[0] == "forward"@,
        forward_args_spec(config)[1] == "tcp:"@ + decimal(config.local_port as nat),
        forward_args_spec(config)[2] == config.device_socket_name@,
        start_args_spec(config).len() == 8,
        start_args_spec(config)[0] == "shell"@,
        start_args_spec(config)[1] == "CLASSPATH="@ + config.device_server_path@,
        start_args_spec(config)[2] == "app_process"@,
        start_args_spec(config)[3] == "/"@,
        start_args_spec(config)[4] == "com.genymobile.scrcpy.Server"@,
        start_args_spec(config)[5] == config.server_version@,
        start_args_spec(config)[6] == "tunnel_forward=true"@,
        start_args_spec(config)[7] == "log_level=info"@,
        remove_forward_args_spec(config).len() == 3,
        remove_forward_args_spec(config)[0] == "forward"@,
        remove_forward_args_spec(config)[1] == "--remove"@,
        remove_forward_args_spec(config)[2] == "tcp:"@ + decimal(config.local_port as nat),
{
}

/// Ending a session undoes its port forward: the forward that is removed
/// is the local endpoint that was forwarded. And the server that is started
/// is the binary that was pushed: its class path is the push destination.
pub proof fn lemma_session_commands_agree(config: AdbConfig)
    ensures
        remove_forward_args_spec(config)[2] == forward_args_spec(config)[1],
        start_args_spec(config)[1] == "CLASSPATH="@ + push_args_spec(config)[2],
{
}

} // verus!
