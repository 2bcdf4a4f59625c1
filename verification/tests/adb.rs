use mirrox::adb::{
    command_result, forward_port_args, forward_port_command, push_server_args, push_server_command,
    remove_forward_args, session_setup_step, start_server_args, start_server_command, tcp_endpoint, AdbConfig,
    AdbError, SetupAction, SetupEvent,
};

#[test]
fn default_config() {
    let c = AdbConfig::default();
    assert_eq!(c.scrcpy_server_path, "server/scrcpy-server-v3.2");
    assert_eq!(c.device_server_path, "/data/local/tmp/scrcpy-server-v3.2");
    assert_eq!(c.server_version, "3.2");
    assert_eq!(c.local_port, 27183);
    assert_eq!(c.device_socket_name, "localabstract:scrcpy");
}

#[test]
fn command_lines_of_default_session() {
    let c = AdbConfig::default();
    assert_eq!(push_server_args(&c), vec!["push", "server/scrcpy-server-v3.2", "/data/local/tmp/scrcpy-server-v3.2"]);
    assert_eq!(push_server_command(&c), "adb push server/scrcpy-server-v3.2 /data/local/tmp/scrcpy-server-v3.2");
    assert_eq!(forward_port_args(&c), vec!["forward", "tcp:27183", "localabstract:scrcpy"]);
    assert_eq!(forward_port_command(&c), "adb forward tcp:27183 localabstract:scrcpy");
    assert_eq!(
        start_server_args(&c),
        vec![
            "shell",
            "CLASSPATH=/data/local/tmp/scrcpy-server-v3.2",
            "app_process",
            "/",
            "com.genymobile.scrcpy.Server",
            "3.2",
            "tunnel_forward=true",
            "log_level=info",
        ]
    );
    assert_eq!(start_server_command(), "adb shell CLASSPATH=...");
    assert_eq!(remove_forward_args(&c), vec!["forward", "--remove", "tcp:27183"]);
}

#[test]
fn ports_are_written_in_decimal() {
    assert_eq!(tcp_endpoint(0), "tcp:0");
    assert_eq!(tcp_endpoint(9), "tcp:9");
    assert_eq!(tcp_endpoint(10), "tcp:10");
    assert_eq!(tcp_endpoint(65535), "tcp:65535");
    let mut c = AdbConfig::default();
    c.local_port = 8080;
    assert_eq!(forward_port_args(&c)[1], "tcp:8080");
}

#[test]
fn successful_command_is_ok() {
    assert!(command_result("adb push a b".to_string(), true, "out".to_string(), String::new()).is_ok());
}

#[test]
fn failed_command_keeps_its_output() {
    match command_result("adb forward tcp:1 x".to_string(), false, "o".to_string(), "e".to_string()) {
        Err(AdbError::CommandNotSuccessful { command, stdout, stderr }) => {
            assert_eq!(command, "adb forward tcp:1 x");
            assert_eq!(stdout, "o");
            assert_eq!(stderr, "e");
        }
        _ => panic!("expected CommandNotSuccessful"),
    }
}

#[test]
fn teardown_removes_the_forward_it_made() {
    let mut c = AdbConfig::default();
    c.local_port = 5555;
    assert_eq!(remove_forward_args(&c)[2], forward_port_args(&c)[1]);
    assert_eq!(start_server_args(&c)[1], format!("CLASSPATH={}", push_server_args(&c)[2]));
}

#[test]
fn setup_runs_in_order() {
    let c = AdbConfig::default();
    match session_setup_step(&c, SetupEvent::Started) {
        SetupAction::CheckBinary { path } => assert_eq!(path, "server/scrcpy-server-v3.2"),
        _ => panic!("expected the binary check"),
    }
    match session_setup_step(&c, SetupEvent::BinaryChecked { exists: true }) {
        SetupAction::Push { args, command } => {
            assert_eq!(args, push_server_args(&c));
            assert_eq!(command, push_server_command(&c));
        }
        _ => panic!("expected the push"),
    }
    match session_setup_step(&c, SetupEvent::Pushed(Ok(()))) {
        SetupAction::Forward { args, command } => {
            assert_eq!(args, vec!["forward", "tcp:27183", "localabstract:scrcpy"]);
            assert_eq!(command, "adb forward tcp:27183 localabstract:scrcpy");
        }
        _ => panic!("expected the forward"),
    }
    match session_setup_step(&c, SetupEvent::Forwarded(Ok(()))) {
        SetupAction::StartServer { args, command } => {
            assert_eq!(args, start_server_args(&c));
            assert_eq!(command, "adb shell CLASSPATH=...");
        }
        _ => panic!("expected the start"),
    }
    assert!(matches!(session_setup_step(&c, SetupEvent::ServerStarted(Ok(()))), SetupAction::Settle));
}

#[test]
fn setup_stops_at_first_failure() {
    let c = AdbConfig::default();
    match session_setup_step(&c, SetupEvent::BinaryChecked { exists: false }) {
        SetupAction::Fail(AdbError::ServerBinaryNotFound(p)) => assert_eq!(p, "server/scrcpy-server-v3.2"),
        _ => panic!("expected the missing binary"),
    }
    let err = command_result("adb push a b".to_string(), false, String::new(), "no device".to_string()).unwrap_err();
    match session_setup_step(&c, SetupEvent::Pushed(Err(err))) {
        SetupAction::Fail(AdbError::CommandNotSuccessful { stderr, .. }) => assert_eq!(stderr, "no device"),
        _ => panic!("expected the push failure"),
    }
    let io = std::io::Error::new(std::io::ErrorKind::NotFound, "adb");
    assert!(matches!(
        session_setup_step(&c, SetupEvent::Forwarded(Err(AdbError::AdbNotFound(io)))),
        SetupAction::Fail(AdbError::AdbNotFound(_))
    ));
    let io = std::io::Error::new(std::io::ErrorKind::Other, "spawn");
    assert!(matches!(
        session_setup_step(
            &c,
            SetupEvent::ServerStarted(Err(AdbError::CommandFailed { command: "adb shell CLASSPATH=...".to_string(), source: io }))
        ),
        SetupAction::Fail(AdbError::CommandFailed { .. })
    ));
}
