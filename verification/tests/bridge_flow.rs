use eledo::bridge::{BridgePtyClient, BridgeServer, Stage};
use eledo::command::Command;
use eledo::console::{ConsoleState, ScreenInfo, BRIDGE_INPUT_MODE, BRIDGE_OUTPUT_MODE};
use eledo::pipes::relay_copy;
use eledo::privilege::{AdminMembership, IntegrityLevel, Token};
use eledo::Error;

fn pipe_names() -> Vec<String> {
    vec![
        "\\\\.\\pipe\\bridge-a".to_string(),
        "\\\\.\\pipe\\bridge-b".to_string(),
        "\\\\.\\pipe\\bridge-c".to_string(),
        "\\\\.\\pipe\\bridge-d".to_string(),
        "\\\\.\\pipe\\bridge-e".to_string(),
    ]
}

fn console_120_30_cursor_5_3() -> ConsoleState {
    ConsoleState {
        has_input: true,
        has_output: true,
        input_mode: 0x01F7,
        output_mode: 0x0003,
        input_mode_ok: true,
        output_mode_ok: true,
        screen: Some(ScreenInfo {
            window_left: 0,
            window_top: 0,
            window_right: 119,
            window_bottom: 29,
            cursor_x: 5,
            cursor_y: 3,
        }),
        soft_reset_seen: false,
    }
}

fn medium_token() -> Token {
    Token::new(IntegrityLevel::Medium, AdminMembership::NotMember, 77)
}

#[test]
fn every_pipe_has_its_flag_and_geometry_follows() {
    let mut server = BridgeServer::new(false, false, false);
    let mut console = console_120_30_cursor_5_3();
    let token = medium_token();
    let names = pipe_names();
    let args = server.start(&token, &mut console, &names).unwrap();

    let expect = vec![
        "--stdin",
        "\\\\.\\pipe\\bridge-a",
        "--stdout",
        "\\\\.\\pipe\\bridge-b",
        "--stderr",
        "\\\\.\\pipe\\bridge-c",
        "--conin",
        "\\\\.\\pipe\\bridge-d",
        "--conout",
        "\\\\.\\pipe\\bridge-e",
        "--width",
        "120",
        "--height",
        "30",
        "--cursor-x",
        "5",
        "--cursor-y",
        "3",
    ];
    let got: Vec<&str> = args.iter().map(|s| s.as_str()).collect();
    assert_eq!(got, expect);

    assert_eq!(server.pipes.len(), 5);
    for p in server.pipes.iter() {
        assert_eq!(p.target_sid, 77);
        assert!(!p.connected);
        assert!(!p.relayed);
        assert!(!p.closed);
        let at = args.iter().position(|a| *a == p.path).unwrap();
        assert!(at >= 1);
        let flag = &args[at - 1];
        let expected_flag = match p.kind {
            eledo::pipes::StreamKind::Stdin => "--stdin",
            eledo::pipes::StreamKind::Stdout => "--stdout",
            eledo::pipes::StreamKind::Stderr => "--stderr",
            eledo::pipes::StreamKind::ConIn => "--conin",
            eledo::pipes::StreamKind::ConOut => "--conout",
        };
        assert_eq!(flag, expected_flag);
    }
}

#[test]
fn console_streams_skip_pipes() {
    let mut server = BridgeServer::new(true, true, true);
    let mut console = console_120_30_cursor_5_3();
    let token = medium_token();
    let names = pipe_names();
    let args = server.start(&token, &mut console, &names).unwrap();
    assert_eq!(server.pipes.len(), 2);
    assert_eq!(args[0], "--conin");
    assert_eq!(args[2], "--conout");
    assert!(!args.contains(&"--stdin".to_string()));
    assert!(!args.contains(&"--stdout".to_string()));
    assert!(!args.contains(&"--stderr".to_string()));
}

#[test]
fn start_swaps_modes_and_serve_restores_them() {
    let mut server = BridgeServer::new(false, false, false);
    let entry = console_120_30_cursor_5_3();
    let mut console = entry;
    let token = medium_token();
    let names = pipe_names();
    server.start(&token, &mut console, &names).unwrap();

    assert_eq!(console.input_mode, BRIDGE_INPUT_MODE);
    assert_eq!(console.output_mode, BRIDGE_OUTPUT_MODE);
    assert_eq!(server.input_mode, Some(entry.input_mode));
    assert_eq!(server.output_mode, Some(entry.output_mode));

    server.notify_launched();
    let command = Command::with_environment_for_token(&token);
    let mut proc = command.spawn().unwrap();
    proc.exited(0);
    let code = server.serve(&mut console, &proc).unwrap();
    assert_eq!(code, 0);

    // The modes observed after the run equal the snapshot taken on entry,
    // and a soft reset reached the output console during restoration.
    assert_eq!(console.input_mode, entry.input_mode);
    assert_eq!(console.output_mode, entry.output_mode);
    assert!(console.soft_reset_seen);
}

#[test]
fn abort_also_restores_modes() {
    let mut server = BridgeServer::new(false, false, false);
    let entry = console_120_30_cursor_5_3();
    let mut console = entry;
    let token = medium_token();
    let names = pipe_names();
    server.start(&token, &mut console, &names).unwrap();
    assert_ne!(console.input_mode, entry.input_mode);

    server.abort(&mut console);
    assert_eq!(server.stage, Stage::Aborting);
    assert_eq!(console.input_mode, entry.input_mode);
    assert_eq!(console.output_mode, entry.output_mode);
    for p in server.pipes.iter() {
        assert!(p.closed);
    }
}

#[test]
fn serve_connects_relays_and_closes_every_pipe() {
    let mut server = BridgeServer::new(false, false, false);
    let mut console = console_120_30_cursor_5_3();
    let token = medium_token();
    let names = pipe_names();
    server.start(&token, &mut console, &names).unwrap();
    server.notify_launched();

    let command = Command::with_environment_for_token(&token);
    let mut proc = command.spawn().unwrap();
    proc.exited(7);
    let code = server.serve(&mut console, &proc).unwrap();
    assert_eq!(code, 7);
    assert_eq!(server.stage, Stage::Done);
    assert_eq!(server.pipes.len(), 5);
    for p in server.pipes.iter() {
        // Each pipe completed its handshake before its relay began,
        // and no handle survives the run.
        assert!(p.connected);
        assert!(p.relayed);
        assert!(p.closed);
    }
}

#[test]
fn exit_code_42_propagates_from_bridged_child() {
    let mut server = BridgeServer::new(false, false, false);
    let mut console = console_120_30_cursor_5_3();
    let token = medium_token();
    let names = pipe_names();
    let mut bridge_cmd = Command::with_environment_for_token(&token);
    let mut argv = server.start(&token, &mut console, &names).unwrap();
    argv.push("--".to_string());
    argv.push("cmd".to_string());
    argv.push("/c".to_string());
    argv.push("exit 42".to_string());
    bridge_cmd.set_argv(argv);

    let mut proc = bridge_cmd.shell_execute("runas").unwrap();
    assert_eq!(proc.verb.as_deref(), Some("runas"));
    assert_eq!(proc.token_sid, None);

    server.notify_launched();
    proc.exited(42);
    let code = server.serve(&mut console, &proc).unwrap();
    assert_eq!(code, 42);
    assert_eq!(eledo::launcher::frontend_exit_code(Some(code)), 42);
}

#[test]
fn redirected_stdout_gets_a_pipe_and_bytes_cross_unchanged() {
    // stdin and stderr stay on the console; stdout goes to a file.
    let mut server = BridgeServer::new(true, false, true);
    let mut console = console_120_30_cursor_5_3();
    let token = medium_token();
    let names = pipe_names();
    let args = server.start(&token, &mut console, &names).unwrap();
    assert_eq!(args[0], "--stdout");
    assert_eq!(args[1], "\\\\.\\pipe\\bridge-b");

    let bytes: Vec<u8> = vec![0x1b, b'[', b'm', 0x00, 0xff, b'x'];
    let out = relay_copy(&bytes);
    assert_eq!(out, bytes);
}

#[test]
fn detached_console_yields_no_console_args() {
    let mut server = BridgeServer::new(false, false, false);
    let mut console = ConsoleState::detached();
    let token = medium_token();
    let names = pipe_names();
    let args = server.start(&token, &mut console, &names).unwrap();
    assert_eq!(args.len(), 6);
    assert_eq!(server.pipes.len(), 3);
    assert_eq!(server.input_mode, None);
    assert_eq!(server.output_mode, None);
    assert!(!args.contains(&"--conin".to_string()));
    assert!(!args.contains(&"--width".to_string()));
}

#[test]
fn failing_mode_query_aborts_with_api_name() {
    let mut server = BridgeServer::new(false, false, false);
    let mut console = console_120_30_cursor_5_3();
    console.input_mode_ok = false;
    let token = medium_token();
    let names = pipe_names();
    let entry = console;
    let err = server.start(&token, &mut console, &names).unwrap_err();
    match err {
        Error::Setup { api } => assert_eq!(api, "GetConsoleMode"),
        _ => panic!("wrong error"),
    }
    assert_eq!(server.stage, Stage::Aborting);
    // The console was left untouched.
    assert_eq!(console, entry);
}

#[test]
fn failing_screen_query_aborts_with_api_name() {
    let mut server = BridgeServer::new(false, false, false);
    let mut console = console_120_30_cursor_5_3();
    console.screen = None;
    let token = medium_token();
    let names = pipe_names();
    let err = server.start(&token, &mut console, &names).unwrap_err();
    match err {
        Error::Setup { api } => assert_eq!(api, "GetConsoleScreenBufferInfo"),
        _ => panic!("wrong error"),
    }
    // The input side had already been configured; the output mode was
    // snapshotted but not yet switched.
    assert_eq!(console.input_mode, BRIDGE_INPUT_MODE);
    assert_eq!(console.output_mode, 0x0003);
    assert_eq!(server.output_mode, Some(0x0003));
}

#[test]
fn pty_client_binds_pipes_and_rejects_zero_cells() {
    let conin = "\\\\.\\pipe\\bridge-d".to_string();
    let conout = "\\\\.\\pipe\\bridge-e".to_string();
    let client = BridgePtyClient::with_params(&conin, &conout, 120, 30).unwrap();
    assert_eq!(client.con.cols, 120);
    assert_eq!(client.con.rows, 30);
    assert_eq!(client.con.input.path, conin);
    assert_eq!(client.con.output.path, conout);

    match BridgePtyClient::with_params(&conin, &conout, 0, 30) {
        Err(Error::Setup { api }) => assert_eq!(api, "CreatePseudoConsole"),
        _ => panic!("zero columns must be rejected"),
    }
}

#[test]
fn pty_client_runs_target_and_reports_its_code() {
    let conin = "in".to_string();
    let conout = "out".to_string();
    let client = BridgePtyClient::with_params(&conin, &conout, 80, 25).unwrap();
    let token = medium_token();
    let mut command = Command::with_environment_for_token(&token);
    assert_eq!(command.env_sid, 77);
    command.set_argv(vec!["whoami".to_string(), "/groups".to_string()]);
    command.set_cwd("C:\\Users\\someone".to_string());
    assert_eq!(command.cwd.as_deref(), Some("C:\\Users\\someone"));
    let mut proc = client.spawn(command).unwrap();
    assert!(proc.via_pty);
    assert_eq!(proc.token_sid, Some(77));
    proc.exited(3);
    assert_eq!(client.run(proc).unwrap(), 3);
}

#[test]
fn exit_code_before_exit_is_an_error() {
    let token = medium_token();
    let command = Command::with_environment_for_token(&token);
    let proc = command.spawn().unwrap();
    match proc.exit_code() {
        Err(Error::Setup { api }) => assert_eq!(api, "GetExitCodeProcess"),
        _ => panic!("expected an error before the child exited"),
    }
    let mut proc = proc;
    proc.exited(0);
    assert_eq!(proc.exit_code().unwrap(), 0);
}

#[test]
fn locate_prefers_the_sibling_copy() {
    let beside = Some("C:\\tools\\eledo-pty-bridge.exe".to_string());
    let on_path = Some("C:\\other\\eledo-pty-bridge.exe".to_string());
    assert_eq!(
        eledo::bridge::locate_with(beside.clone(), on_path.clone()).unwrap(),
        "C:\\tools\\eledo-pty-bridge.exe"
    );
    assert_eq!(
        eledo::bridge::locate_with(None, on_path).unwrap(),
        "C:\\other\\eledo-pty-bridge.exe"
    );
    assert!(matches!(
        eledo::bridge::locate_with(None, None),
        Err(Error::BridgeNotFound)
    ));
    // A sibling copy short-circuits the search path entirely.
    assert_eq!(
        eledo::bridge::locate_pty_bridge(beside).unwrap(),
        "C:\\tools\\eledo-pty-bridge.exe"
    );
    // With no sibling, the search path decides; this machine carries
    // no bridge executable, so the lookup is a fatal error.
    assert!(matches!(
        eledo::bridge::locate_pty_bridge(None),
        Err(Error::BridgeNotFound)
    ));
}

#[test]
fn cursor_at_5_3_of_120_by_30_is_preserved() {
    let info = ScreenInfo {
        window_left: 0,
        window_top: 0,
        window_right: 119,
        window_bottom: 29,
        cursor_x: 5,
        cursor_y: 3,
    };
    assert_eq!(info.viewport_width(), 120);
    assert_eq!(info.viewport_height(), 30);
    assert_eq!(info.cursor_col(), 5);
    assert_eq!(info.cursor_row(), 3);

    // A scrolled buffer: the cursor row is viewport-relative.
    let scrolled = ScreenInfo { window_top: 100, window_bottom: 129, cursor_y: 103, ..info };
    assert_eq!(scrolled.viewport_height(), 30);
    assert_eq!(scrolled.cursor_row(), 3);

    // Degenerate rectangles still count one cell.
    let degenerate = ScreenInfo { window_right: -1, window_left: 0, ..info };
    assert_eq!(degenerate.viewport_width(), 1);
}
