use thaw_cli::cli::{BuildCommands, Cli, Commands, ServeCommands, ServeCsrArgs, ServeSsrArgs};
use thaw_cli::dev_loop::ServerMode;
use thaw_cli::message::{normalize_path, CargoPackagingMessage, Kind, Message, PrintAction, PrintMessage};
use thaw_cli::text::decimal_chars;
use thaw_cli::ws::{
    is_ping_probe, live_reload_path, ping_protocol, session_frames, thaw_cli_ws_path, WsFrame,
    WsMessage,
};

fn text(f: &WsFrame) -> Option<&str> {
    match f {
        WsFrame::Text(t) => Some(t.as_str()),
        WsFrame::Ping => None,
    }
}

#[test]
fn native_frames_are_tagged_json() {
    assert_eq!(text(&WsMessage::Connected.into_frame(false)), Some("{\"type\":\"Connected\"}"));
    assert_eq!(text(&WsMessage::RefreshPage.into_frame(false)), Some("{\"type\":\"RefreshPage\"}"));
}

#[test]
fn cargo_leptos_frames() {
    assert!(matches!(WsMessage::Connected.into_frame(true), WsFrame::Ping));
    assert_eq!(text(&WsMessage::RefreshPage.into_frame(true)), Some("{\"all\":\"reload\"}"));
}

#[test]
fn ping_probe_gets_no_frames() {
    assert!(is_ping_probe(Some("thaw-cli-ping")));
    assert!(!is_ping_probe(Some("other")));
    assert!(!is_ping_probe(None));
    assert!(session_frames(Some(ping_protocol()), false, 3).is_empty());
}

#[test]
fn session_gets_connected_then_one_refresh_per_reload() {
    let frames = session_frames(None, false, 2);
    assert_eq!(frames.len(), 3);
    assert_eq!(text(&frames[0]), Some("{\"type\":\"Connected\"}"));
    assert_eq!(text(&frames[2]), Some("{\"type\":\"RefreshPage\"}"));
    assert_eq!(thaw_cli_ws_path(), "/__thaw_cli__");
    assert_eq!(live_reload_path(), "/live_reload");
}

#[test]
fn compiler_lines_are_classified_by_their_start() {
    let m = CargoPackagingMessage::from_line("   Compiling foo v0.1.0".to_string());
    assert!(matches!(m, CargoPackagingMessage::Compiling(ref t) if t == "Compiling foo v0.1.0"));
    let m = CargoPackagingMessage::from_line("    Blocking waiting for file lock".to_string());
    assert!(matches!(m, CargoPackagingMessage::Blocking(_)));
    let m = CargoPackagingMessage::from_line("    Finished `dev` profile".to_string());
    assert!(matches!(m, CargoPackagingMessage::Finished(_)));
    let m = CargoPackagingMessage::from_line("warning: unused".to_string());
    assert!(matches!(m, CargoPackagingMessage::Warning(_)));
    let m = CargoPackagingMessage::from_line("  something else".to_string());
    assert!(matches!(m, CargoPackagingMessage::Other(ref t) if t == "  something else"));
    let m = CargoPackagingMessage::from_line("Compiling".to_string());
    assert!(matches!(m, CargoPackagingMessage::Other(_)));
}

#[test]
fn diagnostic_lines_keep_their_rendering() {
    let line = r#"{"message":"unused variable","code":null,"level":"warning","spans":[],"children":[],"rendered":"warning: unused variable\n"}"#;
    let m = CargoPackagingMessage::from_line(line.to_string());
    assert!(matches!(m, CargoPackagingMessage::CompilerMessage(ref t) if t == "warning: unused variable\n"));
    assert_eq!(m.text(), "warning: unused variable\n");
}

#[test]
fn progress_lines_overwrite_each_other() {
    let mut p = PrintMessage::new();
    let compiling = || Message::CargoPackaging(CargoPackagingMessage::Compiling("Compiling a".to_string()));
    assert_eq!(p.print(compiling()), PrintAction::Append);
    assert_eq!(p.print(compiling()), PrintAction::Overlay);
    assert_eq!(p.print(Message::CargoPackaging(CargoPackagingMessage::Warning("warning: x".to_string()))), PrintAction::Wrap);
    assert_eq!(p.print(Message::CargoBuildFinished), PrintAction::Append);
    assert_eq!(p.print(Message::InitBuildFinished), PrintAction::Reset);
    assert!(p.last_message.is_none());
    assert_eq!(p.print(Message::Build("a".to_string())), PrintAction::Append);
    assert_eq!(p.print(Message::PageReload(vec![], Ok(()))), PrintAction::Overlay);
    assert_eq!(p.last_message.as_ref().map(|m| m.kind()), Some(Kind::PageReload));
}

#[test]
fn paths_are_shown_with_slashes_on_windows() {
    assert_eq!(normalize_path("src\\lib.rs", true), "src/lib.rs");
    assert_eq!(normalize_path("src\\lib.rs", false), "src\\lib.rs");
}

#[test]
fn commands_select_mode_and_rendering() {
    let build = Cli::new(Commands::Build(BuildCommands::Ssr));
    assert!(!build.is_serve());
    assert!(build.is_ssr());
    assert_eq!(build.mode(), "production");
    assert!(!build.open(true));
    let serve = Cli::new(Commands::Serve(ServeCommands::Csr(ServeCsrArgs { open: None })));
    assert!(serve.is_serve());
    assert!(!serve.is_ssr());
    assert_eq!(serve.mode(), "development");
    assert_eq!(serve.server_mode(), ServerMode::Csr);
    assert!(serve.open(true));
    let ssr = Cli::new(Commands::Serve(ServeCommands::Ssr(ServeSsrArgs { open: Some(false) })));
    assert_eq!(ssr.server_mode(), ServerMode::Ssr);
    assert!(!ssr.open(true));
}

#[test]
fn decimal_digits() {
    assert_eq!(decimal_chars(0), vec!['0']);
    assert_eq!(decimal_chars(6321).into_iter().collect::<String>(), "6321");
    assert_eq!(decimal_chars(u32::MAX).into_iter().collect::<String>(), "4294967295");
}
