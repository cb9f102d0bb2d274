use hyouga_chess::settings::EngineSettings;
use hyouga_chess::uci::{
    Command, IncomingMessage, Reply, ServiceState, UciArguments, UciService,
};
use hyouga_chess::{ENGINE_AUTHOR, ENGINE_NAME};

fn service() -> UciService {
    UciService::new(UciArguments {
        engine_settings: EngineSettings::default(),
    })
}

fn drain(s: &mut UciService) -> Vec<Reply> {
    let mut out = Vec::new();
    while let Some(r) = s.writer.next_message() {
        out.push(r);
    }
    out
}

fn identification() -> Reply {
    Reply::Id {
        name: ENGINE_NAME.to_string(),
        author: ENGINE_AUTHOR.to_string(),
    }
}

#[test]
fn handshake_yields_identification_then_uciok() {
    let mut s = service();
    assert!(s.handle_line("uci"));
    assert_eq!(drain(&mut s), vec![identification(), Reply::UciOk]);
    assert_eq!(s.state, ServiceState::Running);
}

#[test]
fn handshake_is_the_same_after_other_commands() {
    let mut s = service();
    s.handle_line("debug on");
    s.handle_line("setoption name Hash value 16");
    s.handle_line("uci");
    s.handle_line("uci");
    assert_eq!(
        drain(&mut s),
        vec![identification(), Reply::UciOk, identification(), Reply::UciOk]
    );
}

#[test]
fn readiness_reply_waits_for_signal() {
    let mut s = service();
    assert!(s.handle_line("isready"));
    assert_eq!(s.state, ServiceState::AwaitingReady);
    assert_eq!(s.writer.pending(), 0);
    assert!(!s.handle_line("uci"));
    assert_eq!(s.writer.pending(), 0);
    assert_eq!(
        s.next_work(),
        Some(IncomingMessage {
            message: Command::IsReady,
            handler: true,
        })
    );
    assert_eq!(s.next_work(), None);
    s.complete_ready(true);
    assert_eq!(s.state, ServiceState::Running);
    assert_eq!(drain(&mut s), vec![Reply::ReadyOk]);
}

#[test]
fn abandoned_readiness_signal_sends_nothing() {
    let mut s = service();
    s.handle_line("isready");
    s.complete_ready(false);
    assert_eq!(s.state, ServiceState::Running);
    assert_eq!(s.writer.pending(), 0);
    assert!(s.handle_line("uci"));
    assert_eq!(s.writer.pending(), 2);
}

#[test]
fn completion_without_waiting_changes_nothing() {
    let mut s = service();
    s.complete_ready(true);
    assert_eq!(s.writer.pending(), 0);
    assert_eq!(s.state, ServiceState::Running);
}

#[test]
fn debug_and_option_lines_write_settings() {
    let mut s = service();
    s.handle_line("debug on");
    assert!(s.engine_settings.debug());
    s.handle_line("setoption name Hash value 16");
    s.handle_line("setoption name Hash value 32");
    assert_eq!(s.engine_settings.get_option("Hash"), Some("32".to_string()));
    assert_eq!(s.engine_settings.option_count(), 1);
    s.handle_line("debug off");
    assert!(!s.engine_settings.debug());
    assert_eq!(s.writer.pending(), 0);
}

#[test]
fn option_without_value_is_ignored() {
    let mut s = service();
    s.handle_command(Command::SetOption {
        name: "Clear Hash".to_string(),
        value: None,
    });
    assert_eq!(s.engine_settings.option_count(), 0);
    assert_eq!(s.state, ServiceState::Running);
}

#[test]
fn garbage_line_changes_nothing() {
    let mut s = service();
    assert!(s.handle_line("xq7 !! zzz garbage"));
    assert_eq!(s.writer.pending(), 0);
    assert_eq!(s.engine_settings.option_count(), 0);
    assert!(!s.engine_settings.debug());
    assert_eq!(s.next_work(), None);
    assert_eq!(s.state, ServiceState::Running);
    assert!(s.handle_line("uci"));
    assert_eq!(s.writer.pending(), 2);
}

#[test]
fn engine_bound_line_is_dropped() {
    let mut s = service();
    assert!(s.handle_line("uciok"));
    assert!(s.handle_line("readyok"));
    assert_eq!(s.writer.pending(), 0);
    assert_eq!(s.state, ServiceState::Running);
}

#[test]
fn placeholder_commands_do_nothing() {
    let mut s = service();
    for line in ["ucinewgame", "position startpos moves e2e4", "go infinite", "stop", "ponderhit"] {
        assert!(s.handle_line(line));
    }
    assert_eq!(s.writer.pending(), 0);
    assert_eq!(s.engine_settings.option_count(), 0);
    assert_eq!(s.next_work(), None);
    assert_eq!(s.state, ServiceState::Running);
}

#[test]
fn quit_stops_routing_but_output_drains() {
    let mut s = service();
    s.handle_line("uci");
    assert!(s.handle_line("quit"));
    assert_eq!(s.state, ServiceState::Terminated);
    assert!(!s.handle_line("setoption name Hash value 64"));
    assert!(!s.handle_line("uci"));
    assert_eq!(s.engine_settings.option_count(), 0);
    assert_eq!(drain(&mut s), vec![identification(), Reply::UciOk]);
}

#[test]
fn end_of_input_terminates() {
    let mut s = service();
    s.handle_line("uci");
    s.end_of_input();
    assert_eq!(s.state, ServiceState::Terminated);
    assert!(!s.handle_line("debug on"));
    assert!(!s.engine_settings.debug());
    assert_eq!(s.writer.pending(), 2);
}

#[test]
fn overflowing_search_depth_is_dropped() {
    let mut s = service();
    for line in ["go depth 300", "go mate 999", "go movestogo 256", "info depth 400", "info seldepth 300", "GO DEPTH 300", "go ", "go infinite ", "go depth 5 "] {
        assert!(s.handle_line(line));
        assert_eq!(s.state, ServiceState::Running);
    }
    assert_eq!(s.writer.pending(), 0);
    assert_eq!(s.next_work(), None);
    assert!(s.handle_line("uci"));
    assert_eq!(s.writer.pending(), 2);
}

#[test]
fn go_lines_are_consumed_without_reply() {
    let mut s = service();
    assert!(s.handle_line("go depth 255"));
    assert_eq!(s.state, ServiceState::Running);
    assert_eq!(s.writer.pending(), 0);
}

#[test]
fn large_option_values_are_kept() {
    let mut s = service();
    assert!(s.handle_line("setoption name Hash value 4096"));
    assert_eq!(s.engine_settings.get_option("Hash"), Some("4096".to_string()));
    assert!(s.handle_line("setoption name Mate Search value 300"));
    assert_eq!(s.engine_settings.get_option("Mate Search"), Some("300".to_string()));
    assert!(s.handle_line("setoption name Book value ultimate300.bin"));
    assert_eq!(s.engine_settings.get_option("Book"), Some("ultimate300.bin".to_string()));
}

#[test]
fn debug_lines_keep_last_value_among_option_lines() {
    let mut s = service();
    for line in ["debug on", "setoption name Hash value 16", "debug off", "setoption name Threads value 2", "debug on", "setoption name Hash value 32"] {
        assert!(s.handle_line(line));
    }
    assert!(s.engine_settings.debug());
    assert_eq!(s.engine_settings.get_option("Hash"), Some("32".to_string()));
    assert_eq!(s.engine_settings.get_option("Threads"), Some("2".to_string()));
    assert_eq!(s.engine_settings.option_count(), 2);
    assert_eq!(s.writer.pending(), 0);
}

#[test]
fn no_line_is_routed_after_quit() {
    let mut s = service();
    assert!(s.handle_line("quit"));
    for line in ["uci", "debug on", "isready", "setoption name Hash value 16"] {
        assert!(!s.handle_line(line));
    }
    assert_eq!(s.state, ServiceState::Terminated);
    assert_eq!(s.writer.pending(), 0);
    assert_eq!(s.next_work(), None);
    assert!(!s.engine_settings.debug());
    assert_eq!(s.engine_settings.option_count(), 0);
}
