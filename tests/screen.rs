use hyouga_chess::screen::safe_to_parse_line;

#[test]
fn acted_on_commands_reach_the_parser() {
    assert!(safe_to_parse_line("uci"));
    assert!(safe_to_parse_line("  \tUCI"));
    assert!(safe_to_parse_line("debug on"));
    assert!(safe_to_parse_line("isready"));
    assert!(safe_to_parse_line("setoption name Mate Search value 300"));
    assert!(safe_to_parse_line("ucinewgame"));
    assert!(safe_to_parse_line("stop"));
    assert!(safe_to_parse_line("PonderHit"));
    assert!(safe_to_parse_line("quit"));
}

#[test]
fn other_lines_do_not_reach_the_parser() {
    assert!(!safe_to_parse_line(""));
    assert!(!safe_to_parse_line("   "));
    assert!(!safe_to_parse_line("go "));
    assert!(!safe_to_parse_line("go infinite "));
    assert!(!safe_to_parse_line("go depth 300"));
    assert!(!safe_to_parse_line("info depth 400"));
    assert!(!safe_to_parse_line("position startpos moves e2e4"));
    assert!(!safe_to_parse_line("register later"));
    assert!(!safe_to_parse_line("Hyōga uci"));
    assert!(!safe_to_parse_line("x uci"));
}
