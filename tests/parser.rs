use aargal::parser::parse_line;

const LINE: &str = "203.0.113.9 - - [10/Oct/2024:13:55:36 +0000] \"GET /index.html HTTP/1.1\" 404 512 \"-\" \"Mozilla/5.0 (X11)\"";

#[test]
fn parses_combined_line() {
    let ev = parse_line(LINE, 77).unwrap();
    assert_eq!(ev.ip, "203.0.113.9");
    assert_eq!(ev.path, "/index.html");
    assert_eq!(ev.status, 404);
    assert_eq!(ev.user_agent.as_deref(), Some("Mozilla/5.0 (X11)"));
    assert_eq!(ev.timestamp, 77);
}

#[test]
fn line_without_quotes_is_rejected() {
    assert!(parse_line("203.0.113.9 - - GET / 200", 0).is_none());
    assert!(parse_line("", 0).is_none());
}

#[test]
fn request_without_path_is_rejected() {
    assert!(parse_line("1.2.3.4 \"GET\" 200 1", 0).is_none());
}

#[test]
fn missing_status_part_is_rejected() {
    assert!(parse_line("1.2.3.4 \"GET /x HTTP/1.1", 0).is_none());
}

#[test]
fn bad_status_is_rejected() {
    assert!(parse_line("1.2.3.4 \"GET /x\" abc 1", 0).is_none());
    assert!(parse_line("1.2.3.4 \"GET /x\" 70000 1", 0).is_none());
    assert!(parse_line("1.2.3.4 \"GET /x\" -1 1", 0).is_none());
    assert!(parse_line("1.2.3.4 \"GET /x\" + 1", 0).is_none());
}

#[test]
fn status_with_plus_sign_and_no_agent() {
    let ev = parse_line("1.2.3.4 \"GET /x\" +200 1", 5).unwrap();
    assert_eq!(ev.status, 200);
    assert_eq!(ev.path, "/x");
    assert!(ev.user_agent.is_none());
}

#[test]
fn missing_address_is_rejected() {
    assert!(parse_line("   \"GET /x\" 200 1", 0).is_none());
}

#[test]
fn trailing_newline_is_ignored() {
    let line = format!("{}\n", LINE);
    let ev = parse_line(&line, 1).unwrap();
    assert_eq!(ev.status, 404);
    assert_eq!(ev.user_agent.as_deref(), Some("Mozilla/5.0 (X11)"));
}
