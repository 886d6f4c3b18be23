use aargal::output::fail2ban::{ban_line, format_command};

#[test]
fn formats_fail2ban_command() {
    let cmd = format_command("aargal-auto", "1.2.3.4");
    assert_eq!(cmd, "set aargal-auto banip 1.2.3.4");
}

#[test]
fn ban_line_ends_with_newline() {
    assert_eq!(ban_line("web", "::1"), "set web banip ::1\n");
}
