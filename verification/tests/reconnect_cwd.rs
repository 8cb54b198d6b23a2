use nyaterm::reconnect_cwd::build_ssh_reconnect_cwd_command;

#[test]
fn quotes_reconnect_cwd_for_posix_shells() {
    assert_eq!(
        build_ssh_reconnect_cwd_command("/srv/team's files"),
        Some("cd -- '/srv/team'\\''s files'".to_string())
    );
}

#[test]
fn rejects_empty_or_control_bearing_reconnect_cwd() {
    assert_eq!(build_ssh_reconnect_cwd_command(""), None);
    assert_eq!(build_ssh_reconnect_cwd_command("/tmp\nrm -rf /"), None);
    assert_eq!(build_ssh_reconnect_cwd_command("/tmp\u{0000}suffix"), None);
}

#[test]
fn reconnect_cwd_keeps_plain_and_unicode_paths() {
    assert_eq!(
        build_ssh_reconnect_cwd_command("/home/用户"),
        Some("cd -- '/home/用户'".to_string())
    );
    assert_eq!(
        build_ssh_reconnect_cwd_command("''"),
        Some("cd -- ''\\'''\\'''".to_string())
    );
    assert_eq!(build_ssh_reconnect_cwd_command("/a\u{85}b"), None);
}
