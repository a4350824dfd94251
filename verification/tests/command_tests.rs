use catalyst::command::{parse_command, PostCommand};

fn target_of(c: Option<PostCommand>) -> (String, String) {
    match c {
        Some(PostCommand::Delete { target }) => ("delete".to_string(), target),
        Some(PostCommand::Link { target }) => ("link".to_string(), target),
        None => ("none".to_string(), String::new()),
    }
}

#[test]
fn delete_command_is_read() {
    assert_eq!(target_of(parse_command("{{delete:abc}} rest")), ("delete".to_string(), "abc".to_string()));
}

#[test]
fn link_command_keeps_target_as_written() {
    assert_eq!(target_of(parse_command("{{link: xyz }}")), ("link".to_string(), " xyz ".to_string()));
}

#[test]
fn unclosed_command_runs_to_end() {
    assert_eq!(target_of(parse_command("{{delete:abc")), ("delete".to_string(), "abc".to_string()));
}

#[test]
fn command_must_open_the_content() {
    assert!(parse_command(" {{delete:abc}}").is_none());
    assert!(parse_command("{delete:abc}").is_none());
    assert!(parse_command("").is_none());
    assert!(parse_command("{").is_none());
}

#[test]
fn command_needs_exactly_one_colon() {
    assert!(parse_command("{{delete}}").is_none());
    assert!(parse_command("{{delete:a:b}}").is_none());
    assert!(parse_command("{{link::}}").is_none());
}

#[test]
fn unknown_commands_are_ignored() {
    assert!(parse_command("{{remove:abc}}").is_none());
    assert!(parse_command("{{Delete:abc}}").is_none());
}

#[test]
fn empty_target_is_kept() {
    assert_eq!(target_of(parse_command("{{delete:}}")), ("delete".to_string(), String::new()));
}

#[test]
fn first_closer_ends_the_command() {
    assert_eq!(target_of(parse_command("{{link:a}}b}}")), ("link".to_string(), "a".to_string()));
}
