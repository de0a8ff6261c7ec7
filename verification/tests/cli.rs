use sfetch::cli::{
    clear_screen_sequence, help_text, parse_command, unknown_flag_message, version_line, Command,
};

fn args(items: &[&str]) -> Vec<String> {
    items.iter().map(|item| item.to_string()).collect()
}

#[test]
fn no_argument_asks_for_the_report() {
    assert_eq!(parse_command(&args(&["sfetch"])), Command::Report);
}

#[test]
fn help_flags() {
    assert_eq!(parse_command(&args(&["sfetch", "--help"])), Command::Help);
    assert_eq!(parse_command(&args(&["sfetch", "-h"])), Command::Help);
}

#[test]
fn version_flags() {
    assert_eq!(parse_command(&args(&["sfetch", "--version"])), Command::Version);
    assert_eq!(parse_command(&args(&["sfetch", "-v"])), Command::Version);
}

#[test]
fn unknown_flag_is_reported_and_no_snapshot_collected() {
    let command = parse_command(&args(&["sfetch", "--bogus"]));
    assert_eq!(command, Command::UnknownFlag(String::from("--bogus")));
    assert_ne!(command, Command::Report);
    assert_eq!(unknown_flag_message("--bogus"), "Unknown flag: --bogus");
}

#[test]
fn flags_are_matched_exactly() {
    assert_eq!(
        parse_command(&args(&["sfetch", "--Help"])),
        Command::UnknownFlag(String::from("--Help"))
    );
    assert_eq!(parse_command(&args(&["sfetch", ""])), Command::UnknownFlag(String::new()));
    assert_eq!(
        parse_command(&args(&["sfetch", "-hv"])),
        Command::UnknownFlag(String::from("-hv"))
    );
}

#[test]
fn more_than_one_argument_asks_for_the_report() {
    assert_eq!(parse_command(&args(&["sfetch", "--help", "--version"])), Command::Report);
    assert_eq!(parse_command(&args(&["sfetch", "--bogus", "x"])), Command::Report);
}

#[test]
fn no_program_name_asks_for_the_report() {
    assert_eq!(parse_command(&args(&[])), Command::Report);
}

#[test]
fn version_line_names_the_program() {
    assert_eq!(version_line("0.1.0"), "sfetch 0.1.0");
}

#[test]
fn usage_lists_both_flags() {
    let usage = help_text();
    assert!(usage.starts_with("usage:\n    sfetch\n"));
    assert!(usage.contains("-v | --version to see version info"));
    assert!(usage.contains("-h | --help to get this message and exit"));
}

#[test]
fn clear_sequence_clears_and_homes() {
    assert_eq!(clear_screen_sequence(), "\x1B[2J\x1B[1;1H");
}
