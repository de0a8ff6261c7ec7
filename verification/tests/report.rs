use sfetch::paint::ColorTag;
use sfetch::report::{
    build_report, header_rule, memory_value, missing_notice, swap_value, DisplayLine, Label,
};
use sfetch::snapshot::HostSnapshot;

const NORMAL_STRIP: &str =
    "\x1b[40m   \x1b[41m   \x1b[42m   \x1b[43m   \x1b[44m   \x1b[45m   \x1b[46m   \x1b[47m   \x1b[0m";

const BRIGHT_STRIP: &str = "\x1b[48;5;8m   \x1b[48;5;9m   \x1b[48;5;10m   \x1b[48;5;11m   \x1b[48;5;12m   \x1b[48;5;13m   \x1b[48;5;14m   \x1b[48;5;15m   \x1b[0m";

fn full_snapshot() -> HostSnapshot {
    HostSnapshot {
        user: Some(String::from("alice")),
        host_name: String::from("wonderland"),
        os_name: String::from("Ubuntu"),
        os_version: String::from("22.04"),
        kernel_version: String::from("6.1.0-13-amd64"),
        cpu_brand: Some(String::from("Intel(R) Core(TM) i7-8550U CPU @ 1.80GHz  ")),
        total_memory: 16_000_000_000,
        used_memory: 4_000_000_000,
        total_swap: 2_000_000_000,
        used_swap: 500_000_000,
        uptime_seconds: 3661,
        local_ip: String::from("192.168.1.7"),
        shell: Some(String::from("/usr/bin/zsh")),
        term: Some(String::from("xterm-256color")),
        desktop: Some(String::from("GNOME")),
    }
}

fn entry(label: Label, value: &str) -> DisplayLine {
    DisplayLine::Entry(label, String::from(value))
}

#[test]
fn report_of_a_full_snapshot() {
    let lines = build_report(&full_snapshot());
    let expected = vec![
        DisplayLine::Header(String::from("alice@wonderland")),
        DisplayLine::Rule(String::from("================")),
        entry(Label::Os, "Ubuntu 22.04"),
        entry(Label::Cpu, "Intel(R) Core(TM) i7-8550U CPU @ 1.80GHz"),
        entry(Label::Kernel, "6.1.0-13-amd64"),
        entry(Label::Memory, "12.00 GB/16.00 GB"),
        entry(Label::Swap, "500.00 MB/2.00 GB"),
        entry(Label::Ip, "192.168.1.7"),
        entry(Label::Uptime, "1h 1m 1s"),
        entry(Label::Shell, "zsh"),
        entry(Label::Term, "xterm-256color"),
        entry(Label::Desktop, "GNOME"),
        DisplayLine::Swatch(String::from(NORMAL_STRIP)),
        DisplayLine::Swatch(String::from(BRIGHT_STRIP)),
    ];
    assert_eq!(lines, expected);
}

#[test]
fn report_without_optional_facts() {
    let mut snapshot = full_snapshot();
    snapshot.cpu_brand = None;
    snapshot.desktop = None;
    let lines = build_report(&snapshot);
    let expected = vec![
        DisplayLine::Header(String::from("alice@wonderland")),
        DisplayLine::Rule(String::from("================")),
        entry(Label::Os, "Ubuntu 22.04"),
        entry(Label::Kernel, "6.1.0-13-amd64"),
        entry(Label::Memory, "12.00 GB/16.00 GB"),
        entry(Label::Swap, "500.00 MB/2.00 GB"),
        entry(Label::Ip, "192.168.1.7"),
        entry(Label::Uptime, "1h 1m 1s"),
        entry(Label::Shell, "zsh"),
        entry(Label::Term, "xterm-256color"),
        DisplayLine::Swatch(String::from(NORMAL_STRIP)),
        DisplayLine::Swatch(String::from(BRIGHT_STRIP)),
    ];
    assert_eq!(lines, expected);
}

#[test]
fn report_without_environment_values() {
    let mut snapshot = full_snapshot();
    snapshot.user = None;
    snapshot.shell = None;
    snapshot.term = None;
    let lines = build_report(&snapshot);
    let expected = vec![
        DisplayLine::Notice(String::from("USER environment variable is not set.")),
        entry(Label::Os, "Ubuntu 22.04"),
        entry(Label::Cpu, "Intel(R) Core(TM) i7-8550U CPU @ 1.80GHz"),
        entry(Label::Kernel, "6.1.0-13-amd64"),
        entry(Label::Memory, "12.00 GB/16.00 GB"),
        entry(Label::Swap, "500.00 MB/2.00 GB"),
        entry(Label::Ip, "192.168.1.7"),
        entry(Label::Uptime, "1h 1m 1s"),
        DisplayLine::Notice(String::from("SHELL environment variable is not set.")),
        DisplayLine::Notice(String::from("TERM environment variable is not set.")),
        entry(Label::Desktop, "GNOME"),
        DisplayLine::Swatch(String::from(NORMAL_STRIP)),
        DisplayLine::Swatch(String::from(BRIGHT_STRIP)),
    ];
    assert_eq!(lines, expected);
}

#[test]
fn report_shows_a_probe_diagnostic_as_the_address() {
    let mut snapshot = full_snapshot();
    snapshot.local_ip = String::from("Network unreachable.");
    let lines = build_report(&snapshot);
    assert_eq!(lines[7], entry(Label::Ip, "Network unreachable."));
}

#[test]
fn memory_shows_free_of_total() {
    assert_eq!(memory_value(16_000_000_000, 4_000_000_000), "12.00 GB/16.00 GB");
    assert_eq!(memory_value(8_000, 8_000), "0.00 B/8.00 KB");
    assert_eq!(memory_value(1_000_000, 0), "1.00 MB/1.00 MB");
    assert_eq!(memory_value(0, 0), "0.00 B/0.00 B");
}

#[test]
fn memory_in_use_beyond_the_total_leaves_nothing_free() {
    assert_eq!(memory_value(4_000_000_000, 5_000_000_000), "0.00 B/4.00 GB");
    assert_eq!(memory_value(0, u64::MAX), "0.00 B/0.00 B");
    let mut snapshot = full_snapshot();
    snapshot.total_memory = 1_000;
    snapshot.used_memory = 2_000;
    let lines = build_report(&snapshot);
    assert_eq!(lines[5], entry(Label::Memory, "0.00 B/1.00 KB"));
}

#[test]
fn swap_shows_used_of_total() {
    assert_eq!(swap_value(2_000_000_000, 500_000_000), "500.00 MB/2.00 GB");
    assert_eq!(swap_value(0, 0), "0.00 B/0.00 B");
    assert_eq!(swap_value(1_000, 2_000), "2.00 KB/1.00 KB");
}

#[test]
fn rule_is_as_long_as_the_header() {
    let mut snapshot = full_snapshot();
    snapshot.user = Some(String::from("root"));
    snapshot.host_name = String::from("localhost.localdomain");
    let lines = build_report(&snapshot);
    assert_eq!(lines[0], DisplayLine::Header(String::from("root@localhost.localdomain")));
    assert_eq!(lines[1], DisplayLine::Rule("=".repeat(26)));
}

#[test]
fn rule_counts_characters_not_bytes() {
    let mut snapshot = full_snapshot();
    snapshot.user = Some(String::from("zoë"));
    snapshot.host_name = String::from("büro");
    let lines = build_report(&snapshot);
    assert_eq!(lines[0], DisplayLine::Header(String::from("zoë@büro")));
    assert_eq!(lines[1], DisplayLine::Rule(String::from("========")));
}

#[test]
fn rule_of_empty_user_and_host() {
    let mut snapshot = full_snapshot();
    snapshot.user = Some(String::new());
    snapshot.host_name = String::new();
    let lines = build_report(&snapshot);
    assert_eq!(lines[0], DisplayLine::Header(String::from("@")));
    assert_eq!(lines[1], DisplayLine::Rule(String::from("=")));
}

#[test]
fn rule_of_a_given_length() {
    assert_eq!(header_rule(0), "");
    assert_eq!(header_rule(5), "=====");
}

#[test]
fn notice_names_the_variable() {
    assert_eq!(missing_notice("USER"), "USER environment variable is not set.");
    assert_eq!(missing_notice("TERM"), "TERM environment variable is not set.");
}

#[test]
fn shell_without_a_slash_is_shown_unchanged() {
    let mut snapshot = full_snapshot();
    snapshot.shell = Some(String::from("fish"));
    let lines = build_report(&snapshot);
    assert_eq!(lines[9], entry(Label::Shell, "fish"));
}

#[test]
fn labels_and_their_colors() {
    let expected = [
        (Label::Os, "OS", ColorTag::BrightRed),
        (Label::Cpu, "Cpu", ColorTag::BrightGreen),
        (Label::Kernel, "Kernel", ColorTag::BrightMagenta),
        (Label::Memory, "Memory", ColorTag::BrightYellow),
        (Label::Swap, "Swap", ColorTag::BrightCyan),
        (Label::Ip, "Ip", ColorTag::BrightMagenta),
        (Label::Uptime, "Uptime", ColorTag::BrightRed),
        (Label::Shell, "Shell", ColorTag::BrightGreen),
        (Label::Term, "Term", ColorTag::BrightYellow),
        (Label::Desktop, "De/Wm", ColorTag::BrightCyan),
    ];
    for (label, text, color) in expected {
        assert_eq!(label.as_str(), text);
        assert_eq!(label.color_tag(), color);
    }
}
