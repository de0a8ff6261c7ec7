use colored::control::set_override;
use sfetch::render::{render_line, render_report};
use sfetch::report::{build_report, DisplayLine, Label};
use sfetch::snapshot::HostSnapshot;

#[test]
fn plain_header_is_the_text() {
    set_override(false);
    let out = render_line(&DisplayLine::Header(String::from("alice@wonderland")));
    assert_eq!(out, "alice@wonderland");
}

#[test]
fn plain_entry_has_label_arrow_and_value() {
    set_override(false);
    let out = render_line(&DisplayLine::Entry(Label::Memory, String::from("1.00 GB/2.00 GB")));
    assert_eq!(out, "Memory\t=>\t1.00 GB/2.00 GB");
}

#[test]
fn plain_entry_with_empty_value() {
    set_override(false);
    let out = render_line(&DisplayLine::Entry(Label::Term, String::new()));
    assert_eq!(out, "Term\t=>\t");
}

#[test]
fn plain_report_of_a_snapshot() {
    set_override(false);
    let snapshot = HostSnapshot {
        user: Some(String::from("bob")),
        host_name: String::from("box"),
        os_name: String::from("Debian GNU/Linux"),
        os_version: String::from("12"),
        kernel_version: String::from("6.1.0"),
        cpu_brand: None,
        total_memory: 8_000_000_000,
        used_memory: 6_500_000_000,
        total_swap: 0,
        used_swap: 0,
        uptime_seconds: 90061,
        local_ip: String::from("Failed to bind to a socket."),
        shell: Some(String::from("/bin/bash")),
        term: None,
        desktop: None,
    };
    let out = render_report(&build_report(&snapshot));
    let expected = vec![
        "bob@box",
        "=======",
        "OS\t=>\tDebian GNU/Linux 12",
        "Kernel\t=>\t6.1.0",
        "Memory\t=>\t1.50 GB/8.00 GB",
        "Swap\t=>\t0.00 B/0.00 B",
        "Ip\t=>\tFailed to bind to a socket.",
        "Uptime\t=>\t1d 1h 1m 1s",
        "Shell\t=>\tbash",
        "TERM environment variable is not set.",
        "\x1b[40m   \x1b[41m   \x1b[42m   \x1b[43m   \x1b[44m   \x1b[45m   \x1b[46m   \x1b[47m   \x1b[0m",
        "\x1b[48;5;8m   \x1b[48;5;9m   \x1b[48;5;10m   \x1b[48;5;11m   \x1b[48;5;12m   \x1b[48;5;13m   \x1b[48;5;14m   \x1b[48;5;15m   \x1b[0m",
    ];
    assert_eq!(out, expected);
}
