use colored::control::set_override;
use sfetch::render::{assemble_entry, render_line, render_report};
use sfetch::report::{DisplayLine, Label};

const GRAY_ARROW: &str = "\x1b[38;2;112;112;112m=>\x1b[0m";

const BASIC_ARROW: &str = "\x1b[90m=>\x1b[0m";

fn is_entry(out: &str, painted_label: &str, value: &str) -> bool {
    out == format!("{}\t{}\t{}", painted_label, GRAY_ARROW, value)
        || out == format!("{}\t{}\t{}", painted_label, BASIC_ARROW, value)
}

#[test]
fn colored_header_is_bright_blue() {
    set_override(true);
    let out = render_line(&DisplayLine::Header(String::from("alice@wonderland")));
    assert_eq!(out, "\x1b[94malice@wonderland\x1b[0m");
}

#[test]
fn colored_header_takes_up_its_color_behind_a_reset() {
    set_override(true);
    let out = render_line(&DisplayLine::Header(String::from("a\x1b[0mb@c\x1b[0m")));
    assert_eq!(out, "\x1b[94ma\x1b[0m\x1b[94mb@c\x1b[0m\x1b[94m\x1b[0m");
}

#[test]
fn colored_entry_has_label_arrow_and_value() {
    set_override(true);
    let out = render_line(&DisplayLine::Entry(Label::Os, String::from("Ubuntu 22.04")));
    assert!(is_entry(&out, "\x1b[91mOS\x1b[0m", "Ubuntu 22.04"));
}

#[test]
fn colored_labels_each_in_their_color() {
    set_override(true);
    let expected = [
        (Label::Os, "\x1b[91mOS\x1b[0m"),
        (Label::Cpu, "\x1b[92mCpu\x1b[0m"),
        (Label::Kernel, "\x1b[95mKernel\x1b[0m"),
        (Label::Memory, "\x1b[93mMemory\x1b[0m"),
        (Label::Swap, "\x1b[96mSwap\x1b[0m"),
        (Label::Ip, "\x1b[95mIp\x1b[0m"),
        (Label::Uptime, "\x1b[91mUptime\x1b[0m"),
        (Label::Shell, "\x1b[92mShell\x1b[0m"),
        (Label::Term, "\x1b[93mTerm\x1b[0m"),
        (Label::Desktop, "\x1b[96mDe/Wm\x1b[0m"),
    ];
    for (label, painted) in expected {
        let out = render_line(&DisplayLine::Entry(label, String::from("value")));
        assert!(is_entry(&out, painted, "value"));
    }
}

#[test]
fn colored_report_leaves_other_lines_as_they_are() {
    set_override(true);
    let lines = vec![
        DisplayLine::Rule(String::from("====")),
        DisplayLine::Notice(String::from("TERM environment variable is not set.")),
        DisplayLine::Swatch(String::from("\x1b[40m   \x1b[0m")),
    ];
    assert_eq!(
        render_report(&lines),
        vec!["====", "TERM environment variable is not set.", "\x1b[40m   \x1b[0m"]
    );
}

#[test]
fn colored_report_renders_every_line_in_order() {
    set_override(true);
    let lines = vec![
        DisplayLine::Header(String::from("a@b")),
        DisplayLine::Rule(String::from("===")),
        DisplayLine::Entry(Label::Ip, String::from("10.0.0.7")),
    ];
    let out = render_report(&lines);
    assert_eq!(out.len(), 3);
    assert_eq!(out[0], "\x1b[94ma@b\x1b[0m");
    assert_eq!(out[1], "===");
    assert!(is_entry(&out[2], "\x1b[95mIp\x1b[0m", "10.0.0.7"));
}

#[test]
fn entry_is_put_together_with_tabs() {
    assert_eq!(assemble_entry("label", "=>", "value"), "label\t=>\tvalue");
    assert_eq!(assemble_entry("", "", ""), "\t\t");
}
