//! The report: the lines that a snapshot is shown as, in their fixed order.
//!
//! The order is: the identity header `user@host` with a rule of `=` as long
//! as the header under it; operating system; processor; kernel; memory; swap;
//! local address; uptime; shell; terminal; desktop environment; and the two
//! palette strips. A processor brand or a desktop environment that is absent
//! leaves its line out. An absent user, shell or terminal type puts a notice
//! that names the missing environment variable in the line's place.

use vstd::prelude::*;
use vstd::string::*;
use crate::paint::ColorTag;
use crate::palette::{get_bright_colors, get_normal_colors, palette_strip};
use crate::snapshot::{
    basename,
    shell_basename,
    trim_brand,
    trim_trailing_spaces,
    HostSnapshot,
    SnapshotModel,
};
use crate::units::{bytes_to_human_readable, lemma_scale_bytes_zero, scale_bytes};
use crate::uptime::{format_uptime, uptime_text};

verus! {

/// The label of a report entry.
#[derive(Clone, Copy, PartialEq, Eq, Structural, Debug)]
pub enum Label {
    Os,
    Cpu,
    Kernel,
    Memory,
    Swap,
    Ip,
    Uptime,
    Shell,
    Term,
    Desktop,
}

impl Label {
    /// The label as shown.
    pub open spec fn text(self) -> Seq<char> {
        match self {
            Label::Os => seq!['O', 'S'],
            Label::Cpu => seq!['C', 'p', 'u'],
            Label::Kernel => seq!['K', 'e', 'r', 'n', 'e', 'l'],
            Label::Memory => seq!['M', 'e', 'm', 'o', 'r', 'y'],
            Label::Swap => seq!['S', 'w', 'a', 'p'],
            Label::Ip => seq!['I', 'p'],
            Label::Uptime => seq!['U', 'p', 't', 'i', 'm', 'e'],
            Label::Shell => seq!['S', 'h', 'e', 'l', 'l'],
            Label::Term => seq!['T', 'e', 'r', 'm'],
            Label::Desktop => seq!['D', 'e', '/', 'W', 'm'],
        }
    }

    /// The colour in which the label is shown.
    pub open spec fn color(self) -> ColorTag {
        match self {
            Label::Os => ColorTag::BrightRed,
            Label::Cpu => ColorTag::BrightGreen,
            Label::Kernel => ColorTag::BrightMagenta,
            Label::Memory => ColorTag::BrightYellow,
            Label::Swap => ColorTag::BrightCyan,
            Label::Ip => ColorTag::BrightMagenta,
            Label::Uptime => ColorTag::BrightRed,
            Label::Shell => ColorTag::BrightGreen,
            Label::Term => ColorTag::BrightYellow,
            Label::Desktop => ColorTag::BrightCyan,
        }
    }

    /// The label as shown.
    pub fn as_str(self) -> (r: &'static str)
        ensures
            r@ == self.text(),
    {
        proof {
            reveal_strlit("OS");
            reveal_strlit("Cpu");
            reveal_strlit("Kernel");
            reveal_strlit("Memory");
            reveal_strlit("Swap");
            reveal_strlit("Ip");
            reveal_strlit("Uptime");
            reveal_strlit("Shell");
            reveal_strlit("Term");
            reveal_strlit("De/Wm");
        }
        let r: &'static str = match self {
            Label::Os => "OS",
            Label::Cpu => "Cpu",
            Label::Kernel => "Kernel",
            Label::Memory => "Memory",
            Label::Swap => "Swap",
            Label::Ip => "Ip",
            Label::Uptime => "Uptime",
            Label::Shell => "Shell",
            Label::Term => "Term",
            Label::Desktop => "De/Wm",
        };
        assert(r@ =~= self.text());
        r
    }

    /// The colour in which the label is shown.
    pub fn color_tag(self) -> (tag: ColorTag)
        ensures
            tag == self.color(),
    {
        match self {
            Label::Os => ColorTag::BrightRed,
            Label::Cpu => ColorTag::BrightGreen,
            Label::Kernel => ColorTag::BrightMagenta,
            Label::Memory => ColorTag::BrightYellow,
            Label::Swap => ColorTag::BrightCyan,
            Label::Ip => ColorTag::BrightMagenta,
            Label::Uptime => ColorTag::BrightRed,
            Label::Shell => ColorTag::BrightGreen,
            Label::Term => ColorTag::BrightYellow,
            Label::Desktop => ColorTag::BrightCyan,
        }
    }
}

/// One line of the report.
#[derive(Debug, PartialEq, Eq)]
pub enum DisplayLine {
    /// The identity header, `user@host`.
    Header(String),
    /// The rule under the header.
    Rule(String),
    /// A labelled value.
    Entry(Label, String),
    /// A notice that stands in for a line whose value is missing.
    Notice(String),
    /// A strip of palette colours.
    Swatch(String),
}

/// A line of the report as mathematical values.
pub enum LineModel {
    Header(Seq<char>),
    Rule(Seq<char>),
    Entry(Label, Seq<char>),
    Notice(Seq<char>),
    Swatch(Seq<char>),
}

impl View for DisplayLine {
    type V = LineModel;

    open spec fn view(&self) -> LineModel {
        match self {
            DisplayLine::Header(text) => LineModel::Header(text@),
            DisplayLine::Rule(text) => LineModel::Rule(text@),
            DisplayLine::Entry(label, value) => LineModel::Entry(*label, value@),
            DisplayLine::Notice(text) => LineModel::Notice(text@),
            DisplayLine::Swatch(text) => LineModel::Swatch(text@),
        }
    }
}

impl DeepView for DisplayLine {
    type V = LineModel;

    open spec fn deep_view(&self) -> LineModel {
        self.view()
    }
}

/// The header of a user on a host.
pub open spec fn header_text(user: Seq<char>, host_name: Seq<char>) -> Seq<char> {
    user + seq!['@'] + host_name
}

/// A rule of `length` characters, each of them `=`.
pub open spec fn rule_text(length: nat) -> Seq<char> {
    Seq::new(length, |i: int| '=')
}

/// The notice for an environment variable that is not set.
pub open spec fn missing_variable_notice(name: Seq<char>) -> Seq<char> {
    name + " environment variable is not set."@
}

/// The bytes that are free where `used` of `total` are in use; zero where
/// `used` exceeds `total`.
pub open spec fn free_bytes(total: nat, used: nat) -> nat {
    if used <= total {
        (total - used) as nat
    } else {
        0
    }
}

/// Two byte counts, scaled, with a `/` between them.
pub open spec fn ratio_text(part: nat, whole: nat) -> Seq<char> {
    scale_bytes(part) + seq!['/'] + scale_bytes(whole)
}

/// The value of the memory entry: free of total.
pub open spec fn memory_text(total: nat, used: nat) -> Seq<char> {
    ratio_text(free_bytes(total, used), total)
}

/// The value of the swap entry: used of total.
pub open spec fn swap_text(total: nat, used: nat) -> Seq<char> {
    ratio_text(used, total)
}

/// The value of the operating-system entry: name and version.
pub open spec fn os_text(name: Seq<char>, version: Seq<char>) -> Seq<char> {
    name + seq![' '] + version
}

/// The lines that identify user and host.
pub open spec fn identity_lines(user: Option<Seq<char>>, host_name: Seq<char>) -> Seq<LineModel> {
    match user {
        Some(user) => {
            let header = header_text(user, host_name);
            seq![LineModel::Header(header), LineModel::Rule(rule_text(header.len()))]
        },
        None => seq![LineModel::Notice(missing_variable_notice("USER"@))],
    }
}

/// The line of an entry that is left out where its value is absent.
pub open spec fn optional_entry(label: Label, value: Option<Seq<char>>) -> Seq<LineModel> {
    match value {
        Some(value) => seq![LineModel::Entry(label, value)],
        None => Seq::empty(),
    }
}

/// The line of an entry whose value comes from an environment variable: the
/// entry, or the notice that the variable is not set.
pub open spec fn entry_or_notice(
    label: Label,
    value: Option<Seq<char>>,
    variable: Seq<char>,
) -> Seq<LineModel> {
    match value {
        Some(value) => seq![LineModel::Entry(label, value)],
        None => seq![LineModel::Notice(missing_variable_notice(variable))],
    }
}

/// The brand of the processor as shown.
pub open spec fn shown_brand(brand: Option<Seq<char>>) -> Option<Seq<char>> {
    match brand {
        Some(brand) => Some(trim_trailing_spaces(brand)),
        None => None,
    }
}

/// The shell as shown: the final segment of its path.
pub open spec fn shown_shell(shell: Option<Seq<char>>) -> Option<Seq<char>> {
    match shell {
        Some(path) => Some(basename(path)),
        None => None,
    }
}

/// The entries on memory, swap, local address and uptime.
pub open spec fn resource_lines(snapshot: SnapshotModel) -> Seq<LineModel> {
    seq![
        LineModel::Entry(Label::Memory, memory_text(snapshot.total_memory, snapshot.used_memory)),
        LineModel::Entry(Label::Swap, swap_text(snapshot.total_swap, snapshot.used_swap)),
        LineModel::Entry(Label::Ip, snapshot.local_ip),
        LineModel::Entry(Label::Uptime, uptime_text(snapshot.uptime_seconds)),
    ]
}

/// The two palette strips: normal colours, then bright colours.
pub open spec fn swatch_lines() -> Seq<LineModel> {
    seq![LineModel::Swatch(palette_strip(0, 8)), LineModel::Swatch(palette_strip(8, 16))]
}

/// The lines up to and including the kernel entry.
pub open spec fn leading_lines(snapshot: SnapshotModel) -> Seq<LineModel> {
    identity_lines(snapshot.user, snapshot.host_name) + seq![
        LineModel::Entry(Label::Os, os_text(snapshot.os_name, snapshot.os_version)),
    ] + optional_entry(Label::Cpu, shown_brand(snapshot.cpu_brand)) + seq![
        LineModel::Entry(Label::Kernel, snapshot.kernel_version),
    ]
}

/// The report of a snapshot.
pub open spec fn report(snapshot: SnapshotModel) -> Seq<LineModel> {
    leading_lines(snapshot) + resource_lines(snapshot) + entry_or_notice(
        Label::Shell,
        shown_shell(snapshot.shell),
        "SHELL"@,
    ) + entry_or_notice(Label::Term, snapshot.term, "TERM"@) + optional_entry(
        Label::Desktop,
        snapshot.desktop,
    ) + swatch_lines()
}

/// The memory entry shows the free bytes of the total: what is left of the
/// total where no more than the total is in use, and `0.00 B` where more is.
pub proof fn lemma_memory_text(total: nat, used: nat)
    ensures
        used <= total ==> memory_text(total, used) == scale_bytes((total - used) as nat) + seq![
            '/',
        ] + scale_bytes(total),
        used > total ==> memory_text(total, used) == seq!['0', '.', '0', '0', ' ', 'B'] + seq![
            '/',
        ] + scale_bytes(total),
{
    lemma_scale_bytes_zero();
}

/// The report holds the memory entry, right behind the kernel entry, and it
/// shows free of total.
pub proof fn lemma_report_memory_line(snapshot: SnapshotModel)
    ensures
        ({
            let at = leading_lines(snapshot).len() as int;
            &&& at < report(snapshot).len()
            &&& report(snapshot)[at - 1] == LineModel::Entry(
                Label::Kernel,
                snapshot.kernel_version,
            )
            &&& report(snapshot)[at] == LineModel::Entry(
                Label::Memory,
                memory_text(snapshot.total_memory, snapshot.used_memory),
            )
        }),
{
    let lead = leading_lines(snapshot);
    let rest = entry_or_notice(Label::Shell, shown_shell(snapshot.shell), "SHELL"@)
        + entry_or_notice(Label::Term, snapshot.term, "TERM"@) + optional_entry(
        Label::Desktop,
        snapshot.desktop,
    ) + swatch_lines();
    assert(report(snapshot) =~= lead + resource_lines(snapshot) + rest);
}

/// Where the user is known, the report starts with the header `user@host`
/// and, under it, a rule of as many characters as the header has, each of
/// them `=`.
pub proof fn lemma_rule_matches_header(snapshot: SnapshotModel)
    requires
        snapshot.user is Some,
    ensures
        ({
            let header = header_text(snapshot.user->0, snapshot.host_name);
            &&& report(snapshot).len() >= 2
            &&& report(snapshot)[0] == LineModel::Header(header)
            &&& report(snapshot)[1] matches LineModel::Rule(rule)
            &&& rule.len() == header.len()
            &&& forall|i: int| 0 <= i < rule.len() ==> rule[i] == '='
        }),
{
    let lines = identity_lines(snapshot.user, snapshot.host_name);
    assert(lines.len() == 2);
    assert(report(snapshot)[0] == lines[0]);
    assert(report(snapshot)[1] == lines[1]);
}

/// Builds a rule of `length` characters.
pub fn header_rule(length: usize) -> (r: String)
    ensures
        r@ == rule_text(length as nat),
{
    proof {
        reveal_strlit("=");
    }
    let mut r = String::new();
    let mut i: usize = 0;
    while i < length
        invariant
            i <= length,
            r@ == rule_text(i as nat),
            "="@.len() == 1,
            "="@[0] == '=',
        decreases length - i,
    {
        r.append("=");
        i = i + 1;
        assert(r@ =~= rule_text(i as nat));
    }
    r
}

/// Builds the notice for an environment variable that is not set.
pub fn missing_notice(variable: &str) -> (r: String)
    ensures
        r@ == missing_variable_notice(variable@),
{
    let mut r = String::from_str(variable);
    r.append(" environment variable is not set.");
    r
}

/// Renders two byte counts with a `/` between them.
fn ratio_value(part: u64, whole: u64) -> (r: String)
    ensures
        r@ == ratio_text(part as nat, whole as nat),
{
    let mut r = bytes_to_human_readable(part);
    let whole_text = bytes_to_human_readable(whole);
    proof {
        reveal_strlit("/");
        assert("/"@ =~= seq!['/']);
    }
    r.append("/");
    r.append(whole_text.as_str());
    r
}

/// Renders the value of the memory entry: free of total, where the free
/// bytes are what is left of the total, and none where more than the total is
/// reported as used.
pub fn memory_value(total: u64, used: u64) -> (r: String)
    ensures
        r@ == memory_text(total as nat, used as nat),
{
    let free: u64 = if used <= total {
        total - used
    } else {
        0
    };
    ratio_value(free, total)
}

/// Renders the value of the swap entry: used of total.
pub fn swap_value(total: u64, used: u64) -> (r: String)
    ensures
        r@ == swap_text(total as nat, used as nat),
{
    ratio_value(used, total)
}

/// Builds the report of a snapshot.
pub fn build_report(snapshot: &HostSnapshot) -> (lines: Vec<DisplayLine>)
    ensures
        lines.deep_view() == report(snapshot@),
{
    let ghost model = snapshot@;
    let mut lines: Vec<DisplayLine> = Vec::new();
    match &snapshot.user {
        Some(user) => {
            proof {
                reveal_strlit("@");
                assert("@"@ =~= seq!['@']);
            }
            let mut header = user.clone();
            header.append("@");
            header.append(snapshot.host_name.as_str());
            let rule = header_rule(header.as_str().unicode_len());
            lines.push(DisplayLine::Header(header));
            lines.push(DisplayLine::Rule(rule));
        },
        None => {
            lines.push(DisplayLine::Notice(missing_notice("USER")));
        },
    }
    assert(lines.deep_view() =~= identity_lines(model.user, model.host_name));

    proof {
        reveal_strlit(" ");
        assert(" "@ =~= seq![' ']);
    }
    let mut os = snapshot.os_name.clone();
    os.append(" ");
    os.append(snapshot.os_version.as_str());
    lines.push(DisplayLine::Entry(Label::Os, os));
    match &snapshot.cpu_brand {
        Some(brand) => {
            lines.push(DisplayLine::Entry(Label::Cpu, trim_brand(brand.as_str())));
        },
        None => {},
    }
    lines.push(DisplayLine::Entry(Label::Kernel, snapshot.kernel_version.clone()));
    let ghost head = leading_lines(model);
    assert(lines.deep_view() =~= head);

    lines.push(
        DisplayLine::Entry(
            Label::Memory,
            memory_value(snapshot.total_memory, snapshot.used_memory),
        ),
    );
    lines.push(
        DisplayLine::Entry(Label::Swap, swap_value(snapshot.total_swap, snapshot.used_swap)),
    );
    lines.push(DisplayLine::Entry(Label::Ip, snapshot.local_ip.clone()));
    lines.push(DisplayLine::Entry(Label::Uptime, format_uptime(snapshot.uptime_seconds)));
    assert(lines.deep_view() =~= head + resource_lines(model));

    match &snapshot.shell {
        Some(path) => {
            lines.push(DisplayLine::Entry(Label::Shell, shell_basename(path.as_str())));
        },
        None => {
            lines.push(DisplayLine::Notice(missing_notice("SHELL")));
        },
    }
    match &snapshot.term {
        Some(term) => {
            lines.push(DisplayLine::Entry(Label::Term, term.clone()));
        },
        None => {
            lines.push(DisplayLine::Notice(missing_notice("TERM")));
        },
    }
    match &snapshot.desktop {
        Some(desktop) => {
            lines.push(DisplayLine::Entry(Label::Desktop, desktop.clone()));
        },
        None => {},
    }
    let ghost body = head + resource_lines(model) + entry_or_notice(
        Label::Shell,
        shown_shell(model.shell),
        "SHELL"@,
    ) + entry_or_notice(Label::Term, model.term, "TERM"@) + optional_entry(
        Label::Desktop,
        model.desktop,
    );
    assert(lines.deep_view() =~= body);

    lines.push(DisplayLine::Swatch(get_normal_colors()));
    lines.push(DisplayLine::Swatch(get_bright_colors()));
    assert(lines.deep_view() =~= body + swatch_lines());
    lines
}

} // verus!
