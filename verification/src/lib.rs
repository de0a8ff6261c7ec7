//! Formatting core of a terminal system-snapshot tool.
//!
//! The crate turns raw host facts (byte counts, an uptime in seconds, the
//! outcome of a local-address probe, a few environment values) into the lines
//! of a short, coloured report. It reads nothing itself: the caller gathers
//! the facts into a [`snapshot::HostSnapshot`], performs the socket work that
//! [`probe`] asks for, and prints what [`render`] returns.
//!
//! Every function is verified against a mathematical description of the text
//! it produces. The one exception is the call into the `colored` crate in
//! [`paint`], whose description is taken on trust.
//!
//! - [`text`]: decimal numerals.
//! - [`units`]: byte counts scaled to `B`, `KB`, `MB`, `GB`, `TB`.
//! - [`uptime`]: seconds as days, hours, minutes and seconds.
//! - [`palette`]: strips of palette colours.
//! - [`paint`]: foreground colours.
//! - [`snapshot`]: the host facts and values derived from single facts.
//! - [`report`]: the lines of the report.
//! - [`render`]: the lines as written to the terminal.
//! - [`probe`]: the local-address probe, step by step.
//! - [`cli`]: the command line.

pub mod text;
pub mod units;
pub mod uptime;
pub mod palette;
pub mod paint;
pub mod snapshot;
pub mod report;
pub mod render;
pub mod probe;
pub mod cli;

pub use cli::{parse_command, Command};
pub use palette::{get_bright_colors, get_normal_colors, render_palette};
pub use probe::{first_probe_step, probe_advance, ProbeEvent, ProbeStep, ProbeVerdict};
pub use render::{render_line, render_report};
pub use report::{build_report, DisplayLine, Label};
pub use snapshot::{get_desktop_environment, shell_basename, HostSnapshot};
pub use units::bytes_to_human_readable;
pub use uptime::format_uptime;
