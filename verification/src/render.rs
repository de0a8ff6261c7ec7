//! The text of each report line as it is written to the terminal.
//!
//! A header is coloured bright blue. An entry is its coloured label, a tab, a
//! grey arrow `=>`, a tab, and its value. All other lines are written as they
//! are. Colouring may or may not take place, so the text of a coloured line is
//! described by what it may be.

use vstd::prelude::*;
use vstd::string::*;
use crate::paint::{
    is_painting,
    lemma_plain_text_holds_no_reset,
    lemma_restyled_without_reset,
    paint,
    select_sequence,
    wrapped,
    ColorTag,
};
use crate::palette::reset_sequence;
use crate::report::{DisplayLine, Label, LineModel};

verus! {

/// The shade of grey of the arrow, in each of red, green and blue.
pub const ARROW_SHADE: u8 = 112;

/// The colour of the header.
pub open spec fn header_color() -> ColorTag {
    ColorTag::BrightBlue
}

/// The colour of the arrow.
pub open spec fn arrow_color() -> ColorTag {
    ColorTag::TrueColor { r: 112, g: 112, b: 112 }
}

/// The arrow between label and value.
pub open spec fn arrow_text() -> Seq<char> {
    seq!['=', '>']
}

/// An entry put together from its parts as they are written: label, tab,
/// arrow, tab, value.
pub open spec fn entry_text(label: Seq<char>, arrow: Seq<char>, value: Seq<char>) -> Seq<char> {
    label + seq!['\t'] + arrow + seq!['\t'] + value
}

/// Whether `out` is the entry of `label` and `value` put together from the
/// given label and arrow, and these are what colouring may have made of
/// them.
pub open spec fn is_entry_of(
    out: Seq<char>,
    label: Label,
    value: Seq<char>,
    painted_label: Seq<char>,
    painted_arrow: Seq<char>,
) -> bool {
    &&& is_painting(painted_label, label.text(), label.color())
    &&& is_painting(painted_arrow, arrow_text(), arrow_color())
    &&& out == entry_text(painted_label, painted_arrow, value)
}

/// Whether `out` is a text that the header `text` may be written as.
pub open spec fn is_header_rendering(out: Seq<char>, text: Seq<char>) -> bool {
    is_painting(out, text, header_color())
}

/// Whether `out` is a text that the entry of `label` and `value` may be
/// written as.
pub open spec fn is_entry_rendering(out: Seq<char>, label: Label, value: Seq<char>) -> bool {
    exists|painted_label: Seq<char>, painted_arrow: Seq<char>|
        is_entry_of(out, label, value, painted_label, painted_arrow)
}

/// Whether `out` is a text that `line` may be written as.
pub open spec fn is_rendering(out: Seq<char>, line: LineModel) -> bool {
    match line {
        LineModel::Header(text) => is_header_rendering(out, text),
        LineModel::Rule(text) => out == text,
        LineModel::Entry(label, value) => is_entry_rendering(out, label, value),
        LineModel::Notice(text) => out == text,
        LineModel::Swatch(text) => out == text,
    }
}

/// The text of a line where nothing is coloured.
pub open spec fn plain_text(line: LineModel) -> Seq<char> {
    match line {
        LineModel::Header(text) => text,
        LineModel::Rule(text) => text,
        LineModel::Entry(label, value) => entry_text(label.text(), arrow_text(), value),
        LineModel::Notice(text) => text,
        LineModel::Swatch(text) => text,
    }
}

/// Without colours a line is written as its plain text.
pub proof fn lemma_plain_text_is_rendering(line: LineModel)
    ensures
        is_rendering(plain_text(line), line),
{
    match line {
        LineModel::Entry(label, value) => {
            assert(is_entry_of(plain_text(line), label, value, label.text(), arrow_text()));
        },
        _ => {},
    }
}

/// No label and no arrow holds a reset sequence, so that colouring puts
/// each as it is between the selection of its colour and the reset.
pub proof fn lemma_fixed_texts_are_wrapped_whole(label: Label, code: Seq<char>)
    ensures
        wrapped(code, label.text()) == select_sequence(code) + label.text() + reset_sequence(),
        wrapped(code, arrow_text()) == select_sequence(code) + arrow_text() + reset_sequence(),
{
    lemma_plain_text_holds_no_reset(label.text());
    lemma_plain_text_holds_no_reset(arrow_text());
    lemma_restyled_without_reset(label.text(), select_sequence(code));
    lemma_restyled_without_reset(arrow_text(), select_sequence(code));
}

/// Puts an entry together from its label and arrow, both as they came back
/// from colouring, and its value.
pub fn assemble_entry(painted_label: &str, painted_arrow: &str, value: &str) -> (out: String)
    ensures
        out@ == entry_text(painted_label@, painted_arrow@, value@),
{
    proof {
        reveal_strlit("\t");
        assert("\t"@ =~= seq!['\t']);
    }
    let mut out = String::from_str(painted_label);
    out.append("\t");
    out.append(painted_arrow);
    out.append("\t");
    out.append(value);
    out
}

/// Renders one line of the report for the terminal.
pub fn render_line(line: &DisplayLine) -> (out: String)
    ensures
        is_rendering(out@, line@),
{
    match line {
        DisplayLine::Header(text) => paint(text.as_str(), ColorTag::BrightBlue),
        DisplayLine::Rule(text) => text.clone(),
        DisplayLine::Entry(label, value) => {
            proof {
                reveal_strlit("=>");
                assert("=>"@ =~= arrow_text());
            }
            let painted_label = paint(label.as_str(), label.color_tag());
            let painted_arrow = paint(
                "=>",
                ColorTag::TrueColor { r: ARROW_SHADE, g: ARROW_SHADE, b: ARROW_SHADE },
            );
            let out = assemble_entry(
                painted_label.as_str(),
                painted_arrow.as_str(),
                value.as_str(),
            );
            assert(is_entry_of(out@, *label, value@, painted_label@, painted_arrow@));
            out
        },
        DisplayLine::Notice(text) => text.clone(),
        DisplayLine::Swatch(text) => text.clone(),
    }
}

/// Renders every line of a report, in order.
pub fn render_report(lines: &Vec<DisplayLine>) -> (out: Vec<String>)
    ensures
        out@.len() == lines@.len(),
        forall|i: int| 0 <= i < lines@.len() ==> is_rendering(#[trigger] out@[i]@, lines@[i]@),
{
    let mut out: Vec<String> = Vec::new();
    let mut i: usize = 0;
    while i < lines.len()
        invariant
            i <= lines.len(),
            out@.len() == i,
            forall|j: int| 0 <= j < i ==> is_rendering(#[trigger] out@[j]@, lines@[j]@),
        decreases lines.len() - i,
    {
        out.push(render_line(&lines[i]));
        i = i + 1;
    }
    out
}

} // verus!
