//! Colouring of text for the terminal.
//!
//! The colouring itself is done by the `colored` crate, which decides from the
//! process environment whether to colour at all and how to express a 24-bit
//! colour. Its output is therefore described here as a set of possible texts,
//! and everything built from it is verified for each of them.

use vstd::prelude::*;
use colored::Colorize;
use crate::palette::reset_sequence;
use crate::text::decimal;

verus! {

/// A foreground colour of the report.
#[derive(Clone, Copy, PartialEq, Eq, Structural, Debug)]
pub enum ColorTag {
    BrightRed,
    BrightGreen,
    BrightYellow,
    BrightBlue,
    BrightMagenta,
    BrightCyan,
    TrueColor { r: u8, g: u8, b: u8 },
}

impl ColorTag {
    /// The parameter of the terminal sequence that selects this colour as
    /// foreground: `91` to `96` for the bright colours, `38;2;r;g;b` for a
    /// 24-bit colour.
    pub open spec fn foreground_code(self) -> Seq<char> {
        match self {
            ColorTag::BrightRed => seq!['9', '1'],
            ColorTag::BrightGreen => seq!['9', '2'],
            ColorTag::BrightYellow => seq!['9', '3'],
            ColorTag::BrightBlue => seq!['9', '4'],
            ColorTag::BrightMagenta => seq!['9', '5'],
            ColorTag::BrightCyan => seq!['9', '6'],
            ColorTag::TrueColor { r, g, b } => seq!['3', '8', ';', '2', ';'] + decimal(r as nat)
                + seq![';'] + decimal(g as nat) + seq![';'] + decimal(b as nat),
        }
    }
}

/// Whether `code` selects one of the sixteen basic foreground colours: `30`
/// to `37` or `90` to `97`.
pub open spec fn is_basic_foreground_code(code: Seq<char>) -> bool {
    &&& code.len() == 2
    &&& (code[0] == '3' || code[0] == '9')
    &&& '0' <= code[1] && code[1] <= '7'
}

/// Whether the reset sequence stands in `text` at position `at`.
pub open spec fn is_reset_at(text: Seq<char>, at: int) -> bool {
    0 <= at && at + 4 <= text.len() && text.subrange(at, at + 4) == reset_sequence()
}

/// Whether the reset sequence occurs somewhere in `text`.
pub open spec fn holds_reset(text: Seq<char>) -> bool {
    exists|at: int| is_reset_at(text, at)
}

/// The sequence that selects the graphic rendition `code`: `ESC [ code m`.
pub open spec fn select_sequence(code: Seq<char>) -> Seq<char> {
    seq!['\x1b', '['] + code + seq!['m']
}

/// `text` with `style` put behind every reset sequence in it, so that the
/// style goes on behind a piece of text that was coloured before.
pub open spec fn restyled(text: Seq<char>, style: Seq<char>) -> Seq<char>
    decreases text.len(),
{
    if text.len() < 4 {
        text
    } else if text.take(4) == reset_sequence() {
        reset_sequence() + style + restyled(text.skip(4), style)
    } else {
        seq![text[0]] + restyled(text.skip(1), style)
    }
}

/// `text` in the graphic rendition `code`: the sequence that selects it, the
/// text with the selection repeated behind every reset sequence in it, and
/// the reset sequence.
pub open spec fn wrapped(code: Seq<char>, text: Seq<char>) -> Seq<char> {
    select_sequence(code) + restyled(text, select_sequence(code)) + reset_sequence()
}

/// Whether `out` is one of the texts that colouring `text` with `tag` can
/// give: `text` itself where colours are switched off; `text` in the
/// colour's own code; or, for a 24-bit colour on a terminal without support
/// for them, `text` in the code of a basic colour.
pub open spec fn is_painting(out: Seq<char>, text: Seq<char>, tag: ColorTag) -> bool {
    ||| out == text
    ||| out == wrapped(tag.foreground_code(), text)
    ||| (tag is TrueColor && exists|code: Seq<char>| #[trigger]
        is_basic_foreground_code(code) && out == wrapped(code, text))
}

/// Text without an escape character holds no reset sequence.
pub proof fn lemma_plain_text_holds_no_reset(text: Seq<char>)
    requires
        forall|i: int| 0 <= i < text.len() ==> text[i] != '\x1b',
    ensures
        !holds_reset(text),
{
    assert forall|at: int| !is_reset_at(text, at) by {
        if 0 <= at && at + 4 <= text.len() {
            assert(text.subrange(at, at + 4)[0] == text[at]);
            assert(reset_sequence()[0] == '\x1b');
        }
    }
}

/// Text that holds no reset sequence stays as it is between the selection
/// of a colour and the reset.
pub proof fn lemma_restyled_without_reset(text: Seq<char>, style: Seq<char>)
    requires
        !holds_reset(text),
    ensures
        restyled(text, style) == text,
    decreases text.len(),
{
    if text.len() >= 4 {
        assert(!is_reset_at(text, 0));
        assert(text.take(4) =~= text.subrange(0, 4));
        let rest = text.skip(1);
        assert forall|at: int| !is_reset_at(rest, at) by {
            assert(!is_reset_at(text, at + 1));
            if 0 <= at && at + 4 <= rest.len() {
                assert(rest.subrange(at, at + 4) =~= text.subrange(at + 1, at + 1 + 4));
            }
        }
        lemma_restyled_without_reset(rest, style);
        assert(seq![text[0]] + rest =~= text);
    }
}

/// Colours `text` through `colored`: the `color` method of its `Colorize`
/// trait on `&str`, and the `Display` of the `ColoredString` it returns.
///
/// Trusted. Whether `colored` colours depends on the environment
/// (`CLICOLOR_FORCE`, `NO_COLOR`, `CLICOLOR`, whether standard output is a
/// terminal) and on its process-wide override; without colours the text
/// comes back unchanged. With colours it comes back between the foreground
/// sequence of the colour and the reset sequence, with that foreground
/// sequence repeated behind every reset sequence inside the text. A 24-bit
/// colour is replaced by the nearest of the sixteen basic colours unless
/// `COLORTERM` announces support for it; which one is nearest is not said
/// here. All this holds as long as no other thread changes the override or
/// the environment while the call runs.
#[verifier::external_body]
pub(crate) fn paint(text: &str, tag: ColorTag) -> (out: String)
    ensures
        is_painting(out@, text@, tag),
{
    let color = match tag {
        ColorTag::BrightRed => colored::Color::BrightRed,
        ColorTag::BrightGreen => colored::Color::BrightGreen,
        ColorTag::BrightYellow => colored::Color::BrightYellow,
        ColorTag::BrightBlue => colored::Color::BrightBlue,
        ColorTag::BrightMagenta => colored::Color::BrightMagenta,
        ColorTag::BrightCyan => colored::Color::BrightCyan,
        ColorTag::TrueColor { r, g, b } => colored::Color::TrueColor { r, g, b },
    };
    text.color(color).to_string()
}

} // verus!
