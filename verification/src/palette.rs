//! Strips of background-colour blocks for the terminal's indexed palette.
//!
//! A block selects the background colour of one palette index and prints
//! three spaces in it. A strip is the blocks of a range of indices followed by
//! the sequence that resets the terminal's attributes.

use vstd::prelude::*;
use vstd::string::*;
use crate::text::{decimal, push_decimal};

verus! {

/// First index of the bright colours; the indices below are the normal ones.
pub const FIRST_BRIGHT: u32 = 8;

/// One past the last index of the bright colours.
pub const END_BRIGHT: u32 = 16;

/// The sequence that resets every attribute: `ESC [ 0 m`.
pub open spec fn reset_sequence() -> Seq<char> {
    seq!['\x1b', '[', '0', 'm']
}

/// The sequence that selects the background colour of a palette index: the
/// short form `ESC [ 4n m` for the eight normal colours, the indexed form
/// `ESC [ 48;5;n m` for all others.
pub open spec fn background_sequence(index: nat) -> Seq<char> {
    if index < 8 {
        seq!['\x1b', '[', '4'] + decimal(index) + seq!['m']
    } else {
        seq!['\x1b', '[', '4', '8', ';', '5', ';'] + decimal(index) + seq!['m']
    }
}

/// One block: the colour selection and three spaces.
pub open spec fn color_block(index: nat) -> Seq<char> {
    background_sequence(index) + seq![' ', ' ', ' ']
}

/// The blocks of the indices from `start` up to, not including, `end`, in
/// rising order; empty where the range is.
pub open spec fn color_blocks(start: nat, end: nat) -> Seq<char>
    decreases end,
{
    if end <= start {
        Seq::empty()
    } else {
        color_blocks(start, (end - 1) as nat) + color_block((end - 1) as nat)
    }
}

/// A strip: the blocks of a range, then the reset sequence.
pub open spec fn palette_strip(start: nat, end: nat) -> Seq<char> {
    color_blocks(start, end) + reset_sequence()
}

/// Renders the strip of the palette indices `start_index..end_index`.
pub fn render_palette(start_index: u32, end_index: u32) -> (r: String)
    ensures
        r@ == palette_strip(start_index as nat, end_index as nat),
{
    proof {
        reveal_strlit("\x1b[4");
        reveal_strlit("\x1b[48;5;");
        reveal_strlit("m   ");
        assert("\x1b[4"@ =~= seq!['\x1b', '[', '4']);
        assert("\x1b[48;5;"@ =~= seq!['\x1b', '[', '4', '8', ';', '5', ';']);
        assert("m   "@ =~= seq!['m', ' ', ' ', ' ']);
    }
    let mut r = String::new();
    let mut index: u32 = start_index;
    while index < end_index
        invariant
            start_index <= index,
            index <= end_index || index == start_index,
            r@ == color_blocks(start_index as nat, index as nat),
            "\x1b[4"@ == seq!['\x1b', '[', '4'],
            "\x1b[48;5;"@ == seq!['\x1b', '[', '4', '8', ';', '5', ';'],
            "m   "@ == seq!['m', ' ', ' ', ' '],
        decreases end_index - index,
    {
        let ghost before = r@;
        if index < FIRST_BRIGHT {
            r.append("\x1b[4");
        } else {
            r.append("\x1b[48;5;");
        }
        push_decimal(&mut r, index as u64);
        r.append("m   ");
        assert(r@ =~= before + color_block(index as nat));
        index = index + 1;
    }
    r.append("\x1b[0m");
    proof {
        reveal_strlit("\x1b[0m");
        assert("\x1b[0m"@ =~= reset_sequence());
        assert(color_blocks(start_index as nat, index as nat) == color_blocks(
            start_index as nat,
            end_index as nat,
        ));
    }
    r
}

/// The strip of the eight normal colours.
pub fn get_normal_colors() -> (r: String)
    ensures
        r@ == palette_strip(0, 8),
{
    render_palette(0, FIRST_BRIGHT)
}

/// The strip of the eight bright colours.
pub fn get_bright_colors() -> (r: String)
    ensures
        r@ == palette_strip(8, 16),
{
    render_palette(FIRST_BRIGHT, END_BRIGHT)
}

} // verus!
