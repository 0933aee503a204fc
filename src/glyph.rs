//! The glyph ramp: a fixed table of inclusive count ranges and characters.
use vstd::prelude::*;

verus! {

/// The character shown for an escape count.
///
/// The ranges are inclusive and touch without gaps: 0..=2, 3..=5, 6..=10,
/// 11..=30, 31..=100, 101..=200, 201..=400, 401..=700, and everything above.
pub open spec fn glyph_of(count: nat) -> char {
    if count <= 2 {
        ' '
    } else if count <= 5 {
        '.'
    } else if count <= 10 {
        '\u{2022}'
    } else if count <= 30 {
        '*'
    } else if count <= 100 {
        '+'
    } else if count <= 200 {
        'x'
    } else if count <= 400 {
        '$'
    } else if count <= 700 {
        '#'
    } else {
        '%'
    }
}

/// Maps an escape count through the ramp; every count has a glyph.
pub fn glyph_for(count: usize) -> (g: char)
    ensures
        g == glyph_of(count as nat),
{
    if count <= 2 {
        ' '
    } else if count <= 5 {
        '.'
    } else if count <= 10 {
        '\u{2022}'
    } else if count <= 30 {
        '*'
    } else if count <= 100 {
        '+'
    } else if count <= 200 {
        'x'
    } else if count <= 400 {
        '$'
    } else if count <= 700 {
        '#'
    } else {
        '%'
    }
}

} // verus!
