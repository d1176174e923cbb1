//! Small helpers: the screen rectangle used for hit-testing and trusted
//! wrappers around the character-wise string editing operations of std.

use vstd::prelude::*;

verus! {

/// A screen region reported back by the renderer, used for mouse
/// hit-testing. Coordinates and sizes are in terminal cells.
#[derive(Clone, Copy, Debug, PartialEq, Eq, Structural)]
pub struct Rect {
    pub x: u16,
    pub y: u16,
    pub width: u16,
    pub height: u16,
}

/// Whether a mouse coordinate `(column, row)` lies within the screen region
/// the rectangle occupies: at or right of its left edge and strictly left
/// of its right edge, and likewise between its top and bottom edges.
pub open spec fn spec_coord_in_rect(coord: (u16, u16), rect: Rect) -> bool {
    rect.x <= coord.0 < rect.x + rect.width && rect.y <= coord.1 < rect.y + rect.height
}

pub fn coord_in_rect(coord: (u16, u16), rect: Rect) -> (r: bool)
    ensures
        r == spec_coord_in_rect(coord, rect),
{
    rect.x <= coord.0 && coord.0 - rect.x < rect.width && rect.y <= coord.1
        && coord.1 - rect.y < rect.height
}

/// Mapping a function over a sequence commutes with appending one element.
pub proof fn lemma_map_values_push<A, B>(s: Seq<A>, f: spec_fn(A) -> B, x: A)
    ensures
        s.push(x).map_values(f) =~= s.map_values(f).push(f(x)),
{
}

/// Relies on `String::push`: appends the character to the end of the string.
#[verifier::external_body]
pub(crate) fn string_push(s: &mut String, c: char)
    ensures
        final(s)@ == old(s)@.push(c),
{
    s.push(c);
}

/// Relies on `String::pop`: removes and returns the last character, or
/// returns `None` and leaves the string unchanged when it is empty.
#[verifier::external_body]
pub(crate) fn string_pop(s: &mut String) -> (r: Option<char>)
    ensures
        old(s)@.len() == 0 ==> final(s)@ == old(s)@ && r is None,
        old(s)@.len() > 0 ==> final(s)@ == old(s)@.drop_last() && r == Some(old(s)@.last()),
{
    s.pop()
}

} // verus!
