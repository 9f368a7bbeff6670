// The positioning engine of a card table: points and rectangles, the drag
// state machine of one card, the stacking order, drop-target containment,
// and the table that ties them together.
use vstd::prelude::*;

pub mod cards;
pub mod containment;
pub mod drag;
pub mod geometry;
pub mod table;
pub mod zorder;

verus! {

} // verus!
