use vstd::prelude::*;

use crate::geometry::{clamp_coord, Point, COORD_LIMIT};

verus! {

/// Whether an object is being dragged.
#[derive(Clone, Copy, Debug, PartialEq, Eq, Structural)]
pub enum DragState {
    Idle,
    Dragging,
}

/// The drag state machine of one draggable object.
///
/// While idle the object rests at `anchor`, and `offset` follows the pointer
/// (`pointer - anchor`), so that a press at any moment captures the point of
/// contact. While dragging the object sits at `pointer - offset`.
#[derive(Clone, Copy, Debug, PartialEq, Eq, Structural)]
pub struct DragController {
    pub state: DragState,
    pub anchor: Point,
    pub offset: Point,
}

/// `p - origin`, as a point.
pub open spec fn spec_offset(p: Point, origin: Point) -> Point {
    Point { x: (p.x - origin.x) as i64, y: (p.y - origin.y) as i64 }
}

/// `p - offset`, brought into the coordinate range.
pub open spec fn spec_minus_clamped(p: Point, offset: Point) -> Point {
    Point {
        x: clamp_coord(p.x - offset.x) as i64,
        y: clamp_coord(p.y - offset.y) as i64,
    }
}

/// An idle controller resting at `initial`, with a zero offset.
pub open spec fn idle_at(initial: Point) -> DragController {
    DragController {
        state: DragState::Idle,
        anchor: initial,
        offset: Point { x: 0, y: 0 },
    }
}

impl DragController {
    /// The anchor lies in the coordinate range and the offset spans at most
    /// twice that range.
    pub open spec fn wf(self) -> bool {
        &&& self.anchor.valid()
        &&& -2 * COORD_LIMIT <= self.offset.x <= 2 * COORD_LIMIT
        &&& -2 * COORD_LIMIT <= self.offset.y <= 2 * COORD_LIMIT
    }

    pub open spec fn is_dragging(self) -> bool {
        self.state == DragState::Dragging
    }

    /// Where the object is shown when the pointer is at `pointer`.
    pub open spec fn live(self, pointer: Point) -> Point {
        if self.is_dragging() {
            spec_minus_clamped(pointer, self.offset)
        } else {
            self.anchor
        }
    }

    /// The controller after the pointer moved to `pointer`.
    pub open spec fn after_move(self, pointer: Point) -> DragController {
        if self.is_dragging() {
            self
        } else {
            DragController { offset: spec_offset(pointer, self.anchor), ..self }
        }
    }

    /// The controller after a press with the pointer at `pointer`.
    pub open spec fn after_press(self, pointer: Point) -> DragController {
        if self.is_dragging() {
            self
        } else {
            DragController {
                state: DragState::Dragging,
                anchor: self.anchor,
                offset: spec_offset(pointer, self.anchor),
            }
        }
    }

    /// The controller after a release with the pointer at `pointer`.
    pub open spec fn after_release(self, pointer: Point) -> DragController {
        if self.is_dragging() {
            let committed = self.live(pointer);
            DragController {
                state: DragState::Idle,
                anchor: committed,
                offset: spec_offset(pointer, committed),
            }
        } else {
            self
        }
    }

    /// An idle controller resting at `initial`.
    pub fn new(initial: Point) -> (r: DragController)
        requires
            initial.valid(),
        ensures
            r.wf(),
            r == idle_at(initial),
    {
        DragController { state: DragState::Idle, anchor: initial, offset: Point::origin() }
    }

    /// Whether the object is being dragged.
    pub fn dragging(&self) -> (r: bool)
        ensures
            r == self.is_dragging(),
    {
        match self.state {
            DragState::Dragging => true,
            DragState::Idle => false,
        }
    }

    /// The last committed position.
    pub fn anchor_position(&self) -> (r: Point)
        ensures
            r == self.anchor,
    {
        self.anchor
    }

    /// Where the object is shown when the pointer is at `pointer`: the anchor
    /// while idle, `pointer - offset` while dragging.
    pub fn live_position(&self, pointer: Point) -> (r: Point)
        requires
            self.wf(),
            pointer.valid(),
        ensures
            r == self.live(pointer),
            r.valid(),
    {
        if self.dragging() {
            pointer.minus_clamped(self.offset)
        } else {
            self.anchor
        }
    }

    /// Follows a pointer move: while idle the offset to the pointer is kept current.
    pub fn on_pointer_move(&mut self, pointer: Point)
        requires
            old(self).wf(),
            pointer.valid(),
        ensures
            final(self).wf(),
            *final(self) == old(self).after_move(pointer),
    {
        if !self.dragging() {
            self.offset = pointer.offset_from(self.anchor);
        }
    }

    /// Starts a drag with the pointer at `pointer`, capturing `pointer - anchor`.
    /// A press while dragging changes nothing. Returns whether a drag started.
    pub fn on_press_start(&mut self, pointer: Point) -> (started: bool)
        requires
            old(self).wf(),
            pointer.valid(),
        ensures
            final(self).wf(),
            *final(self) == old(self).after_press(pointer),
            started == !old(self).is_dragging(),
    {
        if self.dragging() {
            false
        } else {
            self.offset = pointer.offset_from(self.anchor);
            self.state = DragState::Dragging;
            true
        }
    }

    /// Ends a drag with the pointer at `pointer`, committing the live position
    /// as the new anchor. A release while idle changes nothing. Returns whether
    /// a drag ended.
    pub fn on_press_end(&mut self, pointer: Point) -> (ended: bool)
        requires
            old(self).wf(),
            pointer.valid(),
        ensures
            final(self).wf(),
            *final(self) == old(self).after_release(pointer),
            ended == old(self).is_dragging(),
    {
        if self.dragging() {
            let committed = self.live_position(pointer);
            self.anchor = committed;
            self.offset = pointer.offset_from(committed);
            self.state = DragState::Idle;
            true
        } else {
            false
        }
    }
}

/// A fresh draggable object resting at `init`.
pub fn use_draggable(init: Point) -> (r: DragController)
    requires
        init.valid(),
    ensures
        r.wf(),
        r == idle_at(init),
{
    DragController::new(init)
}

/// Offset preservation: pressing an idle object at `p0` leaves it where it
/// was, pointer moves during the drag leave the controller as it is, and with
/// the pointer moved on to `p1` the object has moved by `p1 - p0` (so long as
/// that position lies in the coordinate range).
pub proof fn lemma_offset_preserved(c: DragController, p0: Point, p1: Point)
    requires
        c.wf(),
        !c.is_dragging(),
        p0.valid(),
        p1.valid(),
        -COORD_LIMIT <= c.anchor.x + (p1.x - p0.x) <= COORD_LIMIT,
        -COORD_LIMIT <= c.anchor.y + (p1.y - p0.y) <= COORD_LIMIT,
    ensures
        c.after_press(p0).is_dragging(),
        c.after_press(p0).live(p0) == c.anchor,
        c.after_press(p0).after_move(p1) == c.after_press(p0),
        c.after_press(p0).live(p1).x == c.anchor.x + (p1.x - p0.x),
        c.after_press(p0).live(p1).y == c.anchor.y + (p1.y - p0.y),
{
}

/// Commit on release: releasing a dragged object with the pointer at `p`
/// makes the position it was shown at its anchor; later pointer moves and the
/// next press leave that anchor as it is.
pub proof fn lemma_commit_on_release(c: DragController, p: Point, q: Point)
    requires
        c.wf(),
        c.is_dragging(),
        p.valid(),
        q.valid(),
    ensures
        !c.after_release(p).is_dragging(),
        c.after_release(p).anchor == c.live(p),
        c.after_release(p).live(q) == c.live(p),
        c.after_release(p).after_move(q).anchor == c.live(p),
        c.after_release(p).after_press(q).anchor == c.live(p),
{
}

/// The anchor changes only when a drag ends: neither a pointer move nor a
/// press touches it.
pub proof fn lemma_anchor_changes_only_on_release(c: DragController, q: Point)
    ensures
        c.after_move(q).anchor == c.anchor,
        c.after_press(q).anchor == c.anchor,
        !c.is_dragging() ==> c.after_release(q).anchor == c.anchor,
{
}

/// Idempotent no-ops: a second press in a row changes nothing, and a release
/// of an idle object changes nothing.
pub proof fn lemma_idempotent_no_ops(c: DragController, p: Point, q: Point)
    ensures
        c.after_press(p).after_press(q) == c.after_press(p),
        !c.is_dragging() ==> c.after_release(q) == c,
{
}

} // verus!
