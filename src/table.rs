use vstd::prelude::*;

use crate::containment::{spec_inside, Slot};
use crate::drag::{idle_at, spec_offset, DragController};
use crate::geometry::Point;
use crate::zorder::{ZOrder, BASELINE_PRIORITY, ELEVATED_PRIORITY};

verus! {

/// No two objects are dragged at once.
pub open spec fn single_drag(cards: Seq<DragController>) -> bool {
    forall|i: int, j: int|
        0 <= i < cards.len() && 0 <= j < cards.len() && #[trigger] cards[i].is_dragging()
            && #[trigger] cards[j].is_dragging() ==> i == j
}

/// The raised object is exactly the dragged one, if any.
pub open spec fn elevation_matches(cards: Seq<DragController>, z: ZOrder) -> bool {
    &&& forall|i: int|
        0 <= i < cards.len() ==> (z.spec_is_elevated(i as usize) <==> #[trigger] cards[i].is_dragging())
    &&& (z.elevated matches Some(e) ==> e < cards.len())
}

/// The shared state of a table: its cards, the pointer, and the stacking order.
///
/// Cards are addressed by the index that `add_card` handed out.
pub struct Table {
    cards: Vec<DragController>,
    zorder: ZOrder,
    pointer: Point,
}

impl Table {
    /// The cards' drag controllers, in the order they were added.
    pub closed spec fn spec_cards(&self) -> Seq<DragController> {
        self.cards@
    }

    /// The stacking order.
    pub closed spec fn spec_zorder(&self) -> ZOrder {
        self.zorder
    }

    /// The last pointer position observed.
    pub closed spec fn spec_pointer(&self) -> Point {
        self.pointer
    }

    pub open spec fn wf(&self) -> bool {
        &&& forall|i: int| 0 <= i < self.spec_cards().len() ==> #[trigger] self.spec_cards()[i].wf()
        &&& self.spec_pointer().valid()
        &&& single_drag(self.spec_cards())
        &&& elevation_matches(self.spec_cards(), self.spec_zorder())
    }

    /// An empty table, with the pointer at the origin.
    pub fn new() -> (r: Table)
        ensures
            r.wf(),
            r.spec_cards().len() == 0,
            r.spec_pointer() == (Point { x: 0, y: 0 }),
            r.spec_zorder().elevated is None,
    {
        Table { cards: Vec::new(), zorder: ZOrder::new(), pointer: Point::origin() }
    }

    /// Adds an idle card resting at `initial`; returns its index.
    pub fn add_card(&mut self, initial: Point) -> (id: usize)
        requires
            old(self).wf(),
            initial.valid(),
            old(self).spec_cards().len() < usize::MAX,
        ensures
            final(self).wf(),
            id == old(self).spec_cards().len(),
            final(self).spec_cards() == old(self).spec_cards().push(
                idle_at(initial).after_move(old(self).spec_pointer()),
            ),
            final(self).spec_zorder() == old(self).spec_zorder(),
            final(self).spec_pointer() == old(self).spec_pointer(),
    {
        let mut card = DragController::new(initial);
        card.on_pointer_move(self.pointer);
        let id = self.cards.len();
        self.cards.push(card);
        assert(self.cards@[id as int] == card);
        id
    }

    /// The number of cards.
    pub fn card_count(&self) -> (r: usize)
        ensures
            r == self.spec_cards().len(),
    {
        self.cards.len()
    }

    /// The last pointer position observed.
    pub fn pointer(&self) -> (r: Point)
        ensures
            r == self.spec_pointer(),
    {
        self.pointer
    }

    /// Records a pointer move to `p`; each idle card keeps its offset to the
    /// pointer current.
    pub fn pointer_moved(&mut self, p: Point)
        requires
            old(self).wf(),
            p.valid(),
        ensures
            final(self).wf(),
            final(self).spec_pointer() == p,
            final(self).spec_cards().len() == old(self).spec_cards().len(),
            forall|i: int|
                0 <= i < old(self).spec_cards().len() ==> #[trigger] final(self).spec_cards()[i]
                    == old(self).spec_cards()[i].after_move(p),
            final(self).spec_zorder() == old(self).spec_zorder(),
    {
        let n = self.cards.len();
        let mut i: usize = 0;
        while i < n
            invariant
                n == self.cards@.len(),
                n == old(self).cards@.len(),
                i <= n,
                p.valid(),
                self.zorder == old(self).zorder,
                self.pointer == old(self).pointer,
                forall|k: int| 0 <= k < i ==> #[trigger] self.cards@[k] == old(self).cards@[k].after_move(p),
                forall|k: int| i <= k < n ==> #[trigger] self.cards@[k] == old(self).cards@[k],
                forall|k: int| 0 <= k < n ==> #[trigger] old(self).cards@[k].wf(),
            decreases n - i,
        {
            let mut card = self.cards[i];
            card.on_pointer_move(p);
            self.cards.set(i, card);
            i += 1;
        }
        self.pointer = p;
        assert forall|k: int| 0 <= k < n implies #[trigger] self.cards@[k].wf()
            && (self.cards@[k].is_dragging() == old(self).cards@[k].is_dragging()) by {
            let c = old(self).cards@[k];
            assert(c.wf());
            assert(self.cards@[k] == c.after_move(p));
            let d = spec_offset(p, c.anchor);
            assert(d.x == p.x - c.anchor.x);
        }
    }

    /// A press on card `id`: starts its drag and raises it, unless `id` is
    /// out of range or a card (this one or another) is already being dragged,
    /// in which case nothing changes. Returns whether a drag started.
    pub fn press(&mut self, id: usize) -> (started: bool)
        requires
            old(self).wf(),
        ensures
            final(self).wf(),
            started == (id < old(self).spec_cards().len() && old(self).spec_zorder().elevated is None),
            started ==> final(self).spec_cards() == old(self).spec_cards().update(
                id as int,
                old(self).spec_cards()[id as int].after_press(old(self).spec_pointer()),
            ),
            started ==> final(self).spec_zorder().elevated == Some(id),
            started ==> final(self).spec_pointer() == old(self).spec_pointer(),
            !started ==> *final(self) == *old(self),
    {
        if id >= self.cards.len() {
            return false;
        }
        if self.zorder.elevated.is_some() {
            return false;
        }
        let ghost before = self.cards@;
        let mut card = self.cards[id];
        assert(!card.is_dragging());
        card.on_press_start(self.pointer);
        self.cards.set(id, card);
        self.zorder.elevate(id);
        assert forall|i: int| 0 <= i < self.cards@.len() implies #[trigger] self.cards@[i].wf()
            && (self.cards@[i].is_dragging() <==> i == id) by {
            if i != id {
                assert(self.cards@[i] == before[i]);
                assert(!before[i].is_dragging());
            }
        }
        true
    }

    /// A release on card `id`: if it is being dragged, commits its live
    /// position as its anchor, ends the drag and lowers it; otherwise nothing
    /// changes. Returns whether a drag ended.
    pub fn release(&mut self, id: usize) -> (ended: bool)
        requires
            old(self).wf(),
        ensures
            final(self).wf(),
            ended == (old(self).spec_zorder().elevated == Some(id)),
            ended ==> id < old(self).spec_cards().len(),
            ended ==> old(self).spec_cards()[id as int].is_dragging(),
            ended ==> final(self).spec_cards() == old(self).spec_cards().update(
                id as int,
                old(self).spec_cards()[id as int].after_release(old(self).spec_pointer()),
            ),
            ended ==> final(self).spec_zorder().elevated is None,
            ended ==> final(self).spec_pointer() == old(self).spec_pointer(),
            !ended ==> *final(self) == *old(self),
    {
        if !self.zorder.is_elevated(id) {
            return false;
        }
        let ghost before = self.cards@;
        let mut card = self.cards[id];
        card.on_press_end(self.pointer);
        self.cards.set(id, card);
        self.zorder.release(id);
        assert forall|i: int| 0 <= i < self.cards@.len() implies #[trigger] self.cards@[i].wf()
            && !self.cards@[i].is_dragging() by {
            if i != id {
                assert(self.cards@[i] == before[i]);
            }
        }
        true
    }

    /// The pointer was lost mid-drag (it left the window, or capture was
    /// lost): the dragged card, if any, is released. Returns which card was.
    pub fn pointer_lost(&mut self) -> (released: Option<usize>)
        requires
            old(self).wf(),
        ensures
            final(self).wf(),
            released == old(self).spec_zorder().elevated,
            released matches Some(id) ==> final(self).spec_cards() == old(self).spec_cards().update(
                id as int,
                old(self).spec_cards()[id as int].after_release(old(self).spec_pointer()),
            ),
            final(self).spec_zorder().elevated is None,
            final(self).spec_pointer() == old(self).spec_pointer(),
            released is None ==> *final(self) == *old(self),
    {
        match self.zorder.elevated {
            Some(id) => {
                self.release(id);
                Some(id)
            },
            None => None,
        }
    }

    /// The card being dragged, if any.
    pub fn dragged(&self) -> (r: Option<usize>)
        requires
            self.wf(),
        ensures
            r == self.spec_zorder().elevated,
            r matches Some(id) ==> id < self.spec_cards().len() && self.spec_cards()[id as int].is_dragging(),
            r is None ==> forall|i: int| 0 <= i < self.spec_cards().len() ==> !(#[trigger] self.spec_cards()[i].is_dragging()),
    {
        self.zorder.elevated
    }

    /// Whether card `id` is being dragged.
    pub fn is_dragging(&self, id: usize) -> (r: bool)
        requires
            self.wf(),
            id < self.spec_cards().len(),
        ensures
            r == self.spec_cards()[id as int].is_dragging(),
    {
        self.cards[id].dragging()
    }

    /// The last committed position of card `id`.
    pub fn anchor_position(&self, id: usize) -> (r: Point)
        requires
            id < self.spec_cards().len(),
        ensures
            r == self.spec_cards()[id as int].anchor,
    {
        self.cards[id].anchor_position()
    }

    /// Where card `id` is shown at the current pointer position.
    pub fn live_position(&self, id: usize) -> (r: Point)
        requires
            self.wf(),
            id < self.spec_cards().len(),
        ensures
            r == self.spec_cards()[id as int].live(self.spec_pointer()),
            r.valid(),
    {
        self.cards[id].live_position(self.pointer)
    }

    /// The stacking rank of card `id`.
    pub fn z_priority(&self, id: usize) -> (r: u32)
        ensures
            r == self.spec_zorder().spec_priority(id),
    {
        self.zorder.priority(id)
    }

    /// Whether card `id`, where it is shown now, lies over `slot`.
    pub fn card_over_slot(&self, id: usize, slot: &Slot) -> (r: bool)
        requires
            self.wf(),
            id < self.spec_cards().len(),
        ensures
            r == spec_inside(slot.bounds, self.spec_cards()[id as int].live(self.spec_pointer())),
    {
        slot.is_inside(self.live_position(id))
    }

    /// Whether the pointer lies over `slot`.
    pub fn pointer_over_slot(&self, slot: &Slot) -> (r: bool)
        ensures
            r == spec_inside(slot.bounds, self.spec_pointer()),
    {
        slot.is_inside(self.pointer)
    }
}

/// Single drag: in every state that the table's operations reach, at most
/// one card is being dragged.
pub proof fn lemma_single_drag(t: &Table)
    requires
        t.wf(),
    ensures
        forall|i: int, j: int|
            0 <= i < t.spec_cards().len() && 0 <= j < t.spec_cards().len()
                && #[trigger] t.spec_cards()[i].is_dragging()
                && #[trigger] t.spec_cards()[j].is_dragging() ==> i == j,
{
}

/// Z-order exclusivity: in every state that the table's operations reach, at
/// most one card holds the raised rank, and it is exactly the card being
/// dragged (none when no card is).
pub proof fn lemma_zorder_exclusive(t: &Table)
    requires
        t.wf(),
    ensures
        forall|i: usize, j: usize|
            #[trigger] t.spec_zorder().spec_priority(i) == ELEVATED_PRIORITY
                && #[trigger] t.spec_zorder().spec_priority(j) == ELEVATED_PRIORITY ==> i == j,
        forall|i: usize|
            i < t.spec_cards().len() ==> (#[trigger] t.spec_zorder().spec_priority(i) == ELEVATED_PRIORITY
                <==> t.spec_cards()[i as int].is_dragging()),
        forall|i: usize|
            i >= t.spec_cards().len() ==> #[trigger] t.spec_zorder().spec_priority(i) == BASELINE_PRIORITY,
{
    assert forall|i: usize|
        i < t.spec_cards().len() implies (#[trigger] t.spec_zorder().spec_priority(i) == ELEVATED_PRIORITY
            <==> t.spec_cards()[i as int].is_dragging()) by {
        assert(t.spec_cards()[i as int].is_dragging() <==> t.spec_zorder().spec_is_elevated(
            (i as int) as usize,
        ));
    }
}

} // verus!
