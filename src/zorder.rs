use vstd::prelude::*;

verus! {

/// Stacking rank of an object that is not raised.
pub const BASELINE_PRIORITY: u32 = 30;

/// Stacking rank of the one raised object.
pub const ELEVATED_PRIORITY: u32 = 40;

/// Keeps track of the one object, if any, drawn above its peers.
#[derive(Clone, Copy, Debug, PartialEq, Eq, Structural)]
pub struct ZOrder {
    pub elevated: Option<usize>,
}

impl ZOrder {
    /// Whether object `id` is raised.
    pub open spec fn spec_is_elevated(self, id: usize) -> bool {
        self.elevated == Some(id)
    }

    /// The stacking rank of object `id`.
    pub open spec fn spec_priority(self, id: usize) -> u32 {
        if self.spec_is_elevated(id) {
            ELEVATED_PRIORITY
        } else {
            BASELINE_PRIORITY
        }
    }

    /// Every object at baseline.
    pub fn new() -> (r: ZOrder)
        ensures
            r.elevated is None,
    {
        ZOrder { elevated: None }
    }

    /// Raises `id`; whichever object was raised before goes back to baseline.
    pub fn elevate(&mut self, id: usize)
        ensures
            final(self).elevated == Some(id),
    {
        self.elevated = Some(id);
    }

    /// Puts `id` back to baseline; other objects keep their rank.
    pub fn release(&mut self, id: usize)
        ensures
            final(self).elevated == (if old(self).elevated == Some(id) {
                None
            } else {
                old(self).elevated
            }),
    {
        if self.elevated == Some(id) {
            self.elevated = None;
        }
    }

    /// Whether object `id` is raised.
    pub fn is_elevated(&self, id: usize) -> (r: bool)
        ensures
            r == self.spec_is_elevated(id),
    {
        self.elevated == Some(id)
    }

    /// The stacking rank of object `id`.
    pub fn priority(&self, id: usize) -> (r: u32)
        ensures
            r == self.spec_priority(id),
    {
        if self.is_elevated(id) {
            ELEVATED_PRIORITY
        } else {
            BASELINE_PRIORITY
        }
    }
}

} // verus!
