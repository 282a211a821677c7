//! Bounded navigation history: a fixed-capacity stack of recently-left
//! screens, used to resolve "go back". When a push would exceed the
//! capacity, the oldest entry is silently discarded.

use vstd::prelude::*;

use crate::screen::ScreenId;

verus! {

/// Number of entries the navigation history retains.
pub const HISTORY_CAPACITY: usize = 5;

/// What one push leaves behind: the new entry goes last (newest last);
/// when the stack is full, the oldest entry (the first) is dropped.
pub open spec fn pushed_one(h: Seq<ScreenId>, screen: ScreenId) -> Seq<ScreenId> {
    if h.len() < HISTORY_CAPACITY as int {
        h.push(screen)
    } else {
        h.subrange(1, h.len() as int).push(screen)
    }
}

/// The history contents after pushing each element of `xs` in order,
/// starting from contents `h`.
pub open spec fn pushed_all(h: Seq<ScreenId>, xs: Seq<ScreenId>) -> Seq<ScreenId>
    decreases xs.len(),
{
    if xs.len() == 0 {
        h
    } else {
        pushed_all(pushed_one(h, xs[0]), xs.drop_first())
    }
}

/// A bounded stack of previously-visited screen identities. The newest
/// entry sits at the end of the view; the length never exceeds
/// [`HISTORY_CAPACITY`].
pub struct NavigationHistory {
    entries: Vec<ScreenId>,
}

impl View for NavigationHistory {
    type V = Seq<ScreenId>;

    closed spec fn view(&self) -> Seq<ScreenId> {
        self.entries@
    }
}

impl NavigationHistory {
    /// The capacity bound, the one invariant of the type.
    pub open spec fn wf(&self) -> bool {
        self@.len() <= HISTORY_CAPACITY as int
    }

    /// An empty history.
    pub fn new() -> (r: Self)
        ensures
            r.wf(),
            r@ == Seq::<ScreenId>::empty(),
    {
        NavigationHistory { entries: Vec::new() }
    }

    /// How many screens are recorded.
    pub fn len(&self) -> (n: usize)
        ensures
            n == self@.len(),
    {
        self.entries.len()
    }

    /// Records the screen being left. Never fails: when the stack is full
    /// the oldest entry is discarded to make room.
    pub fn push(&mut self, screen: ScreenId)
        requires
            old(self).wf(),
        ensures
            final(self).wf(),
            final(self)@ == pushed_one(old(self)@, screen),
    {
        if self.entries.len() == HISTORY_CAPACITY {
            self.entries.remove(0);
            proof {
                assert(self.entries@ =~= old(self)@.subrange(1, old(self)@.len() as int));
            }
        }
        self.entries.push(screen);
    }

    /// Removes and returns the most recently pushed screen, or `None` when
    /// nothing is recorded: empty history is an explicit signal, and the
    /// caller chooses the fallback screen.
    pub fn pop(&mut self) -> (r: Option<ScreenId>)
        requires
            old(self).wf(),
        ensures
            final(self).wf(),
            old(self)@.len() == 0 ==> r is None && final(self)@ == old(self)@,
            old(self)@.len() > 0 ==> r == Some(old(self)@.last()) && final(self)@
                == old(self)@.drop_last(),
    {
        self.entries.pop()
    }

    /// Resets to empty. Invoked when entering the playable scene, so that
    /// pausing and returning restarts back-navigation from there rather
    /// than resurrecting menu history from before play started.
    pub fn clear(&mut self)
        ensures
            final(self).wf(),
            final(self)@ == Seq::<ScreenId>::empty(),
    {
        self.entries.clear();
    }
}

/// Helper for the bound law: pushing `xs` onto any in-bound history keeps
/// the suffix of `h + xs` that fits the capacity.
proof fn lemma_pushed_all_general(h: Seq<ScreenId>, xs: Seq<ScreenId>)
    requires
        h.len() <= HISTORY_CAPACITY as int,
    ensures
        pushed_all(h, xs) == {
            let total = h.len() + xs.len();
            let keep = if total <= HISTORY_CAPACITY as int {
                total as int
            } else {
                HISTORY_CAPACITY as int
            };
            (h + xs).subrange(total - keep, total as int)
        },
    decreases xs.len(),
{
    let total = h.len() + xs.len();
    let keep = if total <= HISTORY_CAPACITY as int {
        total as int
    } else {
        HISTORY_CAPACITY as int
    };
    if xs.len() == 0 {
        assert(pushed_all(h, xs) =~= (h + xs).subrange(total - keep, total as int));
    } else {
        let h1 = pushed_one(h, xs[0]);
        let xs1 = xs.drop_first();
        lemma_pushed_all_general(h1, xs1);
        let total1 = h1.len() + xs1.len();
        let keep1 = if total1 <= HISTORY_CAPACITY as int {
            total1 as int
        } else {
            HISTORY_CAPACITY as int
        };
        if h.len() < HISTORY_CAPACITY as int {
            assert(h1 + xs1 =~= h + xs);
            assert(pushed_all(h, xs) =~= (h + xs).subrange(total - keep, total as int));
        } else {
            assert(h1 + xs1 =~= (h + xs).subrange(1, total as int));
            assert((h1 + xs1).subrange(total1 - keep1, total1 as int) =~= (h + xs).subrange(
                total - keep,
                total as int,
            ));
        }
    }
}

/// History bound law: pushing at least [`HISTORY_CAPACITY`] screens leaves
/// the history holding exactly the most recently pushed screens that fit,
/// in push order (newest last), whatever it held before.
pub proof fn lemma_history_bound(h: Seq<ScreenId>, xs: Seq<ScreenId>)
    requires
        h.len() <= HISTORY_CAPACITY as int,
        xs.len() >= HISTORY_CAPACITY as int,
    ensures
        pushed_all(h, xs).len() == HISTORY_CAPACITY as int,
        pushed_all(h, xs) == xs.subrange(
            xs.len() - HISTORY_CAPACITY as int,
            xs.len() as int,
        ),
{
    lemma_pushed_all_general(h, xs);
    let total = h.len() + xs.len();
    assert((h + xs).subrange(total - HISTORY_CAPACITY as int, total as int) =~= xs.subrange(
        xs.len() - HISTORY_CAPACITY as int,
        xs.len() as int,
    ));
}

} // verus!
