use vstd::prelude::*;
use std::collections::HashSet;

verus! {

broadcast use vstd::std_specs::hash::group_hash_axioms;

/// The bulk selection of the post list: whether selecting is on, and which
/// post ids are selected.
pub struct Selection {
    selecting: bool,
    ids: HashSet<i64>,
}

impl Selection {
    pub closed spec fn is_selecting(&self) -> bool {
        self.selecting
    }

    /// The selected ids.
    pub closed spec fn chosen(&self) -> Set<i64> {
        self.ids@
    }

    /// The selected ids are finitely many.
    pub closed spec fn wf(&self) -> bool {
        self.ids@.finite()
    }

    /// Selecting off, nothing selected.
    pub fn new() -> (s: Self)
        ensures
            s.wf(),
            !s.is_selecting(),
            s.chosen() == Set::<i64>::empty(),
    {
        Selection { selecting: false, ids: HashSet::new() }
    }

    pub fn selecting(&self) -> (r: bool)
        ensures
            r == self.is_selecting(),
    {
        self.selecting
    }

    /// Whether `id` is selected.
    pub fn contains(&self, id: i64) -> (r: bool)
        ensures
            r == self.chosen().contains(id),
    {
        self.ids.contains(&id)
    }

    /// How many posts are selected.
    pub fn count(&self) -> (r: usize)
        ensures
            r == self.chosen().len(),
    {
        self.ids.len()
    }

    /// Turns selecting on or off; turning it off clears the selection.
    pub fn toggle_mode(&mut self)
        requires
            old(self).wf(),
        ensures
            final(self).wf(),
            final(self).is_selecting() == !old(self).is_selecting(),
            final(self).is_selecting() ==> final(self).chosen() == old(self).chosen(),
            !final(self).is_selecting() ==> final(self).chosen() == Set::<i64>::empty(),
    {
        self.selecting = !self.selecting;
        if !self.selecting {
            self.ids.clear();
        }
    }

    /// Leaves selecting, with nothing selected (after a bulk action on the
    /// selected posts went through).
    pub fn leave(&mut self)
        ensures
            final(self).wf(),
            !final(self).is_selecting(),
            final(self).chosen() == Set::<i64>::empty(),
    {
        self.selecting = false;
        self.ids.clear();
    }

    /// Selects `id` when it is not selected, else deselects it.
    pub fn toggle(&mut self, id: i64)
        requires
            old(self).wf(),
        ensures
            final(self).wf(),
            final(self).is_selecting() == old(self).is_selecting(),
            final(self).chosen() == toggled(old(self).chosen(), id),
    {
        if self.ids.contains(&id) {
            self.ids.remove(&id);
        } else {
            self.ids.insert(id);
        }
    }

    /// Selects exactly the ids of the listed posts (posts without an id are
    /// passed over).
    pub fn select_all(&mut self, post_ids: &Vec<Option<i64>>)
        requires
            old(self).wf(),
        ensures
            final(self).wf(),
            final(self).is_selecting() == old(self).is_selecting(),
            forall|x: i64| #[trigger] final(self).chosen().contains(x) == post_ids@.contains(Some(x)),
    {
        let mut chosen: HashSet<i64> = HashSet::new();
        for i in 0..post_ids.len()
            invariant
                chosen@.finite(),
                forall|x: i64| #[trigger] chosen@.contains(x) == post_ids@.take(i as int).contains(Some(x)),
        {
            assert(post_ids@.take(i + 1) =~= post_ids@.take(i as int).push(post_ids@[i as int]));
            if let Some(id) = post_ids[i] {
                chosen.insert(id);
            }
            assert forall|x: i64| #[trigger] chosen@.contains(x) == post_ids@.take(i + 1).contains(Some(x)) by {
                let t = post_ids@.take(i + 1);
                if t.contains(Some(x)) {
                    let k = choose|k: int| 0 <= k < t.len() && t[k] == Some(x);
                    if k < i {
                        assert(post_ids@.take(i as int)[k] == Some(x));
                    }
                }
                if post_ids@.take(i as int).contains(Some(x)) {
                    let k = choose|k: int| 0 <= k < i && post_ids@.take(i as int)[k] == Some(x);
                    assert(t[k] == Some(x));
                }
                if post_ids@[i as int] == Some(x) {
                    assert(t[i as int] == Some(x));
                }
            }
        }
        assert(post_ids@.take(post_ids.len() as int) =~= post_ids@);
        self.ids = chosen;
    }

    /// Clears the selection.
    pub fn deselect_all(&mut self)
        ensures
            final(self).wf(),
            final(self).is_selecting() == old(self).is_selecting(),
            final(self).chosen() == Set::<i64>::empty(),
    {
        self.ids.clear();
    }
}

/// The selection after clicking post `id`: deselected when it was
/// selected, selected otherwise.
pub open spec fn toggled(chosen: Set<i64>, id: i64) -> Set<i64> {
    if chosen.contains(id) {
        chosen.remove(id)
    } else {
        chosen.insert(id)
    }
}

/// Clicking the same post twice leaves the selection as it was.
pub proof fn law_toggle_twice(chosen: Set<i64>, id: i64)
    ensures
        toggled(toggled(chosen, id), id) == chosen,
{
    assert(toggled(toggled(chosen, id), id) =~= chosen);
}

} // verus!
