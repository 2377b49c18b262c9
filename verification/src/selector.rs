use vstd::prelude::*;

verus! {

/// A bounded single-cursor list: an owned sequence of items plus a cursor
/// index. The cursor always lies inside the sequence when the sequence is
/// non-empty, and sits at zero when it is empty; movement clamps at both
/// ends and never wraps.
#[derive(Debug)]
pub struct Selector<T> {
    index: usize,
    items: Vec<T>,
}

/// Holds when `post` is `pre` with its cursor moved one step forward,
/// clamped at the last element.
pub open spec fn moved_next<T>(pre: Selector<T>, post: Selector<T>) -> bool {
    &&& post.spec_items() == pre.spec_items()
    &&& post.spec_pos() == if pre.spec_pos() + 1 < pre.spec_items().len() {
        pre.spec_pos() + 1
    } else {
        pre.spec_pos()
    }
}

/// Holds when `post` is `pre` with its cursor moved one step back, clamped
/// at the first element.
pub open spec fn moved_prev<T>(pre: Selector<T>, post: Selector<T>) -> bool {
    &&& post.spec_items() == pre.spec_items()
    &&& post.spec_pos() == if pre.spec_pos() > 0 {
        pre.spec_pos() - 1
    } else {
        pre.spec_pos()
    }
}

impl<T> Selector<T> {
    /// Every selector keeps its cursor inside the backing sequence; an empty
    /// selector keeps it at zero.
    #[verifier::type_invariant]
    pub closed spec fn wf(self) -> bool {
        if self.items@.len() == 0 {
            self.index == 0
        } else {
            self.index < self.items@.len()
        }
    }

    /// The backing sequence.
    pub closed spec fn spec_items(self) -> Seq<T> {
        self.items@
    }

    /// The cursor position.
    pub closed spec fn spec_pos(self) -> int {
        self.index as int
    }

    pub fn new(items: Vec<T>) -> (r: Self)
        ensures
            r.spec_items() == items@,
            r.spec_pos() == 0,
    {
        Selector { index: 0, items }
    }

    pub fn len(&self) -> (r: usize)
        ensures
            r == self.spec_items().len(),
    {
        self.items.len()
    }

    /// The element under the cursor; absent exactly when the selector is
    /// empty.
    pub fn get(&self) -> (r: Option<&T>)
        ensures
            self.spec_items().len() == 0 ==> r is None,
            self.spec_items().len() > 0 ==> (r matches Some(t) && *t
                == self.spec_items()[self.spec_pos()]),
    {
        proof {
            use_type_invariant(&*self);
        }
        if self.index < self.items.len() {
            Some(&self.items[self.index])
        } else {
            None
        }
    }

    /// Moves the cursor one step forward; a no-op at the last element (and
    /// on an empty selector).
    pub fn next(&mut self)
        ensures
            moved_next(*old(self), *final(self)),
    {
        proof {
            use_type_invariant(&*self);
        }
        if self.index < self.items.len() {
            if self.index + 1 < self.items.len() {
                self.index = self.index + 1;
            }
        }
    }

    /// Moves the cursor one step back; a no-op at the first element.
    pub fn previous(&mut self)
        ensures
            moved_prev(*old(self), *final(self)),
    {
        proof {
            use_type_invariant(&*self);
        }
        if self.index > 0 {
            self.index = self.index - 1;
        }
    }

    /// The cursor position, as a value.
    pub fn position(&self) -> (r: usize)
        ensures
            r == self.spec_pos(),
    {
        self.index
    }

    /// Read-only access to the backing items, for rendering.
    pub fn items(&self) -> (r: &Vec<T>)
        ensures
            r@ == self.spec_items(),
    {
        &self.items
    }
}

/// A bounded cursor over a borrowed list: a non-owning counterpart of
/// [`Selector`]. The backing list is shared, so the cursor alone moves.
pub struct NavigableList<'a, T> {
    pub list: &'a Vec<T>,
    idx: usize,
}

impl<'a, T> NavigableList<'a, T> {
    /// The cursor position.
    pub closed spec fn spec_idx(self) -> int {
        self.idx as int
    }

    /// The backing list.
    pub closed spec fn spec_list(self) -> Seq<T> {
        self.list@
    }

    /// The cursor lies inside the list whenever the list is non-empty, and
    /// at zero when the list is empty.
    pub open spec fn wf(self) -> bool {
        if self.spec_list().len() == 0 {
            self.spec_idx() == 0
        } else {
            self.spec_idx() < self.spec_list().len()
        }
    }

    pub fn from(list: &Vec<T>) -> (r: NavigableList<'_, T>)
        ensures
            r.spec_list() == list@,
            r.spec_idx() == 0,
    {
        NavigableList { list, idx: 0 }
    }

    /// Moves the cursor one step forward; a no-op at the last element.
    pub fn move_next(&mut self)
        requires
            old(self).wf(),
        ensures
            final(self).wf(),
            final(self).spec_list() == old(self).spec_list(),
            final(self).spec_idx() == if old(self).spec_idx() + 1 < old(self).spec_list().len() {
                old(self).spec_idx() + 1
            } else {
                old(self).spec_idx()
            },
    {
        if self.idx < self.list.len() {
            if self.idx + 1 < self.list.len() {
                self.idx = self.idx + 1;
            }
        }
    }

    /// Moves the cursor one step back; a no-op at the first element.
    pub fn move_prev(&mut self)
        requires
            old(self).wf(),
        ensures
            final(self).wf(),
            final(self).spec_list() == old(self).spec_list(),
            final(self).spec_idx() == if old(self).spec_idx() > 0 {
                old(self).spec_idx() - 1
            } else {
                old(self).spec_idx()
            },
    {
        if self.idx > 0 {
            self.idx = self.idx - 1;
        }
    }

    pub fn get_position(&self) -> (r: usize)
        ensures
            r == self.spec_idx(),
    {
        self.idx
    }

    /// The element under the cursor; absent exactly when the cursor is out
    /// of the list, which for a well-formed cursor means the list is empty.
    pub fn get(&self) -> (r: Option<&'a T>)
        ensures
            if self.spec_idx() < self.spec_list().len() {
                r matches Some(t) && *t == self.spec_list()[self.spec_idx()]
            } else {
                r is None
            },
            self.spec_list().len() == 0 ==> r is None,
            self.wf() && self.spec_list().len() > 0 ==> r is Some,
    {
        if self.idx < self.list.len() {
            Some(&self.list[self.idx])
        } else {
            None
        }
    }

    /// The backing list, whole, for iteration by a renderer.
    pub fn iter(&self) -> (r: &'a [T])
        ensures
            r@ == self.spec_list(),
    {
        self.list.as_slice()
    }
}

} // verus!
