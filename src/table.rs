//! One table per property shape: a slot for each property of that shape,
//! empty while the property is unset. Every shape shares these routines.

use vstd::prelude::*;

verus! {

/// The items of an optional sequence property, empty when it is unset.
pub open spec fn items_of<E>(slot: Option<Vec<E>>) -> Seq<E> {
    match slot {
        Some(v) => v@,
        None => Seq::empty(),
    }
}

/// A slot for each property of one shape.
pub struct PropertyTable<T> {
    slots: Vec<Option<T>>,
}

impl<T> View for PropertyTable<T> {
    type V = Seq<Option<T>>;

    closed spec fn view(&self) -> Seq<Option<T>> {
        self.slots@
    }
}

impl<T> PropertyTable<T> {
    /// A table of `n` unset properties.
    pub fn new(n: usize) -> (r: PropertyTable<T>)
        ensures
            r@ == Seq::new(n as nat, |i: int| None::<T>),
    {
        let mut slots: Vec<Option<T>> = Vec::new();
        let mut i: usize = 0;
        while i < n
            invariant
                0 <= i <= n,
                slots@ == Seq::new(i as nat, |k: int| None::<T>),
            decreases n - i,
        {
            slots.push(None);
            i = i + 1;
            assert(slots@ =~= Seq::new(i as nat, |k: int| None::<T>));
        }
        PropertyTable { slots }
    }

    /// The value of property `i`, if it is set.
    pub fn get(&self, i: usize) -> (r: Option<&T>)
        requires
            i < self@.len(),
        ensures
            r.is_some() == self@[i as int].is_some(),
            r matches Some(v) ==> *v == self@[i as int].unwrap(),
    {
        match &self.slots[i] {
            Some(v) => Some(v),
            None => None,
        }
    }

    /// Whether property `i` is set.
    pub fn is_set(&self, i: usize) -> (r: bool)
        requires
            i < self@.len(),
        ensures
            r == self@[i as int].is_some(),
    {
        self.slots[i].is_some()
    }

    /// Gives property `i` the value `v`, replacing any earlier one.
    pub fn set(&mut self, i: usize, v: T)
        requires
            i < old(self)@.len(),
        ensures
            final(self)@ == old(self)@.update(i as int, Some(v)),
    {
        self.slots.set(i, Some(v));
    }

    /// Unsets property `i`.
    pub fn clear(&mut self, i: usize)
        requires
            i < old(self)@.len(),
        ensures
            final(self)@ == old(self)@.update(i as int, None),
    {
        self.slots.set(i, None);
    }

    /// Which properties are set, in table order.
    pub fn presence(&self) -> (r: Vec<bool>)
        ensures
            r@ == Seq::new(self@.len(), |i: int| self@[i].is_some()),
    {
        let mut out: Vec<bool> = Vec::new();
        let mut i: usize = 0;
        while i < self.slots.len()
            invariant
                0 <= i <= self@.len(),
                out@ == Seq::new(i as nat, |k: int| self@[k].is_some()),
            decreases self@.len() - i,
        {
            out.push(self.slots[i].is_some());
            i = i + 1;
            assert(out@ =~= Seq::new(i as nat, |k: int| self@[k].is_some()));
        }
        out
    }
}

impl<E> PropertyTable<Vec<E>> {
    /// Appends `item` to sequence property `i`, which becomes set if it was not.
    pub fn push(&mut self, i: usize, item: E)
        requires
            i < old(self)@.len(),
        ensures
            final(self)@.len() == old(self)@.len(),
            final(self)@[i as int].is_some(),
            items_of(final(self)@[i as int]) == items_of(old(self)@[i as int]).push(item),
            forall|j: int| 0 <= j < old(self)@.len() && j != i ==> final(self)@[j] == old(self)@[j],
    {
        let mut slot: Option<Vec<E>> = None;
        core::mem::swap(&mut self.slots[i], &mut slot);
        let mut items = match slot {
            Some(v) => v,
            None => Vec::new(),
        };
        items.push(item);
        self.slots.set(i, Some(items));
    }
}

/// Setting a slot and reading it back gives the value set, clearing it
/// leaves it empty, and no other slot changes either way.
pub proof fn lemma_set_clear_get<T>(slots: Seq<Option<T>>, i: int, v: T)
    requires
        0 <= i < slots.len(),
    ensures
        slots.update(i, Some(v))[i] == Some(v),
        slots.update(i, None)[i] is None,
        forall|j: int|
            0 <= j < slots.len() && j != i ==> slots.update(i, Some(v))[j] == slots[j]
                && slots.update(i, None)[j] == slots[j],
{
}

/// Pushing items one at a time onto an unset sequence property, where
/// `states[k]` holds its items after `k` pushes, leaves exactly the items
/// pushed, in push order.
pub proof fn lemma_pushes_keep_order<E>(states: Seq<Seq<E>>, items: Seq<E>)
    requires
        states.len() == items.len() + 1,
        states[0] == Seq::<E>::empty(),
        forall|k: int| 0 <= k < items.len() ==> #[trigger] states[k + 1] == states[k].push(items[k]),
    ensures
        states.last() == items,
    decreases items.len(),
{
    if items.len() > 0 {
        let n = items.len() - 1;
        lemma_pushes_keep_order(states.drop_last(), items.drop_last());
        assert(states[n + 1] == states[n].push(items[n]));
        assert(states.drop_last().last() == states[n]);
        assert(items =~= items.drop_last().push(items[n]));
    } else {
        assert(items =~= Seq::<E>::empty());
    }
}

} // verus!
