//! A growable sequence with modulo-wrapped indexed access and removal.
//!
//! Elements are appended at the end; the "circularity" applies only to
//! reading and removing, where an arbitrary index is mapped into range by
//! taking it modulo the current size. Reading an element returns a clone,
//! so element types must be duplicable.

use vstd::prelude::*;

verus! {

/// Error returned by [`CircularList::remove`] when the list is empty.
#[derive(Debug)]
pub struct EmptyListError;

impl EmptyListError {
    /// The fixed human-readable description of this error.
    pub fn message(&self) -> (r: String)
        ensures
            r@ == "Could not remove from an empty list"@,
    {
        String::from_str("Could not remove from an empty list")
    }
}

/// A sequence whose indexed reads and removals wrap around modulo the
/// current number of elements.
pub struct CircularList<T> {
    elements: Vec<T>,
    size: usize,
}

impl<T> View for CircularList<T> {
    type V = Seq<T>;

    closed spec fn view(&self) -> Seq<T> {
        self.elements@
    }
}

impl<T> CircularList<T> {
    /// The cached size always agrees with the number of stored elements.
    pub closed spec fn wf(&self) -> bool {
        self.size == self.elements@.len()
    }

    /// Creates an empty list.
    pub fn new() -> (r: Self)
        ensures
            r.wf(),
            r@ == Seq::<T>::empty(),
    {
        CircularList { elements: Vec::new(), size: 0 }
    }

    /// Builds a list holding the given elements, in order.
    pub fn from(v: Vec<T>) -> (r: Self)
        ensures
            r.wf(),
            r@ == v@,
    {
        let size = v.len();
        CircularList { elements: v, size }
    }

    /// Appends an element at the end; always succeeds.
    pub fn push(&mut self, e: T)
        requires
            old(self).wf(),
        ensures
            final(self).wf(),
            final(self)@ == old(self)@.push(e),
    {
        self.elements.push(e);
        self.size = self.elements.len();
    }

    /// Removes the element at `index` modulo the current size, shifting the
    /// following elements left. Fails if and only if the list is empty.
    pub fn remove(&mut self, index: usize) -> (r: Result<(), EmptyListError>)
        requires
            old(self).wf(),
        ensures
            final(self).wf(),
            old(self)@.len() == 0 ==> r is Err && final(self)@ == old(self)@,
            old(self)@.len() > 0 ==> r is Ok && final(self)@ == old(self)@.remove(
                (index as int) % (old(self)@.len() as int),
            ),
    {
        if self.elements.is_empty() {
            return Err(EmptyListError);
        }
        let i = self.calc_index(index);
        self.elements.remove(i);
        self.size = self.size - 1;
        Ok(())
    }

    /// Maps an arbitrary index into range by taking it modulo the size.
    fn calc_index(&self, idx: usize) -> (r: usize)
        requires
            self.wf(),
            self@.len() > 0,
        ensures
            r == (idx as int) % (self@.len() as int),
            r < self@.len(),
    {
        idx % self.size
    }
}

impl<T: Clone> CircularList<T> {
    /// Returns a clone of the element at `index` modulo the current size,
    /// or `None` if the list is empty. The list itself is unchanged.
    pub fn get(&mut self, index: usize) -> (r: Option<T>)
        requires
            old(self).wf(),
        ensures
            *final(self) == *old(self),
            (old(self)@.len() == 0) <==> (r is None),
            old(self)@.len() > 0 ==> (r matches Some(e) && cloned(
                old(self)@[(index as int) % (old(self)@.len() as int)],
                e,
            )),
    {
        if self.elements.is_empty() {
            return None;
        }
        let i = self.calc_index(index);
        let el = self.elements[i].clone();
        Some(el)
    }
}

/// Index wraparound: in a non-empty list, an index `i` and the index
/// `i + k * len` reach the same position, hence the same element, for any
/// non-negative `i` and `k`. This is why repeated reads through
/// [`CircularList::get`] at indices that differ by a multiple of the size
/// read the same stored element.
pub proof fn lemma_get_wraparound<T>(l: CircularList<T>, i: int, k: int)
    requires
        l.wf(),
        l@.len() > 0,
        0 <= i,
        0 <= k,
    ensures
        (i + k * l@.len()) % (l@.len() as int) == i % (l@.len() as int),
        l@[(i + k * l@.len()) % (l@.len() as int)] == l@[i % (l@.len() as int)],
{
    let m = l@.len() as int;
    assert(k * m == m * k) by (nonlinear_arith);
    vstd::arithmetic::div_mod::lemma_mod_multiples_vanish(k, i, m);
    vstd::arithmetic::div_mod::lemma_mod_bound(i, m);
}

} // verus!
