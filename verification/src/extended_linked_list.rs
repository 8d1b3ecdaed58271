//! Index-addressed element storage for the document's lines.

use vstd::prelude::*;

verus! {

/// An indexable list of elements. It keeps the index-based interface of a
/// linked list extended with positional insert/remove, backed by a vector.
pub struct ExtendedLinkedList<T> {
    elems: Vec<T>,
}

impl<T> View for ExtendedLinkedList<T> {
    type V = Seq<T>;

    closed spec fn view(&self) -> Seq<T> {
        self.elems@
    }
}

impl<T> ExtendedLinkedList<T> {
    /// Relies on std's `Vec::from` for arrays: the vector holds the array's
    /// elements in order.
    #[verifier::external_body]
    fn array_to_vec<const N: usize>(list: [T; N]) -> (v: Vec<T>)
        ensures
            v@ == list@,
    {
        Vec::from(list)
    }

    pub fn from<const N: usize>(list: [T; N]) -> (r: Self)
        ensures
            r@ == list@,
    {
        ExtendedLinkedList { elems: Self::array_to_vec(list) }
    }

    pub fn from_vec(list: Vec<T>) -> (r: Self)
        ensures
            r@ == list@,
    {
        ExtendedLinkedList { elems: list }
    }

    pub fn len(&self) -> (n: usize)
        ensures
            n == self@.len(),
    {
        self.elems.len()
    }

    /// Inserts `element` so that it ends up at position `index`.
    pub fn push_at(&mut self, index: usize, element: T)
        requires
            index <= old(self)@.len(),
        ensures
            final(self)@ == old(self)@.insert(index as int, element),
    {
        self.elems.insert(index, element);
    }

    /// Removes and returns the element at position `index`; the list is
    /// unchanged and nothing is returned when `index` is the length.
    pub fn remove_at(&mut self, index: usize) -> (r: Option<T>)
        requires
            index <= old(self)@.len(),
        ensures
            index < old(self)@.len() ==> r == Some(old(self)@[index as int])
                && final(self)@ == old(self)@.remove(index as int),
            index == old(self)@.len() ==> r is None && final(self)@ == old(self)@,
    {
        if index < self.elems.len() {
            Some(self.elems.remove(index))
        } else {
            None
        }
    }

    pub fn get(&self, index: usize) -> (r: Option<&T>)
        ensures
            index < self@.len() ==> (match r {
                Some(e) => *e == self@[index as int],
                None => false,
            }),
            index >= self@.len() ==> r is None,
    {
        if index < self.elems.len() {
            Some(&self.elems[index])
        } else {
            None
        }
    }

    /// A mutable borrow of the element at `index`.
    pub fn get_mut(&mut self, index: usize) -> (r: &mut T)
        requires
            index < old(self)@.len(),
        ensures
            *r == old(self)@[index as int],
            final(self)@ == old(self)@.update(index as int, *final(r)),
    {
        &mut self.elems[index]
    }
}

} // verus!
