use vstd::prelude::*;

verus! {

/// A growable buffer that requests `OVERREAD` spare slots past its length
/// after every operation that grows it, so that a reader may look up to
/// `OVERREAD` elements past the end without leaving the allocation.
pub struct OverreadVec<T, const OVERREAD: usize> {
    items: Vec<T>,
    /// A lower bound on the number of elements the allocation holds.
    known_room: Ghost<nat>,
}

impl<T, const OVERREAD: usize> View for OverreadVec<T, OVERREAD> {
    type V = Seq<T>;

    closed spec fn view(&self) -> Seq<T> {
        self.items@
    }
}

impl<T, const OVERREAD: usize> OverreadVec<T, OVERREAD> {
    /// How many elements the allocation is known to hold without growing.
    pub closed spec fn room(&self) -> nat {
        self.known_room@
    }

    /// The allocation reaches `OVERREAD` elements past the end.
    pub open spec fn has_margin(&self) -> bool {
        self.room() >= self@.len() + OVERREAD
    }

    /// Relies on `Vec::reserve`: afterwards the capacity is at least the
    /// length plus `additional`, and it never shrinks; the elements stay.
    #[verifier::external_body]
    fn reserve_room(&mut self, additional: usize)
        requires
            old(self)@.len() + additional <= usize::MAX,
        ensures
            final(self)@ == old(self)@,
            final(self).room() >= final(self)@.len() + additional,
            final(self).room() >= old(self).room(),
    {
        self.items.reserve(additional)
    }

    pub fn new() -> (r: Self)
        ensures
            r@ == Seq::<T>::empty(),
            r.room() >= OVERREAD,
            r.has_margin(),
    {
        let mut r = OverreadVec { items: Vec::with_capacity(OVERREAD), known_room: Ghost(0) };
        r.reserve_room(OVERREAD);
        r
    }

    /// An empty buffer with room for `capacity` elements and the margin.
    pub fn with_capacity(capacity: usize) -> (r: Self)
        requires
            capacity + OVERREAD <= usize::MAX,
        ensures
            r@ == Seq::<T>::empty(),
            r.room() >= capacity + OVERREAD,
            r.has_margin(),
    {
        let mut r = OverreadVec { items: Vec::with_capacity(capacity + OVERREAD), known_room: Ghost(0) };
        r.reserve_room(capacity + OVERREAD);
        r
    }

    /// Takes over `vec` and requests the margin past its end.
    pub fn from_vec(vec: Vec<T>) -> (r: Self)
        requires
            vec@.len() + OVERREAD <= usize::MAX,
        ensures
            r@ == vec@,
            r.room() >= vec@.len() + OVERREAD,
            r.has_margin(),
    {
        let mut r = OverreadVec { items: vec, known_room: Ghost(0) };
        r.reserve_room(OVERREAD);
        r
    }

    /// Removes every element; the allocation stays as it is.
    pub fn clear(&mut self)
        ensures
            final(self)@ == Seq::<T>::empty(),
            final(self).room() == old(self).room(),
            old(self).has_margin() ==> final(self).has_margin(),
    {
        self.items.clear();
    }

    /// Requests room for `additional` more elements and the margin.
    pub fn reserve(&mut self, additional: usize)
        requires
            old(self)@.len() + additional + OVERREAD <= usize::MAX,
        ensures
            final(self)@ == old(self)@,
            final(self).room() >= old(self)@.len() + additional + OVERREAD,
            final(self).room() >= old(self).room(),
            final(self).has_margin(),
    {
        self.reserve_room(additional + OVERREAD);
    }

    pub fn push(&mut self, value: T)
        requires
            old(self)@.len() + 1 + OVERREAD <= usize::MAX,
        ensures
            final(self)@ == old(self)@.push(value),
            final(self).has_margin(),
    {
        self.items.push(value);
        self.reserve_room(OVERREAD);
    }

    /// The plain vector, no longer tied to a margin.
    pub fn into_inner(self) -> (r: Vec<T>)
        ensures
            r@ == self@,
    {
        self.items
    }

    /// Appends the elements of `items`, in order.
    pub fn extend(&mut self, items: Vec<T>)
        requires
            old(self)@.len() + items@.len() + OVERREAD <= usize::MAX,
        ensures
            final(self)@ == old(self)@ + items@,
            final(self).has_margin(),
    {
        let mut items = items;
        self.items.append(&mut items);
        self.reserve_room(OVERREAD);
    }

    /// Appends clones of the elements of `slice`.
    pub fn extend_from_slice(&mut self, slice: &[T])
        where
            T: Clone,
        requires
            old(self)@.len() + slice@.len() + OVERREAD <= usize::MAX,
        ensures
            final(self)@.len() == old(self)@.len() + slice@.len(),
            forall|i: int|
                #![trigger final(self)@[i]]
                0 <= i < final(self)@.len() ==> if i < old(self)@.len() {
                    final(self)@[i] == old(self)@[i]
                } else {
                    cloned::<T>(slice@[i - old(self)@.len()], final(self)@[i])
                },
            final(self).has_margin(),
    {
        self.items.extend_from_slice(slice);
        self.reserve_room(OVERREAD);
    }

    /// Removes and returns the last element, if any; the allocation stays
    /// as it is.
    pub fn pop(&mut self) -> (r: Option<T>)
        ensures
            old(self)@.len() > 0 ==> r == Some(old(self)@.last()) && final(self)@ == old(self)@.drop_last(),
            old(self)@.len() == 0 ==> r == None::<T> && final(self)@ == old(self)@,
            final(self).room() == old(self).room(),
            old(self).has_margin() ==> final(self).has_margin(),
    {
        self.items.pop()
    }

    /// Inserts `element` at `index`, shifting the later elements up.
    pub fn insert(&mut self, index: usize, element: T)
        requires
            index <= old(self)@.len(),
            old(self)@.len() + 1 + OVERREAD <= usize::MAX,
        ensures
            final(self)@ == old(self)@.insert(index as int, element),
            final(self).has_margin(),
    {
        self.items.insert(index, element);
        self.reserve_room(OVERREAD);
    }
}

impl<T, const OVERREAD: usize> AsRef<Vec<T>> for OverreadVec<T, OVERREAD> {
    fn as_ref(&self) -> (r: &Vec<T>)
        ensures
            r@ == self@,
    {
        &self.items
    }
}

impl<T, const OVERREAD: usize> std::ops::Deref for OverreadVec<T, OVERREAD> {
    type Target = Vec<T>;

    fn deref(&self) -> (r: &Vec<T>)
        ensures
            r@ == self@,
    {
        &self.items
    }
}

} // verus!
