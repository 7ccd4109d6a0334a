use crate::bounded::BoundedUsize;
use crate::const_assertions::{AssertLessEq, AssertLessEqPlusOne};
use vstd::prelude::*;
use vstd::slice::slice_subrange;

verus! {

/// A fixed array of `N` elements, indexed by numbers bounded by at most `N`.
#[derive(Clone, Copy, Debug, PartialEq, Eq, PartialOrd, Ord)]
pub struct BitBoundArray<T, const N: usize>(pub [T; N]);

impl<T, const N: usize> View for BitBoundArray<T, N> {
    type V = Seq<T>;

    open spec fn view(&self) -> Seq<T> {
        self.0@
    }
}

impl<T, const N: usize> BitBoundArray<T, N> {
    pub fn from_array(array: [T; N]) -> (r: Self)
        ensures
            r.0 == array,
    {
        BitBoundArray(array)
    }

    pub fn get_inner(&self) -> (r: &[T; N])
        ensures
            *r == self.0,
    {
        &self.0
    }

    pub fn get_inner_mut(&mut self) -> (r: &mut [T; N])
        ensures
            *r == old(self).0,
            final(self).0 == *final(r),
    {
        &mut self.0
    }

    pub fn len(&self) -> (r: usize)
        ensures
            r == N,
            r == self@.len(),
    {
        N
    }

    /// The element at `index`; any number below `I <= N` is in range.
    pub fn get<const I: usize>(&self, index: BoundedUsize<I>) -> (r: &T)
        requires
            AssertLessEq::<I, N>::holds(),
        ensures
            index.value() < N,
            *r == self@[index.value() as int],
    {
        let i = index.into_inner();
        &self.0[i]
    }

    /// A handle on the element at `index`, through which it can be changed.
    pub fn get_mut<const I: usize>(&mut self, index: BoundedUsize<I>) -> (r: &mut T)
        requires
            AssertLessEq::<I, N>::holds(),
        ensures
            index.value() < N,
            *r == old(self)@[index.value() as int],
            final(self)@ == old(self)@.update(index.value() as int, *final(r)),
    {
        let i = index.into_inner();
        &mut self.0[i]
    }

    /// Replaces the element at `index` by `value`.
    pub fn set<const I: usize>(&mut self, index: BoundedUsize<I>, value: T)
        requires
            AssertLessEq::<I, N>::holds(),
        ensures
            index.value() < N,
            final(self)@ == old(self)@.update(index.value() as int, value),
    {
        let i = index.into_inner();
        self.0[i] = value;
    }
}

impl<T, const N: usize, const I: usize> std::ops::Index<BoundedUsize<I>> for BitBoundArray<T, N> {
    type Output = T;

    fn index(&self, index: BoundedUsize<I>) -> (r: &T)
        ensures
            *r == self@[index.value() as int],
    {
        self.get(index)
    }
}

impl<T, const N: usize, const I: usize> vstd::std_specs::core::IndexSpecImpl<BoundedUsize<I>> for BitBoundArray<T, N> {
    open spec fn index_req(&self, index: &BoundedUsize<I>) -> bool {
        AssertLessEq::<I, N>::holds()
    }
}

/// A view of a `BitBoundArray` up to an exclusive end.
///
/// The view keeps the backing array's capacity `N`. An index bounded by at
/// most `N` may go past `end`: it reads the backing array, never memory
/// outside it.
pub struct BitBoundSlice<'a, T, const N: usize> {
    backing: &'a [T; N],
    end: usize,
}

impl<'a, T, const N: usize> BitBoundSlice<'a, T, N> {
    /// The whole backing array.
    pub closed spec fn backing(&self) -> Seq<T> {
        self.backing@
    }

    /// The exclusive end of the view.
    pub closed spec fn end(&self) -> nat {
        self.end as nat
    }

    #[verifier::type_invariant]
    closed spec fn end_in_backing(&self) -> bool {
        self.end <= N
    }

    /// The element at `index` of the backing array.
    pub fn get<const I: usize>(&self, index: BoundedUsize<I>) -> (r: &T)
        requires
            AssertLessEq::<I, N>::holds(),
        ensures
            index.value() < N,
            *r == self.backing()[index.value() as int],
    {
        let i = index.into_inner();
        &self.backing[i]
    }

    /// The elements before the end.
    pub fn inner_slice(&self) -> (r: &[T])
        ensures
            r@ == self.backing().subrange(0, self.end() as int),
    {
        proof {
            use_type_invariant(self);
        }
        slice_subrange(self.backing.as_slice(), 0, self.end)
    }
}

impl<'a, T, const N: usize, const I: usize> std::ops::Index<BoundedUsize<I>> for BitBoundSlice<'a, T, N> {
    type Output = T;

    fn index(&self, index: BoundedUsize<I>) -> (r: &T)
        ensures
            *r == self.backing()[index.value() as int],
    {
        self.get(index)
    }
}

impl<'a, T, const N: usize, const I: usize> vstd::std_specs::core::IndexSpecImpl<BoundedUsize<I>> for BitBoundSlice<'a, T, N> {
    open spec fn index_req(&self, index: &BoundedUsize<I>) -> bool {
        AssertLessEq::<I, N>::holds()
    }
}

impl<T, const N: usize> BitBoundArray<T, N> {
    /// The view of the elements before `end`, which may equal `N`.
    pub fn slice_to<const I: usize>(&self, end: BoundedUsize<I>) -> (r: BitBoundSlice<'_, T, N>)
        requires
            AssertLessEqPlusOne::<I, N>::holds(),
        ensures
            r.backing() == self@,
            r.end() == end.value(),
    {
        let end = end.into_inner();
        BitBoundSlice { backing: &self.0, end }
    }

    /// The view of the whole array.
    pub fn as_bound_slice(&self) -> (r: BitBoundSlice<'_, T, N>)
        ensures
            r.backing() == self@,
            r.end() == N,
    {
        BitBoundSlice { backing: &self.0, end: N }
    }
}

impl<T: Default + Copy, const N: usize> Default for BitBoundArray<T, N> {
    /// An array whose `N` elements are all one value `T::default()` returned.
    fn default() -> (r: Self)
        ensures
            exists|d: T| call_ensures(T::default, (), d) && forall|i: int| 0 <= i < N ==> #[trigger] r@[i] == d,
    {
        let fill = T::default();
        let r = BitBoundArray([fill; N]);
        assert(forall|i: int| 0 <= i < N ==> #[trigger] r@[i] == fill);
        r
    }
}

/// Reading an index just written gives back the value written: after `set`
/// at `index`, `get` at the same `index` returns that value.
pub proof fn lemma_set_then_get<T, const N: usize, const I: usize>(
    before: BitBoundArray<T, N>,
    after: BitBoundArray<T, N>,
    index: BoundedUsize<I>,
    value: T,
    read: &T,
)
    requires
        AssertLessEq::<I, N>::holds(),
        index.value() < I,
        after@ == before@.update(index.value() as int, value),
        call_ensures(BitBoundArray::<T, N>::get::<I>, (&after, index), read),
    ensures
        *read == value,
{
}

/// A view of a `BitBoundArray` up to an exclusive end, through which the
/// backing array is changed in place.
///
/// Like `BitBoundSlice`, it keeps the backing array's capacity `N`.
pub struct BitBoundSliceMut<'a, T, const N: usize> {
    pub backing: &'a mut [T; N],
    pub end: usize,
}

impl<'a, T, const N: usize> BitBoundSliceMut<'a, T, N> {
    /// The whole backing array as it stands now.
    pub open spec fn backing(&self) -> Seq<T> {
        (*self.backing)@
    }

    /// The exclusive end of the view.
    pub open spec fn end(&self) -> nat {
        self.end as nat
    }

    /// The element at `index` of the backing array.
    pub fn get<const I: usize>(&self, index: BoundedUsize<I>) -> (r: &T)
        requires
            AssertLessEq::<I, N>::holds(),
        ensures
            index.value() < N,
            *r == self.backing()[index.value() as int],
    {
        let i = index.into_inner();
        &self.backing[i]
    }

    /// Replaces the element at `index` of the backing array by `value`.
    pub fn set<const I: usize>(&mut self, index: BoundedUsize<I>, value: T)
        requires
            AssertLessEq::<I, N>::holds(),
        ensures
            index.value() < N,
            final(self).backing() == old(self).backing().update(index.value() as int, value),
            final(self).end() == old(self).end(),
            *final(final(self).backing) == *final(old(self).backing),
    {
        let i = index.into_inner();
        self.backing[i] = value;
    }

    /// The elements before the end, changeable in place.
    pub fn inner_slice_mut(&mut self) -> (r: &mut [T])
        requires
            old(self).end() <= N,
        ensures
            r@ == old(self).backing().subrange(0, old(self).end() as int),
            final(self).backing() == final(r)@ + old(self).backing().subrange(old(self).end() as int, N as int),
            final(self).end() == old(self).end(),
            *final(final(self).backing) == *final(old(self).backing),
    {
        let end = self.end;
        let whole: &mut [T] = self.backing;
        let (front, _back) = whole.split_at_mut(end);
        front
    }
}

impl<T, const N: usize> BitBoundArray<T, N> {
    /// The changeable view of the elements before `end`, which may equal `N`.
    pub fn slice_to_mut<const I: usize>(&mut self, end: BoundedUsize<I>) -> (r: BitBoundSliceMut<'_, T, N>)
        requires
            AssertLessEqPlusOne::<I, N>::holds(),
        ensures
            r.backing() == old(self)@,
            r.end() == end.value(),
            final(self).0 == *final(r.backing),
    {
        let end = end.into_inner();
        BitBoundSliceMut { backing: &mut self.0, end }
    }
}

} // verus!
