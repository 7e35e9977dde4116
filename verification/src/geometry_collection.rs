//! An ordered collection of [`Geometry`] values, with indexed access and
//! consuming, borrowing and mutably borrowing traversal.
use crate::geometry::{
    are_same_geometries, clone_geometries, identical_geometries, same_geometries, Geometry,
};
use crate::shapes::CoordinateType;
use vstd::prelude::*;
use vstd::std_specs::cmp::PartialEqSpec;
use vstd::std_specs::convert::IntoSpec;
use vstd::std_specs::iter::IteratorSpec;

verus! {

/// An ordered sequence of geometries.
///
/// The order in which elements were supplied is the order in which indexing
/// and every traversal see them. The model of a collection is the sequence of
/// its elements.
#[derive(Debug, Hash)]
pub struct GeometryCollection<T>(pub Vec<Geometry<T>>) where T: CoordinateType;

impl<T: CoordinateType> View for GeometryCollection<T> {
    type V = Seq<Geometry<T>>;

    open spec fn view(&self) -> Seq<Geometry<T>> {
        self.0@
    }
}

impl<T: CoordinateType> GeometryCollection<T> {
    /// Returns an empty collection.
    pub fn new() -> (gc: GeometryCollection<T>)
        ensures
            gc@ == Seq::<Geometry<T>>::empty(),
    {
        GeometryCollection(Vec::new())
    }

    /// The number of geometries in the collection.
    pub fn len(&self) -> (n: usize)
        ensures
            n == self@.len(),
    {
        self.0.len()
    }

    /// Whether the collection holds no geometry.
    pub fn is_empty(&self) -> (b: bool)
        ensures
            b <==> self@.len() == 0,
    {
        self.0.is_empty()
    }
}

impl<'a, T: CoordinateType> GeometryCollection<T> {
    /// A traversal of the elements by shared reference, first to last.
    pub fn iter(&'a self) -> (it: IterHelper<'a, T>)
        ensures
            it@ == self@,
    {
        self.into_iter()
    }

    /// A traversal of the elements by mutable reference, first to last.
    ///
    /// Whatever the traversal leaves in its slice when it ends is what the
    /// collection holds afterwards.
    pub fn iter_mut(&'a mut self) -> (it: IterMutHelper<'a, T>)
        ensures
            it@ == old(self)@,
            final(it.rest)@ == final(self)@,
    {
        self.into_iter()
    }
}

/// Wraps one geometry, or one value that converts to a geometry, as the only
/// element of a new collection.
impl<T: CoordinateType, IG: Into<Geometry<T>>> From<IG> for GeometryCollection<T> {
    fn from(x: IG) -> (gc: Self)
        ensures
            gc@.len() == 1,
            call_ensures(IG::into, (x,), gc@[0]),
            IG::obeys_into_spec() ==> gc@ == seq![x.into_spec()],
    {
        let mut items: Vec<Geometry<T>> = Vec::new();
        items.push(x.into());
        GeometryCollection(items)
    }
}

impl<T: CoordinateType, IG: Into<Geometry<T>>> vstd::std_specs::convert::FromSpecImpl<IG>
    for GeometryCollection<T> {
    /// The result is described through its view by `from` itself, not by
    /// `from_spec`.
    open spec fn obeys_from_spec() -> bool {
        false
    }

    open spec fn from_spec(x: IG) -> Self {
        arbitrary()
    }
}

impl<T: CoordinateType> GeometryCollection<T> {
    /// Collects the values that `iter` yields, each converted to a geometry,
    /// in the order in which they are yielded.
    pub fn from_iter<IG: Into<Geometry<T>>, I: Iterator<Item = IG>>(iter: I) -> (gc: Self)
        requires
            iter.obeys_prophetic_iter_laws(),
            iter.decrease() is Some,
        ensures
            gc@.len() == iter.remaining().len(),
            forall|i: int|
                0 <= i < gc@.len() ==> call_ensures(
                    IG::into,
                    (#[trigger] iter.remaining()[i],),
                    gc@[i],
                ),
            IG::obeys_into_spec() ==> gc@ == iter.remaining().map_values(|x: IG| x.into_spec()),
    {
        let mut items: Vec<Geometry<T>> = Vec::new();
        let mut source = iter;
        loop
            invariant
                source.obeys_prophetic_iter_laws(),
                source.decrease() is Some,
                items@.len() <= iter.remaining().len(),
                source.remaining() == iter.remaining().skip(items@.len() as int),
                forall|i: int|
                    0 <= i < items@.len() ==> call_ensures(
                        IG::into,
                        (#[trigger] iter.remaining()[i],),
                        items@[i],
                    ),
            ensures
                items@.len() == iter.remaining().len(),
            decreases source.decrease()->0,
        {
            match source.next() {
                Some(x) => {
                    items.push(x.into());
                },
                None => {
                    break ;
                },
            }
        }
        GeometryCollection(items)
    }
}

impl<T: CoordinateType> std::ops::Index<usize> for GeometryCollection<T> {
    type Output = Geometry<T>;

    /// The element at position `index`.
    fn index(&self, index: usize) -> (g: &Geometry<T>)
        ensures
            *g == self@[index as int],
    {
        &self.0[index]
    }
}

impl<T: CoordinateType> vstd::std_specs::core::IndexSpecImpl<usize> for GeometryCollection<T> {
    /// Only positions below the length can be read.
    open spec fn index_req(&self, index: &usize) -> bool {
        *index < self@.len()
    }
}

impl<T: CoordinateType> std::ops::IndexMut<usize> for GeometryCollection<T> {
    /// The element at position `index`, for writing.
    ///
    /// What the caller leaves behind the returned reference replaces that
    /// element; every other position and the length stay as they were.
    fn index_mut(&mut self, index: usize) -> (g: &mut Geometry<T>)
        requires
            index < old(self)@.len(),
        ensures
            *g == old(self)@[index as int],
            final(self)@ == old(self)@.update(index as int, *final(g)),
    {
        &mut self.0[index]
    }
}

/// What the next call of `next` hands out from a traversal that has yet to
/// yield `pending`: its first geometry, or nothing once none is left.
pub open spec fn next_item<T: CoordinateType>(pending: Seq<Geometry<T>>) -> Option<Geometry<T>> {
    if pending.len() == 0 {
        None
    } else {
        Some(pending[0])
    }
}

/// What a traversal that has yet to yield `pending` has yet to yield after
/// the next call of `next`: all but the first geometry, or still nothing.
pub open spec fn after_next<T: CoordinateType>(pending: Seq<Geometry<T>>) -> Seq<Geometry<T>> {
    if pending.len() == 0 {
        pending
    } else {
        pending.drop_first()
    }
}

/// A consuming traversal of a collection.
///
/// The model of the traversal is the sequence of geometries that it has yet
/// to yield.
pub struct IntoIteratorHelper<T: CoordinateType> {
    // The pending geometries, last to first, so that the next one is at the end.
    stack: Vec<Geometry<T>>,
}

impl<T: CoordinateType> View for IntoIteratorHelper<T> {
    type V = Seq<Geometry<T>>;

    closed spec fn view(&self) -> Seq<Geometry<T>> {
        self.stack@.reverse()
    }
}

impl<T: CoordinateType> IntoIterator for GeometryCollection<T> {
    type Item = Geometry<T>;

    type IntoIter = IntoIteratorHelper<T>;

    /// Turns the collection into a traversal that owns its elements.
    fn into_iter(self) -> (it: IntoIteratorHelper<T>)
        ensures
            it@ == self@,
    {
        let mut source = self.0;
        let mut stack: Vec<Geometry<T>> = Vec::new();
        loop
            invariant
                source@.len() + stack@.len() == self@.len(),
                forall|i: int| 0 <= i < source@.len() ==> source@[i] == self@[i],
                forall|i: int| 0 <= i < stack@.len() ==> stack@[i] == self@[self@.len() - 1 - i],
            ensures
                stack@.len() == self@.len(),
            decreases source@.len(),
        {
            match source.pop() {
                Some(g) => {
                    stack.push(g);
                },
                None => {
                    break ;
                },
            }
        }
        assert(stack@.reverse() =~= self@);
        IntoIteratorHelper { stack }
    }
}

impl<T: CoordinateType> Iterator for IntoIteratorHelper<T> {
    type Item = Geometry<T>;

    /// Hands out the first pending geometry, if there is one.
    fn next(&mut self) -> (item: Option<Geometry<T>>)
        ensures
            item == next_item(old(self)@),
            final(self)@ == after_next(old(self)@),
    {
        self.stack.pop()
    }
}

impl<T: CoordinateType> vstd::std_specs::iter::IteratorSpecImpl for IntoIteratorHelper<T> {
    open spec fn obeys_prophetic_iter_laws(&self) -> bool {
        true
    }

    open spec fn remaining(&self) -> Seq<Geometry<T>> {
        self@
    }

    open spec fn will_return_none(&self) -> bool {
        true
    }

    open spec fn decrease(&self) -> Option<nat> {
        Some(self@.len())
    }

    open spec fn initial_value_relation(&self, init: &Self) -> bool {
        init@ == self@
    }

    open spec fn peek(&self, index: int) -> Option<Geometry<T>> {
        if 0 <= index < self@.len() {
            Some(self@[index])
        } else {
            None
        }
    }
}

/// A traversal of a collection by shared reference.
///
/// The model of the traversal is the sequence of geometries that it has yet
/// to yield.
pub struct IterHelper<'a, T: CoordinateType> {
    rest: &'a [Geometry<T>],
}

impl<'a, T: CoordinateType> View for IterHelper<'a, T> {
    type V = Seq<Geometry<T>>;

    closed spec fn view(&self) -> Seq<Geometry<T>> {
        self.rest@
    }
}

impl<'a, T: CoordinateType> IntoIterator for &'a GeometryCollection<T> {
    type Item = &'a Geometry<T>;

    type IntoIter = IterHelper<'a, T>;

    /// Starts a traversal that borrows the collection.
    fn into_iter(self) -> (it: IterHelper<'a, T>)
        ensures
            it@ == self@,
    {
        IterHelper { rest: self.0.as_slice() }
    }
}

impl<'a, T: CoordinateType> Iterator for IterHelper<'a, T> {
    type Item = &'a Geometry<T>;

    /// Hands out a reference to the first pending geometry, if there is one.
    fn next(&mut self) -> (item: Option<&'a Geometry<T>>)
        ensures
            match item {
                Some(g) => next_item(old(self)@) == Some(*g),
                None => next_item(old(self)@) is None,
            },
            final(self)@ == after_next(old(self)@),
    {
        if self.rest.len() == 0 {
            None
        } else {
            let (head, tail) = self.rest.split_at(1);
            self.rest = tail;
            Some(&head[0])
        }
    }
}

impl<'a, T: CoordinateType> vstd::std_specs::iter::IteratorSpecImpl for IterHelper<'a, T> {
    open spec fn obeys_prophetic_iter_laws(&self) -> bool {
        true
    }

    open spec fn remaining(&self) -> Seq<&'a Geometry<T>> {
        self@.map_values(|g: Geometry<T>| &g)
    }

    open spec fn will_return_none(&self) -> bool {
        true
    }

    open spec fn decrease(&self) -> Option<nat> {
        Some(self@.len())
    }

    open spec fn initial_value_relation(&self, init: &Self) -> bool {
        init@ == self@
    }

    open spec fn peek(&self, index: int) -> Option<&'a Geometry<T>> {
        if 0 <= index < self@.len() {
            Some(&self@[index])
        } else {
            None
        }
    }
}

/// A traversal of a collection by mutable reference.
///
/// `rest` is the part of the collection that has yet to be visited. Its
/// current contents are the pending geometries, which are the model of the
/// traversal; its contents once every reference has been given back are what
/// the collection keeps there.
pub struct IterMutHelper<'a, T: CoordinateType> {
    pub rest: &'a mut [Geometry<T>],
}

impl<'a, T: CoordinateType> View for IterMutHelper<'a, T> {
    type V = Seq<Geometry<T>>;

    open spec fn view(&self) -> Seq<Geometry<T>> {
        self.rest@
    }
}

impl<'a, T: CoordinateType> IntoIterator for &'a mut GeometryCollection<T> {
    type Item = &'a mut Geometry<T>;

    type IntoIter = IterMutHelper<'a, T>;

    /// Starts a traversal that borrows the collection mutably.
    fn into_iter(self) -> (it: IterMutHelper<'a, T>)
        ensures
            it@ == old(self)@,
            final(it.rest)@ == final(self)@,
    {
        IterMutHelper { rest: self.0.as_mut_slice() }
    }
}

impl<'a, T: CoordinateType> Iterator for IterMutHelper<'a, T> {
    type Item = &'a mut Geometry<T>;

    /// Hands out a mutable reference to the first pending geometry, if there
    /// is one.
    ///
    /// The geometry that the caller leaves behind the reference takes the
    /// first place of what the collection keeps for the pending part; the
    /// places after it are left to the rest of the traversal.
    fn next(&mut self) -> (item: Option<&'a mut Geometry<T>>)
        ensures
            final(self)@ == after_next(old(self)@),
            match item {
                Some(g) => {
                    &&& next_item(old(self)@) == Some(*g)
                    &&& final(old(self).rest)@ == seq![*final(g)] + final(final(self).rest)@
                },
                None => {
                    &&& next_item(old(self)@) is None
                    &&& *final(self) == *old(self)
                },
            },
    {
        if self.rest.len() == 0 {
            None
        } else {
            let mut pending: &'a mut [Geometry<T>] = &mut [];
            std::mem::swap(&mut self.rest, &mut pending);
            let (head, tail) = pending.split_at_mut(1);
            self.rest = tail;
            head.first_mut()
        }
    }
}

impl<'a, T: CoordinateType> vstd::std_specs::iter::IteratorSpecImpl for IterMutHelper<'a, T> {
    /// The references that this traversal yields are described by `next`
    /// itself, not by a sequence fixed in advance.
    open spec fn obeys_prophetic_iter_laws(&self) -> bool {
        false
    }

    open spec fn remaining(&self) -> Seq<&'a mut Geometry<T>> {
        Seq::empty()
    }

    open spec fn will_return_none(&self) -> bool {
        true
    }

    open spec fn decrease(&self) -> Option<nat> {
        Some(self@.len())
    }

    open spec fn initial_value_relation(&self, init: &Self) -> bool {
        init@ == self@
    }

    open spec fn peek(&self, index: int) -> Option<&'a mut Geometry<T>> {
        None
    }
}

impl<T: CoordinateType> Clone for GeometryCollection<T> {
    /// Copies the collection element by element: the copy has the same
    /// length and holds an identical geometry at every position.
    fn clone(&self) -> (copy: Self)
        ensures
            identical_geometries(self@, copy@),
    {
        GeometryCollection(clone_geometries(&self.0))
    }
}

impl<T: CoordinateType> PartialEq for GeometryCollection<T> {
    /// Compares two collections position by position.
    fn eq(&self, other: &Self) -> (r: bool) {
        are_same_geometries(&self.0, &other.0)
    }
}

impl<T: CoordinateType> vstd::std_specs::cmp::PartialEqSpecImpl for GeometryCollection<T> {
    open spec fn obeys_eq_spec() -> bool {
        T::obeys_eq_spec()
    }

    /// Two collections are equal when they have the same length and the
    /// geometries at every position are equal.
    open spec fn eq_spec(&self, other: &Self) -> bool {
        same_geometries(self@, other@)
    }
}

} // verus!
