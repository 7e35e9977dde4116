//! Laws that relate several operations of a [`GeometryCollection`], stated
//! over the sequences that model the collection and its traversals.
use crate::geometry::Geometry;
use crate::geometry_collection::{after_next, next_item, GeometryCollection};
use crate::shapes::CoordinateType;
use vstd::prelude::*;
use vstd::std_specs::cmp::PartialEqSpec;

verus! {

/// What a traversal that started with `pending` has yet to yield after
/// `calls` calls of `next`.
pub open spec fn pending_after<T: CoordinateType>(
    pending: Seq<Geometry<T>>,
    calls: nat,
) -> Seq<Geometry<T>>
    decreases calls,
{
    if calls == 0 {
        pending
    } else {
        after_next(pending_after(pending, (calls - 1) as nat))
    }
}

/// What a collection holds after the first `count` geometries of `values`
/// have been written to it by index, `values[k]` at position `k`, one
/// after the other.
pub open spec fn after_index_writes<T: CoordinateType>(
    elements: Seq<Geometry<T>>,
    values: Seq<Geometry<T>>,
    count: nat,
) -> Seq<Geometry<T>>
    decreases count,
{
    if count == 0 {
        elements
    } else {
        after_index_writes(elements, values, (count - 1) as nat).update(
            count - 1,
            values[count - 1],
        )
    }
}

/// What a mutable traversal over `pending` leaves in place when the caller
/// assigns `values[k]` through the `k`-th reference that `next` yields and
/// ends the traversal after the last of `values`: each assigned geometry
/// takes the first pending place, and the places that were never visited
/// keep what they held.
pub open spec fn after_assignments<T: CoordinateType>(
    pending: Seq<Geometry<T>>,
    values: Seq<Geometry<T>>,
) -> Seq<Geometry<T>>
    decreases values.len(),
{
    if values.len() == 0 || pending.len() == 0 {
        pending
    } else {
        seq![values[0]] + after_assignments(after_next(pending), values.drop_first())
    }
}

/// Writing a geometry at a valid position makes a read at that position
/// return it, and changes neither the length nor any other position.
pub proof fn lemma_index_write_then_read<T: CoordinateType>(
    gc: GeometryCollection<T>,
    index: int,
    value: Geometry<T>,
)
    requires
        0 <= index < gc@.len(),
    ensures
        gc@.update(index, value)[index] == value,
        gc@.update(index, value).len() == gc@.len(),
        forall|j: int| 0 <= j < gc@.len() && j != index ==> gc@.update(index, value)[j] == gc@[j],
{
}

/// A traversal visits every element once, in insertion order: the call of
/// `next` that follows `calls` earlier ones hands out the element at position
/// `calls`, and every call after as many as there are elements hands out
/// nothing.
pub proof fn lemma_traversal_visits_in_order<T: CoordinateType>(
    elements: Seq<Geometry<T>>,
    calls: nat,
)
    ensures
        calls <= elements.len() ==> pending_after(elements, calls) == elements.skip(calls as int),
        calls < elements.len() ==> next_item(pending_after(elements, calls)) == Some(
            elements[calls as int],
        ),
        calls >= elements.len() ==> next_item(pending_after(elements, calls)) is None,
    decreases calls,
{
    if calls > 0 {
        lemma_traversal_visits_in_order(elements, (calls - 1) as nat);
        if calls <= elements.len() {
            let before = pending_after(elements, (calls - 1) as nat);
            assert(before.drop_first() =~= elements.skip(calls as int));
        }
    }
}

/// Assigning through each reference that a mutable traversal yields has the
/// same effect as writing the same geometries by index at the positions
/// visited.
pub proof fn lemma_assignments_are_index_writes<T: CoordinateType>(
    elements: Seq<Geometry<T>>,
    values: Seq<Geometry<T>>,
)
    requires
        values.len() <= elements.len(),
    ensures
        after_assignments(elements, values) == after_index_writes(elements, values, values.len()),
{
    lemma_after_assignments(elements, values);
    lemma_after_index_writes(elements, values, values.len());
    assert(after_assignments(elements, values) =~= after_index_writes(
        elements,
        values,
        values.len(),
    ));
}

/// Two collections are equal exactly when they have the same length and
/// hold equal geometries at every position.
pub proof fn lemma_equal_iff_elementwise_equal<T: CoordinateType>(
    a: GeometryCollection<T>,
    b: GeometryCollection<T>,
)
    ensures
        PartialEqSpec::eq_spec(&a, &b) <==> a@.len() == b@.len() && forall|i: int|
            0 <= i < a@.len() ==> PartialEqSpec::eq_spec(#[trigger] &a@[i], &b@[i]),
{
}

/// Two collections that hold unequal geometries at some position are not
/// equal, whatever they hold elsewhere: the same geometries in another order
/// make another collection.
pub proof fn lemma_unequal_at_a_position<T: CoordinateType>(
    a: GeometryCollection<T>,
    b: GeometryCollection<T>,
    index: int,
)
    requires
        0 <= index < a@.len(),
        index < b@.len(),
        !PartialEqSpec::eq_spec(&a@[index], &b@[index]),
    ensures
        !PartialEqSpec::eq_spec(&a, &b),
{
}

/// Position by position, what `after_assignments` yields.
proof fn lemma_after_assignments<T: CoordinateType>(
    pending: Seq<Geometry<T>>,
    values: Seq<Geometry<T>>,
)
    requires
        values.len() <= pending.len(),
    ensures
        after_assignments(pending, values).len() == pending.len(),
        forall|i: int|
            0 <= i < values.len() ==> #[trigger] after_assignments(pending, values)[i]
                == values[i],
        forall|i: int|
            values.len() <= i < pending.len() ==> #[trigger] after_assignments(pending, values)[i]
                == pending[i],
    decreases values.len(),
{
    if values.len() > 0 {
        lemma_after_assignments(after_next(pending), values.drop_first());
    }
}

/// Position by position, what `after_index_writes` yields.
proof fn lemma_after_index_writes<T: CoordinateType>(
    elements: Seq<Geometry<T>>,
    values: Seq<Geometry<T>>,
    count: nat,
)
    requires
        count <= values.len() <= elements.len(),
    ensures
        after_index_writes(elements, values, count).len() == elements.len(),
        forall|i: int|
            0 <= i < count ==> #[trigger] after_index_writes(elements, values, count)[i]
                == values[i],
        forall|i: int|
            count <= i < elements.len() ==> #[trigger] after_index_writes(
                elements,
                values,
                count,
            )[i] == elements[i],
    decreases count,
{
    if count > 0 {
        lemma_after_index_writes(elements, values, (count - 1) as nat);
    }
}

} // verus!
