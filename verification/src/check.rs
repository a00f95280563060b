//! The validation of an unchecked tree: the numeric constraints of every node.
//!
//! A node is at fault where the least and the greatest number of items of an
//! array leave no count between them, where the bounds of a number or of an
//! integer leave no value between them, where a bound of a number is not a
//! number, or where the step of a number is not positive. A tree is valid
//! where no node of it is at fault.
//!
//! A check reports the first fault that it meets. The kind of a schema and
//! what lies below it come before the members of its union, and the members
//! come in their order; below a kind, the schemas are taken from the end of
//! a work list, as [`walk`] says.

use vstd::prelude::*;
use crate::data_schema::{PartialDataSchema, UncheckedDataSchema};
use crate::error::Error;
use crate::number::{Comparison, Double};
use crate::ordered_map::OrderedMap;
use crate::thing::{
    BoxedElemOrVec, IntegerSchema, Maximum, Minimum, NumberSchema, UncheckedArraySchema,
    UncheckedDataSchemaSubtype,
};

verus! {

/// Whether a least and a greatest count are both given and the least is the
/// greater.
pub open spec fn counts_exclude_all(min: Option<u32>, max: Option<u32>) -> bool {
    min is Some && max is Some && min.unwrap() > max.unwrap()
}

/// Whether a lower and an upper bound of integers are both given and leave no
/// value between them: the lower is the greater, or both are the same number
/// and one of them is not to be reached.
pub open spec fn integer_bounds_exclude_all(
    min: Option<Minimum<i64>>,
    max: Option<Maximum<i64>>,
) -> bool {
    min is Some && max is Some && {
        let low = min.unwrap();
        let high = max.unwrap();
        low.value() > high.value() || (low.value() == high.value() && (low.exclusive()
            || high.exclusive()))
    }
}

/// Whether a lower and an upper bound of numbers are both given and leave no
/// value between them: they do not compare, the lower is the greater, or both
/// are the same number and one of them is not to be reached.
pub open spec fn number_bounds_exclude_all(
    min: Option<Minimum<Double>>,
    max: Option<Maximum<Double>>,
) -> bool {
    min is Some && max is Some && {
        let low = min.unwrap();
        let high = max.unwrap();
        match low.value().compare_spec(high.value()) {
            None => true,
            Some(Comparison::Greater) => true,
            Some(Comparison::Equal) => low.exclusive() || high.exclusive(),
            Some(Comparison::Less) => false,
        }
    }
}

impl NumberSchema {
    /// What is wrong with the constraints of the number, if anything: a bound
    /// that is not a number comes first, then bounds that leave no value,
    /// then a step that is not positive.
    pub open spec fn fault(self) -> Option<Error> {
        if self.minimum is Some && self.minimum.unwrap().value().nan() {
            Some(Error::NanMinMax)
        } else if self.maximum is Some && self.maximum.unwrap().value().nan() {
            Some(Error::NanMinMax)
        } else if number_bounds_exclude_all(self.minimum, self.maximum) {
            Some(Error::InvalidMinMax)
        } else if self.multiple_of is Some && self.multiple_of.unwrap().at_most_zero() {
            Some(Error::InvalidMultipleOf)
        } else {
            None
        }
    }

    /// Checks the constraints of the number.
    pub fn check(&self) -> (r: Result<(), Error>)
        ensures
            r == match self.fault() {
                Some(e) => Err::<(), Error>(e),
                None => Ok::<(), Error>(()),
            },
    {
        let low: Option<Double> = match &self.minimum {
            Some(Minimum::Inclusive(v)) => Some(*v),
            Some(Minimum::Exclusive(v)) => Some(*v),
            None => None,
        };
        let high: Option<Double> = match &self.maximum {
            Some(Maximum::Inclusive(v)) => Some(*v),
            Some(Maximum::Exclusive(v)) => Some(*v),
            None => None,
        };
        if let Some(v) = &low {
            if v.is_nan() {
                return Err(Error::NanMinMax);
            }
        }
        if let Some(v) = &high {
            if v.is_nan() {
                return Err(Error::NanMinMax);
            }
        }
        if let (Some(a), Some(b)) = (&low, &high) {
            let strict = matches!(&self.minimum, Some(Minimum::Exclusive(_))) || matches!(
                &self.maximum,
                Some(Maximum::Exclusive(_))
            );
            match a.compare(b) {
                None => {
                    return Err(Error::InvalidMinMax);
                },
                Some(Comparison::Greater) => {
                    return Err(Error::InvalidMinMax);
                },
                Some(Comparison::Equal) => {
                    if strict {
                        return Err(Error::InvalidMinMax);
                    }
                },
                Some(Comparison::Less) => {},
            }
        }
        if let Some(step) = &self.multiple_of {
            if step.is_at_most_zero() {
                return Err(Error::InvalidMultipleOf);
            }
        }
        Ok(())
    }
}

impl IntegerSchema {
    /// What is wrong with the constraints of the integer, if anything.
    pub open spec fn fault(self) -> Option<Error> {
        if integer_bounds_exclude_all(self.minimum, self.maximum) {
            Some(Error::InvalidMinMax)
        } else {
            None
        }
    }

    /// Checks the constraints of the integer.
    pub fn check(&self) -> (r: Result<(), Error>)
        ensures
            r == match self.fault() {
                Some(e) => Err::<(), Error>(e),
                None => Ok::<(), Error>(()),
            },
    {
        let low: Option<(i64, bool)> = match &self.minimum {
            Some(Minimum::Inclusive(v)) => Some((*v, false)),
            Some(Minimum::Exclusive(v)) => Some((*v, true)),
            None => None,
        };
        let high: Option<(i64, bool)> = match &self.maximum {
            Some(Maximum::Inclusive(v)) => Some((*v, false)),
            Some(Maximum::Exclusive(v)) => Some((*v, true)),
            None => None,
        };
        if let (Some(a), Some(b)) = (low, high) {
            if a.0 > b.0 || (a.0 == b.0 && (a.1 || b.1)) {
                return Err(Error::InvalidMinMax);
            }
        }
        Ok(())
    }
}

impl<DS, AS, OS> UncheckedArraySchema<DS, AS, OS> {
    /// What is wrong with the counts of the array, if anything.
    pub open spec fn fault(self) -> Option<Error> {
        if counts_exclude_all(self.min_items, self.max_items) {
            Some(Error::InvalidMinMax)
        } else {
            None
        }
    }

    /// Checks the counts of the array; the items have their own checks.
    pub fn check_counts(&self) -> (r: Result<(), Error>)
        ensures
            r == match self.fault() {
                Some(e) => Err::<(), Error>(e),
                None => Ok::<(), Error>(()),
            },
    {
        if let (Some(min), Some(max)) = (self.min_items, self.max_items) {
            if min > max {
                return Err(Error::InvalidMinMax);
            }
        }
        Ok(())
    }
}

/// What is wrong with the constraints of a node's own kind, if anything. The
/// schemas below the node are not looked at.
pub open spec fn own_fault<DS, AS, OS>(
    subtype: Option<UncheckedDataSchemaSubtype<DS, AS, OS>>,
) -> Option<Error> {
    match subtype {
        Some(UncheckedDataSchemaSubtype::Array(array)) => array.fault(),
        Some(UncheckedDataSchemaSubtype::Number(number)) => number.fault(),
        Some(UncheckedDataSchemaSubtype::Integer(integer)) => integer.fault(),
        _ => None,
    }
}

/// Whether the node of kind `subtype`, or a node below it, has the fault `e`.
pub open spec fn subtype_has_fault<DS, AS, OS>(
    subtype: Option<UncheckedDataSchemaSubtype<DS, AS, OS>>,
    e: Error,
) -> bool
    decreases subtype,
{
    own_fault(subtype) == Some(e) || match subtype {
        Some(UncheckedDataSchemaSubtype::Array(array)) => match array.items {
            Some(BoxedElemOrVec::Elem(item)) => schema_has_fault(*item, e),
            Some(BoxedElemOrVec::Vec(items)) => exists|i: int|
                0 <= i < items@.len() && schema_has_fault(#[trigger] items@[i], e),
            None => false,
        },
        Some(UncheckedDataSchemaSubtype::Object(object)) => match object.properties {
            Some(map) => exists|i: int|
                0 <= i < map.entries@.len() && schema_has_fault(
                    (#[trigger] map.entries@[i]).1,
                    e,
                ),
            None => false,
        },
        _ => false,
    }
}

/// Whether the schema, or a schema below it, has the fault `e`: in its own
/// kind, among the items of an array, the properties of an object or the
/// members of a union.
pub open spec fn schema_has_fault<DS, AS, OS>(schema: UncheckedDataSchema<DS, AS, OS>, e: Error) -> bool
    decreases schema,
{
    subtype_has_fault(schema.subtype, e) || match schema.one_of {
        Some(members) => exists|i: int|
            0 <= i < members@.len() && schema_has_fault(#[trigger] members@[i], e),
        None => false,
    }
}

/// Whether one of the schemas has the fault `e`, in itself or below.
pub open spec fn any_has_fault<DS, AS, OS>(
    schemas: Seq<UncheckedDataSchema<DS, AS, OS>>,
    e: Error,
) -> bool {
    exists|i: int| 0 <= i < schemas.len() && schema_has_fault(#[trigger] schemas[i], e)
}

/// Whether the tree of the schema is valid: no node of it has a fault.
pub open spec fn schema_is_valid<DS, AS, OS>(schema: UncheckedDataSchema<DS, AS, OS>) -> bool {
    forall|e: Error| !schema_has_fault(schema, e)
}

/// Whether the node of kind `subtype` and the schemas below it are valid.
pub open spec fn subtype_is_valid<DS, AS, OS>(
    subtype: Option<UncheckedDataSchemaSubtype<DS, AS, OS>>,
) -> bool {
    forall|e: Error| !subtype_has_fault(subtype, e)
}

/// The number of schemas below a node of kind `subtype`.
pub closed spec fn subtype_count<DS, AS, OS>(subtype: Option<UncheckedDataSchemaSubtype<DS, AS, OS>>) -> nat
    decreases subtype, 0int,
{
    match subtype {
        Some(UncheckedDataSchemaSubtype::Array(array)) => match array.items {
            Some(BoxedElemOrVec::Elem(item)) => schema_count(*item),
            Some(BoxedElemOrVec::Vec(items)) => schemas_count(items@, items@.len() as int),
            None => 0,
        },
        Some(UncheckedDataSchemaSubtype::Object(object)) => match object.properties {
            Some(map) => entries_count(map.entries@, map.entries@.len() as int),
            None => 0,
        },
        _ => 0,
    }
}

/// The number of schemas of a tree, its root included.
pub closed spec fn schema_count<DS, AS, OS>(schema: UncheckedDataSchema<DS, AS, OS>) -> nat
    decreases schema, 0int,
{
    1 + subtype_count(schema.subtype) + match schema.one_of {
        Some(members) => schemas_count(members@, members@.len() as int),
        None => 0,
    }
}

/// The number of schemas of the trees of the first `n` of `schemas`.
pub closed spec fn schemas_count<DS, AS, OS>(schemas: Seq<UncheckedDataSchema<DS, AS, OS>>, n: int) -> nat
    decreases schemas, n,
{
    if n <= 0 || n > schemas.len() {
        0
    } else {
        schemas_count(schemas, n - 1) + schema_count(schemas[n - 1])
    }
}

/// The number of schemas of the trees of the first `n` of `entries`.
pub closed spec fn entries_count<DS, AS, OS>(
    entries: Seq<(String, UncheckedDataSchema<DS, AS, OS>)>,
    n: int,
) -> nat
    decreases entries, n,
{
    if n <= 0 || n > entries.len() {
        0
    } else {
        entries_count(entries, n - 1) + schema_count(entries[n - 1].1)
    }
}

/// The schemas of the properties, in their order.
pub open spec fn property_schemas<DS, AS, OS>(
    entries: Seq<(String, UncheckedDataSchema<DS, AS, OS>)>,
) -> Seq<UncheckedDataSchema<DS, AS, OS>> {
    Seq::new(entries.len(), |i: int| entries[i].1)
}

/// The schemas directly below a node of kind `subtype`, in their order: the
/// items of an array or the schemas of the properties of an object.
pub open spec fn schemas_below<DS, AS, OS>(
    subtype: Option<UncheckedDataSchemaSubtype<DS, AS, OS>>,
) -> Seq<UncheckedDataSchema<DS, AS, OS>> {
    match subtype {
        Some(UncheckedDataSchemaSubtype::Array(array)) => match array.items {
            Some(BoxedElemOrVec::Elem(item)) => seq![*item],
            Some(BoxedElemOrVec::Vec(items)) => items@,
            None => Seq::empty(),
        },
        Some(UncheckedDataSchemaSubtype::Object(object)) => match object.properties {
            Some(map) => property_schemas(map.entries@),
            None => Seq::empty(),
        },
        _ => Seq::empty(),
    }
}

/// The members of the union of a schema, in their order.
pub open spec fn members_of<DS, AS, OS>(schema: UncheckedDataSchema<DS, AS, OS>) -> Seq<
    UncheckedDataSchema<DS, AS, OS>,
> {
    match schema.one_of {
        Some(members) => members@,
        None => Seq::empty(),
    }
}

/// The number of schemas that a walk has before it: those below the node at
/// hand and those of the trees that wait.
pub closed spec fn walk_measure<DS, AS, OS>(
    current: Option<UncheckedDataSchemaSubtype<DS, AS, OS>>,
    waiting: Seq<UncheckedDataSchema<DS, AS, OS>>,
) -> nat {
    subtype_count(current) + schemas_count(waiting, waiting.len() as int)
}

/// The fault that the walk reports, from a node of kind `current` at hand
/// and the schemas `waiting` on the work list; nothing where it meets none.
///
/// The node at hand is looked at first. Then the schemas below it join the
/// work list at its end, and the walk goes on with the last schema of the
/// list: the members of its union join the list and its kind is at hand.
pub open spec fn walk<DS, AS, OS>(
    current: Option<UncheckedDataSchemaSubtype<DS, AS, OS>>,
    waiting: Seq<UncheckedDataSchema<DS, AS, OS>>,
) -> Option<Error>
    decreases walk_measure(current, waiting),
    via walk_decreases::<DS, AS, OS>
{
    if own_fault(current) is Some {
        own_fault(current)
    } else {
        let list = waiting + schemas_below(current);
        if list.len() == 0 {
            None
        } else {
            walk(list.last().subtype, list.drop_last() + members_of(list.last()))
        }
    }
}

/// The count of the first `n` schemas is that of any schemas with the same
/// first `n`.
proof fn count_of_same_prefix<DS, AS, OS>(
    a: Seq<UncheckedDataSchema<DS, AS, OS>>,
    b: Seq<UncheckedDataSchema<DS, AS, OS>>,
    n: int,
)
    requires
        0 <= n <= a.len(),
        n <= b.len(),
        forall|i: int| 0 <= i < n ==> a[i] == b[i],
    ensures
        schemas_count(a, n) == schemas_count(b, n),
    decreases n,
{
    if n > 0 {
        count_of_same_prefix(a, b, n - 1);
    }
}

/// The count of two lists, one after the other, is the sum of their counts.
proof fn count_of_both<DS, AS, OS>(
    a: Seq<UncheckedDataSchema<DS, AS, OS>>,
    b: Seq<UncheckedDataSchema<DS, AS, OS>>,
)
    ensures
        schemas_count(a + b, (a + b).len() as int) == schemas_count(a, a.len() as int)
            + schemas_count(b, b.len() as int),
    decreases b.len(),
{
    let both = a + b;
    if b.len() == 0 {
        assert(both =~= a);
    } else {
        let shorter = a + b.drop_last();
        count_of_both(a, b.drop_last());
        count_of_same_prefix(both, shorter, both.len() - 1);
        count_of_same_prefix(b, b.drop_last(), b.len() - 1);
        assert(both[both.len() - 1] == b[b.len() - 1]);
    }
}

/// The count of the schemas of the properties is the count of the entries.
proof fn count_of_properties<DS, AS, OS>(
    entries: Seq<(String, UncheckedDataSchema<DS, AS, OS>)>,
    n: int,
)
    requires
        0 <= n <= entries.len(),
    ensures
        schemas_count(property_schemas(entries), n) == entries_count(entries, n),
    decreases n,
{
    if n > 0 {
        count_of_properties(entries, n - 1);
    }
}

/// The count of the schemas below a node is the count of the node.
proof fn count_of_schemas_below<DS, AS, OS>(
    subtype: Option<UncheckedDataSchemaSubtype<DS, AS, OS>>,
)
    ensures
        schemas_count(schemas_below(subtype), schemas_below(subtype).len() as int)
            == subtype_count(subtype),
{
    match subtype {
        Some(UncheckedDataSchemaSubtype::Array(array)) => {
            match array.items {
                Some(BoxedElemOrVec::Elem(item)) => {
                    let one = seq![*item];
                    assert(schemas_count(one, 0) == 0);
                    assert(one[0] == *item);
                },
                _ => {},
            }
        },
        Some(UncheckedDataSchemaSubtype::Object(object)) => {
            match object.properties {
                Some(map) => {
                    count_of_properties(map.entries@, map.entries@.len() as int);
                },
                None => {},
            }
        },
        _ => {},
    }
}

/// A step of the walk leaves fewer schemas before it.
proof fn walk_step_decreases<DS, AS, OS>(
    current: Option<UncheckedDataSchemaSubtype<DS, AS, OS>>,
    waiting: Seq<UncheckedDataSchema<DS, AS, OS>>,
)
    requires
        (waiting + schemas_below(current)).len() > 0,
    ensures
        ({
            let list = waiting + schemas_below(current);
            walk_measure(list.last().subtype, list.drop_last() + members_of(list.last()))
                < walk_measure(current, waiting)
        }),
{
    let list = waiting + schemas_below(current);
    let next = list.last();
    count_of_both(waiting, schemas_below(current));
    count_of_schemas_below(current);
    count_of_both(list.drop_last(), members_of(next));
    count_of_same_prefix(list, list.drop_last(), list.len() - 1);
    assert(schemas_count(list, list.len() as int) == schemas_count(list, list.len() - 1)
        + schema_count(next));
    assert(schema_count(next) == 1 + subtype_count(next.subtype) + schemas_count(
        members_of(next),
        members_of(next).len() as int,
    ));
}

#[via_fn]
proof fn walk_decreases<DS, AS, OS>(
    current: Option<UncheckedDataSchemaSubtype<DS, AS, OS>>,
    waiting: Seq<UncheckedDataSchema<DS, AS, OS>>,
) {
    if own_fault(current) is None && (waiting + schemas_below(current)).len() > 0 {
        walk_step_decreases(current, waiting);
    }
}

/// A fault of a node is the fault of its own kind or a fault of a schema
/// below it.
pub proof fn fault_of_node<DS, AS, OS>(
    subtype: Option<UncheckedDataSchemaSubtype<DS, AS, OS>>,
    e: Error,
)
    ensures
        subtype_has_fault(subtype, e) <==> (own_fault(subtype) == Some(e) || any_has_fault(
            schemas_below(subtype),
            e,
        )),
{
    let below = schemas_below(subtype);
    match subtype {
        Some(UncheckedDataSchemaSubtype::Array(array)) => {
            match array.items {
                Some(BoxedElemOrVec::Elem(item)) => {
                    assert(below[0] == *item);
                    if any_has_fault(below, e) {
                        let i = choose|i: int|
                            0 <= i < below.len() && schema_has_fault(#[trigger] below[i], e);
                        assert(below[i] == *item);
                    }
                },
                _ => {},
            }
        },
        Some(UncheckedDataSchemaSubtype::Object(object)) => {
            match object.properties {
                Some(map) => {
                    let entries = map.entries@;
                    if any_has_fault(below, e) {
                        let i = choose|i: int|
                            0 <= i < below.len() && schema_has_fault(#[trigger] below[i], e);
                        assert(schema_has_fault(entries[i].1, e));
                    }
                    if exists|i: int|
                        0 <= i < entries.len() && schema_has_fault((#[trigger] entries[i]).1, e) {
                        let i = choose|i: int|
                            0 <= i < entries.len() && schema_has_fault(
                                (#[trigger] entries[i]).1,
                                e,
                            );
                        assert(schema_has_fault(below[i], e));
                    }
                },
                None => {},
            }
        },
        _ => {},
    }
}

/// A fault of a schema is a fault of its kind or of a member of its union.
pub proof fn fault_of_schema<DS, AS, OS>(schema: UncheckedDataSchema<DS, AS, OS>, e: Error)
    ensures
        schema_has_fault(schema, e) <==> (subtype_has_fault(schema.subtype, e) || any_has_fault(
            members_of(schema),
            e,
        )),
{
}

/// A fault among two lists, one after the other, is a fault in one of them.
proof fn fault_among_both<DS, AS, OS>(
    a: Seq<UncheckedDataSchema<DS, AS, OS>>,
    b: Seq<UncheckedDataSchema<DS, AS, OS>>,
    e: Error,
)
    ensures
        any_has_fault(a + b, e) <==> (any_has_fault(a, e) || any_has_fault(b, e)),
{
    let both = a + b;
    if any_has_fault(both, e) {
        let i = choose|i: int| 0 <= i < both.len() && schema_has_fault(#[trigger] both[i], e);
        if i < a.len() {
            assert(schema_has_fault(a[i], e));
        } else {
            assert(schema_has_fault(b[i - a.len()], e));
        }
    }
    if any_has_fault(a, e) {
        let i = choose|i: int| 0 <= i < a.len() && schema_has_fault(#[trigger] a[i], e);
        assert(schema_has_fault(both[i], e));
    }
    if any_has_fault(b, e) {
        let i = choose|i: int| 0 <= i < b.len() && schema_has_fault(#[trigger] b[i], e);
        assert(schema_has_fault(both[a.len() + i], e));
    }
}

/// A fault in a list is a fault of its last schema or of one before it.
proof fn fault_among_all_but_last<DS, AS, OS>(
    list: Seq<UncheckedDataSchema<DS, AS, OS>>,
    e: Error,
)
    requires
        list.len() > 0,
    ensures
        any_has_fault(list, e) <==> (any_has_fault(list.drop_last(), e) || schema_has_fault(
            list.last(),
            e,
        )),
{
    let front = list.drop_last();
    assert(list =~= front + seq![list.last()]);
    fault_among_both(front, seq![list.last()], e);
    let one = seq![list.last()];
    assert(one[0] == list.last());
    if any_has_fault(one, e) {
        let i = choose|i: int| 0 <= i < one.len() && schema_has_fault(#[trigger] one[i], e);
        assert(one[i] == list.last());
    }
}

/// What the faults of a node at hand and of the schemas that wait come to
/// after a step of the walk.
proof fn fault_after_step<DS, AS, OS>(
    current: Option<UncheckedDataSchemaSubtype<DS, AS, OS>>,
    waiting: Seq<UncheckedDataSchema<DS, AS, OS>>,
    e: Error,
)
    requires
        own_fault(current) is None,
        (waiting + schemas_below(current)).len() > 0,
    ensures
        ({
            let list = waiting + schemas_below(current);
            (subtype_has_fault(list.last().subtype, e) || any_has_fault(
                list.drop_last() + members_of(list.last()),
                e,
            )) <==> (subtype_has_fault(current, e) || any_has_fault(waiting, e))
        }),
{
    let list = waiting + schemas_below(current);
    let next = list.last();
    fault_of_node(current, e);
    fault_among_both(waiting, schemas_below(current), e);
    fault_among_all_but_last(list, e);
    fault_of_schema(next, e);
    fault_among_both(list.drop_last(), members_of(next), e);
}

/// The walk reports a fault of the node at hand or of a schema that waits,
/// and it reports nothing only where none of them has a fault.
pub proof fn walk_reports_a_fault<DS, AS, OS>(
    current: Option<UncheckedDataSchemaSubtype<DS, AS, OS>>,
    waiting: Seq<UncheckedDataSchema<DS, AS, OS>>,
)
    ensures
        match walk(current, waiting) {
            Some(e) => subtype_has_fault(current, e) || any_has_fault(waiting, e),
            None => (forall|e: Error| !subtype_has_fault(current, e)) && (forall|e: Error|
                !any_has_fault(waiting, e)),
        },
    decreases walk_measure(current, waiting),
{
    let list = waiting + schemas_below(current);
    if own_fault(current) is Some {
        assert(subtype_has_fault(current, own_fault(current).unwrap()));
    } else if list.len() == 0 {
        assert(walk(current, waiting) is None);
        assert forall|e: Error| !subtype_has_fault(current, e) by {
            fault_of_node(current, e);
            fault_among_both(waiting, schemas_below(current), e);
        }
        assert forall|e: Error| !any_has_fault(waiting, e) by {
            fault_among_both(waiting, schemas_below(current), e);
        }
    } else {
        let next = list.last();
        let rest = list.drop_last() + members_of(next);
        walk_step_decreases(current, waiting);
        walk_reports_a_fault(next.subtype, rest);
        assert(walk(current, waiting) == walk(next.subtype, rest));
        match walk(next.subtype, rest) {
            Some(e) => {
                fault_after_step(current, waiting, e);
            },
            None => {
                assert forall|e: Error| !subtype_has_fault(current, e) by {
                    fault_after_step(current, waiting, e);
                }
                assert forall|e: Error| !any_has_fault(waiting, e) by {
                    fault_after_step(current, waiting, e);
                }
            },
        }
    }
}

/// The fault that the check of a node of kind `subtype` reports.
pub open spec fn subtype_report<DS, AS, OS>(
    subtype: Option<UncheckedDataSchemaSubtype<DS, AS, OS>>,
) -> Option<Error> {
    walk(subtype, Seq::empty())
}

/// The fault that the check of a schema reports: that of its kind, where
/// the check of the kind reports one, else that of the first member of its
/// union whose check reports one.
pub open spec fn schema_report<DS, AS, OS>(schema: UncheckedDataSchema<DS, AS, OS>) -> Option<
    Error,
>
    decreases schema, 0int,
{
    if subtype_report(schema.subtype) is Some {
        subtype_report(schema.subtype)
    } else {
        match schema.one_of {
            Some(members) => members_report(members@, members@.len() as int),
            None => None,
        }
    }
}

/// The fault that the check of the first `n` members of a union reports:
/// that of the first member whose check reports one.
pub open spec fn members_report<DS, AS, OS>(
    members: Seq<UncheckedDataSchema<DS, AS, OS>>,
    n: int,
) -> Option<Error>
    decreases members, n,
{
    if n <= 0 || n > members.len() {
        None
    } else if members_report(members, n - 1) is Some {
        members_report(members, n - 1)
    } else {
        schema_report(members[n - 1])
    }
}

/// The fault that the check of a partial schema reports: as for a schema.
pub open spec fn partial_report<DS, AS, OS>(schema: PartialDataSchema<DS, AS, OS>) -> Option<
    Error,
> {
    if subtype_report(schema.subtype) is Some {
        subtype_report(schema.subtype)
    } else {
        match schema.one_of {
            Some(members) => members_report(members@, members@.len() as int),
            None => None,
        }
    }
}

/// Whether `e` is a fault of the first of `members` that is not valid.
pub open spec fn is_fault_of_first_invalid<DS, AS, OS>(
    members: Seq<UncheckedDataSchema<DS, AS, OS>>,
    e: Error,
) -> bool {
    exists|k: int|
        0 <= k < members.len() && #[trigger] schema_report(members[k]) == Some(e)
            && schema_has_fault(members[k], e) && forall|j: int|
            0 <= j < k ==> schema_is_valid(#[trigger] members[j])
}

/// The outcome of a check that reports `fault`.
pub open spec fn outcome(fault: Option<Error>) -> Result<(), Error> {
    match fault {
        Some(e) => Err(e),
        None => Ok(()),
    }
}

/// A fault that is reported among some members is the one reported among
/// more of them.
proof fn first_report_stays<DS, AS, OS>(
    members: Seq<UncheckedDataSchema<DS, AS, OS>>,
    n: int,
    m: int,
)
    requires
        0 <= n <= m <= members.len(),
        members_report(members, n) is Some,
    ensures
        members_report(members, m) == members_report(members, n),
    decreases m,
{
    if n < m {
        first_report_stays(members, n, m - 1);
    }
}

/// The schemas to which the work list refers, in their order.
spec fn waiting_schemas<DS, AS, OS>(pending: Seq<&UncheckedDataSchema<DS, AS, OS>>) -> Seq<
    UncheckedDataSchema<DS, AS, OS>,
> {
    Seq::new(pending.len(), |i: int| *pending[i])
}

/// Puts one schema on the work list.
fn push_one<'a, DS, AS, OS>(
    pending: &mut Vec<&'a UncheckedDataSchema<DS, AS, OS>>,
    schema: &'a UncheckedDataSchema<DS, AS, OS>,
)
    ensures
        final(pending)@ == old(pending)@.push(schema),
        waiting_schemas(final(pending)@) == waiting_schemas(old(pending)@).push(*schema),
{
    pending.push(schema);
    assert(waiting_schemas(pending@) =~= waiting_schemas(old(pending)@).push(*schema));
}

/// Puts every one of `schemas` on the work list, in their order.
fn push_all<'a, DS, AS, OS>(
    pending: &mut Vec<&'a UncheckedDataSchema<DS, AS, OS>>,
    schemas: &'a Vec<UncheckedDataSchema<DS, AS, OS>>,
)
    ensures
        waiting_schemas(final(pending)@) == waiting_schemas(old(pending)@) + schemas@,
{
    let mut i: usize = 0;
    assert(waiting_schemas(pending@) =~= waiting_schemas(old(pending)@) + schemas@.take(0));
    while i < schemas.len()
        invariant
            i <= schemas.len(),
            waiting_schemas(pending@) == waiting_schemas(old(pending)@) + schemas@.take(i as int),
        decreases schemas.len() - i,
    {
        push_one(pending, &schemas[i]);
        assert(schemas@.take(i + 1) =~= schemas@.take(i as int).push(schemas@[i as int]));
        assert(waiting_schemas(pending@) =~= waiting_schemas(old(pending)@) + schemas@.take(
            i + 1,
        ));
        i = i + 1;
    }
    assert(schemas@.take(schemas@.len() as int) =~= schemas@);
}

/// Puts the schema of every property on the work list, in their order.
fn push_properties<'a, DS, AS, OS>(
    pending: &mut Vec<&'a UncheckedDataSchema<DS, AS, OS>>,
    entries: &'a Vec<(String, UncheckedDataSchema<DS, AS, OS>)>,
)
    ensures
        waiting_schemas(final(pending)@) == waiting_schemas(old(pending)@) + property_schemas(
            entries@,
        ),
{
    let ghost all = property_schemas(entries@);
    let mut i: usize = 0;
    assert(waiting_schemas(pending@) =~= waiting_schemas(old(pending)@) + all.take(0));
    while i < entries.len()
        invariant
            i <= entries.len(),
            all == property_schemas(entries@),
            waiting_schemas(pending@) == waiting_schemas(old(pending)@) + all.take(i as int),
        decreases entries.len() - i,
    {
        push_one(pending, &entries[i].1);
        assert(all.take(i + 1) =~= all.take(i as int).push(entries@[i as int].1));
        assert(waiting_schemas(pending@) =~= waiting_schemas(old(pending)@) + all.take(i + 1));
        i = i + 1;
    }
    assert(all.take(all.len() as int) =~= all);
}

/// Validates a node of kind `subtype` and every schema below it.
///
/// The schemas wait on a work list and are taken from its end, so that the
/// depth of a tree costs no depth of calls. The check stops at the first
/// fault that it meets; where a tree has several, the order of the work
/// list decides which one that is.
pub fn check_data_schema_subtype<DS, AS, OS>(
    subtype: &Option<UncheckedDataSchemaSubtype<DS, AS, OS>>,
) -> (r: Result<(), Error>)
    ensures
        r == outcome(subtype_report(*subtype)),
        match r {
            Ok(()) => subtype_is_valid(*subtype),
            Err(e) => subtype_has_fault(*subtype, e),
        },
{
    proof {
        walk_reports_a_fault(*subtype, Seq::empty());
        assert(forall|e: Error|
            !any_has_fault(Seq::<UncheckedDataSchema<DS, AS, OS>>::empty(), e));
    }
    let mut current = subtype;
    let mut pending: Vec<&UncheckedDataSchema<DS, AS, OS>> = Vec::new();
    assert(waiting_schemas(pending@) =~= Seq::empty());
    loop
        invariant
            subtype_report(*subtype) == walk(*current, waiting_schemas(pending@)),
            match subtype_report(*subtype) {
                Some(e) => subtype_has_fault(*subtype, e),
                None => subtype_is_valid(*subtype),
            },
        decreases walk_measure(*current, waiting_schemas(pending@)),
    {
        let ghost before = waiting_schemas(pending@);
        match current {
            Some(UncheckedDataSchemaSubtype::Array(array)) => {
                match array.check_counts() {
                    Err(e) => {
                        return Err(e);
                    },
                    Ok(()) => {},
                }
                match &array.items {
                    Some(BoxedElemOrVec::Elem(item)) => {
                        push_one(&mut pending, &**item);
                        assert(waiting_schemas(pending@) =~= before + schemas_below(*current));
                    },
                    Some(BoxedElemOrVec::Vec(items)) => {
                        push_all(&mut pending, items);
                    },
                    None => {
                        assert(waiting_schemas(pending@) =~= before + schemas_below(*current));
                    },
                }
            },
            Some(UncheckedDataSchemaSubtype::Number(number)) => {
                match number.check() {
                    Err(e) => {
                        return Err(e);
                    },
                    Ok(()) => {},
                }
                assert(waiting_schemas(pending@) =~= before + schemas_below(*current));
            },
            Some(UncheckedDataSchemaSubtype::Integer(integer)) => {
                match integer.check() {
                    Err(e) => {
                        return Err(e);
                    },
                    Ok(()) => {},
                }
                assert(waiting_schemas(pending@) =~= before + schemas_below(*current));
            },
            Some(UncheckedDataSchemaSubtype::Object(object)) => {
                match &object.properties {
                    Some(map) => {
                        push_properties(&mut pending, &map.entries);
                    },
                    None => {
                        assert(waiting_schemas(pending@) =~= before + schemas_below(*current));
                    },
                }
            },
            _ => {
                assert(waiting_schemas(pending@) =~= before + schemas_below(*current));
            },
        }
        let ghost list = waiting_schemas(pending@);
        assert(own_fault(*current) is None);
        assert(list == before + schemas_below(*current));
        match pending.pop() {
            Some(schema) => {
                proof {
                    walk_step_decreases(*current, before);
                    assert(*schema == list.last());
                    assert(waiting_schemas(pending@) =~= list.drop_last());
                }
                match &schema.one_of {
                    Some(members) => {
                        push_all(&mut pending, members);
                    },
                    None => {
                        assert(waiting_schemas(pending@) =~= list.drop_last() + members_of(
                            *schema,
                        ));
                    },
                }
                current = &schema.subtype;
            },
            None => {
                assert(list.len() == 0);
                return Ok(());
            },
        }
    }
}

/// Whether the partial schema, or a schema below it, has the fault `e`.
pub open spec fn partial_has_fault<DS, AS, OS>(schema: PartialDataSchema<DS, AS, OS>, e: Error) -> bool {
    subtype_has_fault(schema.subtype, e) || match schema.one_of {
        Some(members) => any_has_fault(members@, e),
        None => false,
    }
}

/// Whether the tree of the partial schema is valid: no node of it has a fault.
pub open spec fn partial_is_valid<DS, AS, OS>(schema: PartialDataSchema<DS, AS, OS>) -> bool {
    forall|e: Error| !partial_has_fault(schema, e)
}

/// The tree of each of the first `n` schemas is no larger than all of them together.
proof fn count_of_member<DS, AS, OS>(
    schemas: Seq<UncheckedDataSchema<DS, AS, OS>>,
    n: int,
    i: int,
)
    requires
        0 <= i < n <= schemas.len(),
    ensures
        schema_count(schemas[i]) <= schemas_count(schemas, n),
    decreases n,
{
    if i < n - 1 {
        count_of_member(schemas, n - 1, i);
    }
}

/// Validates the members of a union in their order, each with all that lies
/// below it, and stops at the first member that is not valid.
pub fn check_one_of_schema<DS, AS, OS>(one_of: Option<&[UncheckedDataSchema<DS, AS, OS>]>) -> (r:
    Result<(), Error>)
    ensures
        r == outcome(
            match one_of {
                Some(members) => members_report(members@, members@.len() as int),
                None => None,
            },
        ),
        match r {
            Ok(()) => one_of is Some ==> forall|e: Error| !any_has_fault(one_of.unwrap()@, e),
            Err(e) => one_of is Some && is_fault_of_first_invalid(one_of.unwrap()@, e),
        },
    decreases
            (match one_of {
                Some(members) => schemas_count(members@, members@.len() as int),
                None => 0,
            }),
            1int,
{
    match one_of {
        Some(members) => {
            proof {
                members_report_is_of_the_first(members@, members@.len() as int);
            }
            let mut i: usize = 0;
            while i < members.len()
                invariant
                    i <= members.len(),
                    one_of == Some(members),
                    members_report(members@, i as int) is None,
                    match members_report(members@, members@.len() as int) {
                        Some(e) => is_fault_of_first_invalid(members@, e),
                        None => true,
                    },
                    forall|j: int, e: Error|
                        0 <= j < i ==> !#[trigger] schema_has_fault(members@[j], e),
                decreases members.len() - i,
            {
                proof {
                    count_of_member(members@, members@.len() as int, i as int);
                }
                match members[i].check() {
                    Err(e) => {
                        proof {
                            first_report_stays(members@, i + 1, members@.len() as int);
                        }
                        return Err(e);
                    },
                    Ok(()) => {},
                }
                i = i + 1;
            }
            Ok(())
        },
        None => Ok(()),
    }
}

impl<DS, AS, OS> UncheckedDataSchema<DS, AS, OS> {
    /// Validates the schema and every schema below it.
    ///
    /// The result is `Ok` for a valid tree and no other. For a tree that is
    /// not valid it is a fault of one of its nodes: one of the schema's kind
    /// and of what lies below that, where there is one, else one of the
    /// first member of the union that is not valid.
    pub fn check(&self) -> (r: Result<(), Error>)
        ensures
            r == outcome(schema_report(*self)),
            match r {
                Ok(()) => schema_is_valid(*self),
                Err(e) => schema_has_fault(*self, e) && if subtype_is_valid(self.subtype) {
                    is_fault_of_first_invalid(members_of(*self), e)
                } else {
                    subtype_has_fault(self.subtype, e)
                },
            },
        decreases schema_count(*self), 0int,
    {
        match check_data_schema_subtype(&self.subtype) {
            Err(e) => {
                assert(!subtype_is_valid(self.subtype));
                return Err(e);
            },
            Ok(()) => {},
        }
        let members: Option<&[UncheckedDataSchema<DS, AS, OS>]> = match &self.one_of {
            Some(members) => Some(members.as_slice()),
            None => None,
        };
        let r = check_one_of_schema(members);
        proof {
            if self.one_of is Some {
                assert(members.unwrap()@ == self.one_of.unwrap()@);
            }
            if r is Err {
                let e = r->Err_0;
                let i = choose|i: int|
                    0 <= i < members.unwrap()@.len() && #[trigger] schema_report(
                        members.unwrap()@[i],
                    ) == Some(e) && schema_has_fault(members.unwrap()@[i], e);
                assert(schema_has_fault(members.unwrap()@[i], e));
            }
            if r is Ok {
                assert forall|e: Error| !schema_has_fault(*self, e) by {
                    assert(!subtype_has_fault(self.subtype, e));
                    if self.one_of is Some {
                        assert(!any_has_fault(members.unwrap()@, e));
                    }
                }
            }
        }
        r
    }
}

impl<DS, AS, OS> PartialDataSchema<DS, AS, OS> {
    /// Validates the schema and every schema below it.
    ///
    /// The result is `Ok` for a valid tree and no other. For a tree that is
    /// not valid it is a fault of one of its nodes: one of the schema's kind
    /// and of what lies below that, where there is one, else one of the
    /// first member of the union that is not valid.
    pub fn check(&self) -> (r: Result<(), Error>)
        ensures
            r == outcome(partial_report(*self)),
            match r {
                Ok(()) => partial_is_valid(*self),
                Err(e) => partial_has_fault(*self, e) && if subtype_is_valid(self.subtype) {
                    self.one_of is Some && is_fault_of_first_invalid(self.one_of.unwrap()@, e)
                } else {
                    subtype_has_fault(self.subtype, e)
                },
            },
    {
        match check_data_schema_subtype(&self.subtype) {
            Err(e) => {
                assert(!subtype_is_valid(self.subtype));
                return Err(e);
            },
            Ok(()) => {},
        }
        let members: Option<&[UncheckedDataSchema<DS, AS, OS>]> = match &self.one_of {
            Some(members) => Some(members.as_slice()),
            None => None,
        };
        let r = check_one_of_schema(members);
        proof {
            if self.one_of is Some {
                assert(members.unwrap()@ == self.one_of.unwrap()@);
            }
            if r is Err {
                let e = r->Err_0;
                let i = choose|i: int|
                    0 <= i < members.unwrap()@.len() && #[trigger] schema_report(
                        members.unwrap()@[i],
                    ) == Some(e) && schema_has_fault(members.unwrap()@[i], e);
                assert(schema_has_fault(members.unwrap()@[i], e));
            }
            if r is Ok {
                assert forall|e: Error| !partial_has_fault(*self, e) by {
                    assert(!subtype_has_fault(self.subtype, e));
                    if self.one_of is Some {
                        assert(!any_has_fault(members.unwrap()@, e));
                    }
                }
            }
        }
        r
    }
}

/// What the check of the first `n` members of a union reports is the fault
/// that the check of one member reports, and every member before that one is
/// valid; it reports nothing only where all of them are valid.
pub proof fn members_report_is_of_the_first<DS, AS, OS>(
    members: Seq<UncheckedDataSchema<DS, AS, OS>>,
    n: int,
)
    requires
        0 <= n <= members.len(),
    ensures
        match members_report(members, n) {
            Some(e) => exists|k: int|
                0 <= k < n && #[trigger] schema_report(members[k]) == Some(e) && schema_has_fault(
                    members[k],
                    e,
                ) && forall|j: int| 0 <= j < k ==> schema_is_valid(#[trigger] members[j]),
            None => forall|j: int| 0 <= j < n ==> schema_is_valid(#[trigger] members[j]),
        },
    decreases members, n,
{
    if n > 0 {
        members_report_is_of_the_first(members, n - 1);
        schema_report_is_a_fault(members[n - 1]);
        if members_report(members, n - 1) is None && schema_report(members[n - 1]) is Some {
            let e = schema_report(members[n - 1]).unwrap();
            assert(schema_report(members[n - 1]) == Some(e) && schema_has_fault(members[n - 1], e));
        }
    }
}

/// What the check of a schema reports is a fault of the schema, and it
/// reports nothing only where the schema is valid.
pub proof fn schema_report_is_a_fault<DS, AS, OS>(schema: UncheckedDataSchema<DS, AS, OS>)
    ensures
        match schema_report(schema) {
            Some(e) => schema_has_fault(schema, e),
            None => schema_is_valid(schema),
        },
    decreases schema, 0int,
{
    walk_reports_a_fault(schema.subtype, Seq::empty());
    match schema.one_of {
        Some(members) => {
            members_report_is_of_the_first(members@, members@.len() as int);
        },
        None => {},
    }
    if schema_report(schema) is None {
        assert forall|e: Error| !schema_has_fault(schema, e) by {
            fault_of_schema(schema, e);
            if any_has_fault(members_of(schema), e) {
                let i = choose|i: int|
                    0 <= i < members_of(schema).len() && schema_has_fault(
                        #[trigger] members_of(schema)[i],
                        e,
                    );
                assert(schema_is_valid(members_of(schema)[i]));
            }
        }
    }
}

/// Whether the schema describes an array or an object.
pub open spec fn is_array_or_object<DS, AS, OS>(schema: UncheckedDataSchema<DS, AS, OS>) -> bool {
    schema.subtype matches Some(UncheckedDataSchemaSubtype::Array(_)) || schema.subtype matches Some(
        UncheckedDataSchemaSubtype::Object(_),
    )
}

/// Whether one of the variables of a URI template is described as an array
/// or as an object.
pub fn uri_variables_contains_arrays_objects<DS, AS, OS>(
    uri_variables: &OrderedMap<UncheckedDataSchema<DS, AS, OS>>,
) -> (r: bool)
    ensures
        r == exists|i: int|
            0 <= i < uri_variables@.len() && is_array_or_object((#[trigger] uri_variables@[i]).1),
{
    let mut i: usize = 0;
    while i < uri_variables.entries.len()
        invariant
            i <= uri_variables.entries.len(),
            forall|j: int| 0 <= j < i ==> !is_array_or_object((#[trigger] uri_variables@[j]).1),
        decreases uri_variables.entries.len() - i,
    {
        let found = match &uri_variables.entries[i].1.subtype {
            Some(UncheckedDataSchemaSubtype::Array(_)) => true,
            Some(UncheckedDataSchemaSubtype::Object(_)) => true,
            _ => false,
        };
        if found {
            assert(is_array_or_object(uri_variables@[i as int].1));
            return true;
        }
        i = i + 1;
    }
    false
}

} // verus!
