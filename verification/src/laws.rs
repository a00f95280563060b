//! What holds of the builders, the validation and the conversions, whatever
//! the values are.
//!
//! The laws speak of what a builder holds ([`BuilderModel`]) and of the trees
//! that come of it; every operation of a builder is stated, in its contract,
//! as one of the functions on models that are used here.

use vstd::prelude::*;
use serde_json::Value;
use crate::check::{
    members_report, members_report_is_of_the_first, own_fault, partial_report, schema_has_fault,
    schema_is_valid, schema_report, subtype_has_fault,
};
use crate::checked::{schema_converts, schema_tag_fault};
use crate::data_schema::{
    BuildableDataSchema, DataSchemaBuilder, Extended, NumberDataSchemaBuilder,
    PartialDataSchema, ReadOnly, StatelessDataSchemaType, UncheckedDataSchema,
};
use crate::human_readable_info::{BuildableHumanReadableInfo, tags_view};
use crate::error::Error;
use crate::model::{Access, BuilderModel, Kind, partial_matches, unchecked_matches};
use crate::number::Double;
use crate::ordered_map::{inserted, position, position_from_bounds};
use crate::thing::{
    BoxedElemOrVec, DataSchema, DataSchemaSubtype, Maximum, Minimum, NonZeroU64, NumberSchema,
    UncheckedArraySchema, UncheckedDataSchemaSubtype, UncheckedObjectSchema,
};

verus! {

/// A fresh builder that is specialized into a boolean or into the null value
/// converts into a final schema of that kind in which nothing else is set.
pub proof fn fresh_stateless_schema_is_bare<DS, AS, OS>(
    other: DS,
    ty: StatelessDataSchemaType,
    schema: UncheckedDataSchema<DS, AS, OS>,
    target: DataSchema<DS, AS, OS>,
)
    requires
        unchecked_matches(
            BuilderModel::<DS, AS, OS>::fresh(other).specialized(Kind::Stateless(Some(ty))),
            schema,
        ),
        schema_converts(schema, target),
    ensures
        schema_tag_fault(schema) is None,
        target.subtype == Some(
            match ty {
                StatelessDataSchemaType::Boolean => DataSchemaSubtype::<DS, AS, OS>::Boolean,
                StatelessDataSchemaType::Null => DataSchemaSubtype::<DS, AS, OS>::Null,
            },
        ),
        target.attype is None,
        target.title is None,
        target.titles is None,
        target.description is None,
        target.descriptions is None,
        target.constant is None,
        target.default is None,
        target.unit is None,
        target.one_of is None,
        target.enumeration is None,
        !target.read_only,
        !target.write_only,
        target.format is None,
        target.other == other,
{
}

/// The schema of a constant has the constant, can only be read, is not
/// writable only and has no kind, whatever the builder held before.
pub proof fn constant_schema_is_read_only<DS, AS, OS>(
    model: BuilderModel<DS, AS, OS>,
    value: Value,
    schema: UncheckedDataSchema<DS, AS, OS>,
)
    requires
        unchecked_matches(model.as_constant(value), schema),
    ensures
        schema.constant == Some(value),
        schema.read_only,
        !schema.write_only,
        schema.subtype is None,
        schema.one_of is None,
        schema.enumeration is None,
        schema.default == model.default,
        schema.unit == model.unit,
        schema.format == model.format,
        tags_view(schema.attype) == model.info.attype,
        schema.title == model.info.title,
        schema.titles == model.info.titles,
        schema.description == model.info.description,
        schema.descriptions == model.info.descriptions,
{
    let marked = model.as_constant(value);
    assert(marked.wrappers.last() is ReadOnly);
}

/// Three values given to a builder without values make the enumeration of
/// these three, in the order in which they were given.
pub proof fn enumeration_keeps_order<DS, AS, OS>(
    model: BuilderModel<DS, AS, OS>,
    a: Value,
    b: Value,
    c: Value,
    schema: UncheckedDataSchema<DS, AS, OS>,
)
    requires
        model.enumeration.len() == 0,
        unchecked_matches(model.enumerated(a).enumerated(b).enumerated(c), schema),
    ensures
        schema.enumeration is Some,
        schema.enumeration.unwrap()@ == seq![a, b, c],
        schema.subtype is None,
{
    assert(model.enumeration.push(a).push(b).push(c) =~= seq![a, b, c]);
}

/// A value given to an enumeration comes after the values that are there,
/// which stay as they are.
pub proof fn enumeration_appends<DS, AS, OS>(model: BuilderModel<DS, AS, OS>, value: Value)
    ensures
        model.enumerated(value).enumeration.len() == model.enumeration.len() + 1,
        model.enumerated(value).enumeration.last() == value,
        forall|i: int|
            0 <= i < model.enumeration.len() ==> model.enumerated(value).enumeration[i]
                == #[trigger] model.enumeration[i],
{
}

/// Marking a builder as readable only makes the schema readable only and
/// not writable only, and changes no other field of it.
pub proof fn read_only_keeps_every_other_field<DS, AS, OS>(
    model: BuilderModel<DS, AS, OS>,
    before: UncheckedDataSchema<DS, AS, OS>,
    after: UncheckedDataSchema<DS, AS, OS>,
)
    requires
        unchecked_matches(model, before),
        unchecked_matches(model.marked_read_only(), after),
    ensures
        after.read_only,
        !after.write_only,
        unchecked_matches(
            model,
            UncheckedDataSchema {
                read_only: before.read_only,
                write_only: before.write_only,
                ..after
            },
        ),
        after.title == before.title,
        after.titles == before.titles,
        after.description == before.description,
        after.descriptions == before.descriptions,
        after.constant == before.constant,
        after.default == before.default,
        after.unit == before.unit,
        after.format == before.format,
        after.other == before.other,
{
    let marked = model.marked_read_only();
    assert(marked.wrappers.last() is ReadOnly);
}

/// A field that is set after the builder was marked as readable only is set
/// as it would have been before: the marking does not freeze the builder.
pub proof fn setters_apply_after_read_only<DS, AS, OS>(
    model: BuilderModel<DS, AS, OS>,
    unit: String,
    format: String,
    default: Value,
    bound: Minimum<Double>,
)
    ensures
        model.marked_read_only().with_unit(unit) == model.with_unit(unit).marked_read_only(),
        model.marked_read_only().with_format(format) == model.with_format(
            format,
        ).marked_read_only(),
        model.marked_read_only().with_default(default) == model.with_default(
            default,
        ).marked_read_only(),
        model.marked_read_only().with_number_minimum(bound) == model.with_number_minimum(
            bound,
        ).marked_read_only(),
{
}

/// A lower bound and then an upper bound that may not be reached are both
/// kept as they were given, also where they leave no number between them:
/// the builder rejects nothing. The validation then reports the bounds,
/// where both are numbers and the lower is not below the upper.
pub proof fn bounds_are_kept_and_checked_later<DS, AS, OS>(
    model: BuilderModel<DS, AS, OS>,
    low: Double,
    high: Double,
)
    requires
        model.kind == Kind::<DS, AS, OS>::Number(
            NumberSchema { maximum: None, minimum: None, multiple_of: None },
        ),
    ensures
        model.with_number_minimum(Minimum::Inclusive(low)).with_number_maximum(
            Maximum::Exclusive(high),
        ).kind == Kind::<DS, AS, OS>::Number(
            NumberSchema {
                maximum: Some(Maximum::Exclusive(high)),
                minimum: Some(Minimum::Inclusive(low)),
                multiple_of: None,
            },
        ),
        !low.nan() && !high.nan() && low.rank() >= high.rank() ==> (NumberSchema {
            maximum: Some(Maximum::Exclusive(high)),
            minimum: Some(Minimum::Inclusive(low)),
            multiple_of: None,
        }).fault() == Some(Error::InvalidMinMax),
{
}

/// The bound that is set last replaces the bound of its side, whether the
/// earlier one was to be reached or not.
pub proof fn last_bound_wins<DS, AS, OS>(
    model: BuilderModel<DS, AS, OS>,
    first: Minimum<Double>,
    second: Minimum<Double>,
)
    ensures
        model.with_number_minimum(first).with_number_minimum(second) == model.with_number_minimum(
            second,
        ),
{
}

/// Bounds of the same number of which one may not be reached leave no value:
/// the validation reports them.
pub proof fn bounds_that_meet_exclude_all(number: NumberSchema)
    requires
        number.minimum is Some,
        number.maximum is Some,
        !number.minimum.unwrap().value().nan(),
        number.minimum.unwrap().value() == number.maximum.unwrap().value(),
        number.minimum.unwrap().exclusive() || number.maximum.unwrap().exclusive(),
    ensures
        number.fault() == Some(Error::InvalidMinMax),
{
}

/// A bound that is not a number is reported as such, whatever the other
/// bound and the step are.
pub proof fn nan_bound_is_reported_first(number: NumberSchema)
    requires
        (number.minimum is Some && number.minimum.unwrap().value().nan()) || (number.maximum
            is Some && number.maximum.unwrap().value().nan()),
    ensures
        number.fault() == Some(Error::NanMinMax),
{
}

/// A step that is zero or below is reported, where the bounds are in order.
pub proof fn step_must_be_positive(number: NumberSchema)
    requires
        number.minimum is None,
        number.maximum is None,
        number.multiple_of is Some,
        number.multiple_of.unwrap().at_most_zero(),
    ensures
        number.fault() == Some(Error::InvalidMultipleOf),
{
}

/// A schema with no schema below it has the fault of its own kind and no
/// other.
pub proof fn leaf_has_only_its_own_fault<DS, AS, OS>(
    schema: UncheckedDataSchema<DS, AS, OS>,
    e: Error,
)
    requires
        schema.one_of is None,
        !(schema.subtype matches Some(UncheckedDataSchemaSubtype::Array(array))
            && array.items is Some),
        !(schema.subtype matches Some(UncheckedDataSchemaSubtype::Object(object))
            && object.properties is Some),
    ensures
        schema_has_fault(schema, e) <==> own_fault(schema.subtype) == Some(e),
{
    assert(schema_has_fault(schema, e) <==> subtype_has_fault(schema.subtype, e));
}

/// A fault of the one item of a list is a fault of the array, whatever the
/// counts of the array are.
pub proof fn fault_of_item_is_fault_of_array<DS, AS, OS>(
    array: UncheckedArraySchema<DS, AS, OS>,
    e: Error,
)
    requires
        array.items matches Some(BoxedElemOrVec::Elem(item)) && schema_has_fault(*item, e),
    ensures
        subtype_has_fault(Some(UncheckedDataSchemaSubtype::Array(array)), e),
{
}

/// A fault of an item of a tuple is a fault of the array.
pub proof fn fault_of_position_is_fault_of_array<DS, AS, OS>(
    array: UncheckedArraySchema<DS, AS, OS>,
    i: int,
    e: Error,
)
    requires
        array.items matches Some(BoxedElemOrVec::Vec(items)) && 0 <= i < items@.len()
            && schema_has_fault(items@[i], e),
    ensures
        subtype_has_fault(Some(UncheckedDataSchemaSubtype::Array(array)), e),
{
}

/// A fault of the schema of a property is a fault of the object.
pub proof fn fault_of_property_is_fault_of_object<DS, AS, OS>(
    object: UncheckedObjectSchema<DS, AS, OS>,
    i: int,
    e: Error,
)
    requires
        object.properties matches Some(map) && 0 <= i < map.entries@.len() && schema_has_fault(
            map.entries@[i].1,
            e,
        ),
    ensures
        subtype_has_fault(Some(UncheckedDataSchemaSubtype::Object(object)), e),
{
}

/// A fault of a member of a union, or of the schema's own kind, is a fault
/// of the schema.
pub proof fn fault_below_is_fault_of_schema<DS, AS, OS>(
    schema: UncheckedDataSchema<DS, AS, OS>,
    i: int,
    e: Error,
)
    requires
        subtype_has_fault(schema.subtype, e) || (schema.one_of matches Some(members) && 0 <= i
            < members@.len() && schema_has_fault(members@[i], e)),
    ensures
        schema_has_fault(schema, e),
{
}

/// A name that the properties do not hold comes last when it is inserted,
/// and the properties that are there stay as they are.
pub proof fn new_property_comes_last<V>(properties: Seq<(Seq<char>, V)>, name: Seq<char>, value: V)
    requires
        forall|i: int| 0 <= i < properties.len() ==> (#[trigger] properties[i]).0 != name,
    ensures
        inserted(properties, name, value) == properties.push((name, value)),
{
    position_from_bounds(properties, name, 0);
    let p = position(properties, name);
    if p < properties.len() {
        assert(properties[p].0 == name);
    }
}

/// A required property and then one that is not required, under two names,
/// make an object with both properties in that order and the first name as
/// the one required name.
pub proof fn two_properties_keep_order<DS, AS, OS>(
    model: BuilderModel<DS, AS, OS>,
    other: OS,
    a: String,
    first: UncheckedDataSchema<DS, AS, OS>,
    b: String,
    second: UncheckedDataSchema<DS, AS, OS>,
    schema: UncheckedDataSchema<DS, AS, OS>,
)
    requires
        a@ != b@,
        model.kind == (Kind::<DS, AS, OS>::Object {
            properties: Seq::empty(),
            required: Seq::empty(),
            extension: other,
        }),
        unchecked_matches(
            model.with_property(a, true, first).with_property(b, false, second),
            schema,
        ),
    ensures
        schema.subtype matches Some(UncheckedDataSchemaSubtype::Object(object))
            && object.properties is Some && object.properties.unwrap()@ == seq![
            (a@, first),
            (b@, second),
        ] && object.required is Some && object.required.unwrap()@ == seq![a],
{
    let none = Seq::<(Seq<char>, UncheckedDataSchema<DS, AS, OS>)>::empty();
    new_property_comes_last(none, a@, first);
    let one = none.push((a@, first));
    assert(one[0].0 == a@);
    new_property_comes_last(one, b@, second);
    assert(one.push((b@, second)) =~= seq![(a@, first), (b@, second)]);
    assert(Seq::<String>::empty().push(a) =~= seq![a]);
}

/// An object to which no property was added has no properties and no
/// required names: absent, not empty.
pub proof fn empty_object_has_absent_fields<DS, AS, OS>(
    model: BuilderModel<DS, AS, OS>,
    other: OS,
    schema: UncheckedDataSchema<DS, AS, OS>,
)
    requires
        model.kind == (Kind::<DS, AS, OS>::Object {
            properties: Seq::empty(),
            required: Seq::empty(),
            extension: other,
        }),
        unchecked_matches(model, schema),
    ensures
        schema.subtype matches Some(UncheckedDataSchemaSubtype::Object(object))
            && object.properties is None && object.required is None && object.other == other,
{
}

/// The schema of a tuple always has its items as a list of schemas, one per
/// position, also where there is none; the schema of a list has its one item
/// or no items at all. Neither has the items of the other.
pub proof fn tuple_and_list_differ<DS, AS, OS>(
    model: BuilderModel<DS, AS, OS>,
    schema: UncheckedDataSchema<DS, AS, OS>,
)
    requires
        unchecked_matches(model, schema),
    ensures
        model.kind matches Kind::Tuple { items, other: _ } ==> (schema.subtype matches Some(
            UncheckedDataSchemaSubtype::Array(array),
        ) && array.items matches Some(BoxedElemOrVec::Vec(schemas)) && schemas@ == items),
        model.kind matches Kind::List { item, min_items: _, max_items: _, other: _ } ==> (
        schema.subtype matches Some(UncheckedDataSchemaSubtype::Array(array)) && match item {
            Some(one) => array.items matches Some(BoxedElemOrVec::Elem(boxed)) && *boxed == one,
            None => array.items is None,
        }),
{
}

/// A builder that differs from another in nothing but the fields that people
/// read holds what the other holds, with its own fields that people read.
pub proof fn info_is_part_of_what_a_builder_holds<DS, AS, OS, Status>(
    before: DataSchemaBuilder<DS, AS, OS, Status>,
    after: DataSchemaBuilder<DS, AS, OS, Status>,
)
    requires
        before.same_but_info(after),
    ensures
        after.model() == before.model().with_info(after.info()),
{
}

/// The same holds of a builder that was specialized and marked: the fields
/// that people read reach the innermost builder, and the kind and the
/// marking stay as they are.
pub proof fn info_reaches_through_the_wrappers<DS, AS, OS>(
    before: ReadOnly<NumberDataSchemaBuilder<DataSchemaBuilder<DS, AS, OS, Extended>>>,
    after: ReadOnly<NumberDataSchemaBuilder<DataSchemaBuilder<DS, AS, OS, Extended>>>,
)
    requires
        before.same_but_info(after),
    ensures
        BuildableDataSchema::<DS, AS, OS, Extended>::model(after) == BuildableDataSchema::<
            DS,
            AS,
            OS,
            Extended,
        >::model(before).with_info(after.info()),
{
}

/// A schema that comes of a builder is of one sort at most: it has a kind,
/// or the members of a union, or the values of an enumeration, never two of
/// them.
pub proof fn kind_union_and_enumeration_exclude_one_another<DS, AS, OS>(
    model: BuilderModel<DS, AS, OS>,
    schema: UncheckedDataSchema<DS, AS, OS>,
)
    requires
        unchecked_matches(model, schema),
    ensures
        !(schema.subtype is Some && schema.one_of is Some),
        !(schema.subtype is Some && schema.enumeration is Some),
        !(schema.one_of is Some && schema.enumeration is Some),
{
}

/// A marking sets exactly one flag, whatever the builder held before: the
/// schema is readable only or writable only, not both.
pub proof fn a_marking_sets_one_flag<DS, AS, OS>(
    model: BuilderModel<DS, AS, OS>,
    read: UncheckedDataSchema<DS, AS, OS>,
    write: UncheckedDataSchema<DS, AS, OS>,
)
    requires
        unchecked_matches(model.marked_read_only(), read),
        unchecked_matches(model.marked_write_only(), write),
    ensures
        read.read_only && !read.write_only,
        write.write_only && !write.read_only,
{
    assert(model.marked_read_only().wrappers.last() is ReadOnly);
    assert(model.marked_write_only().wrappers.last() is WriteOnly);
}

/// A fresh builder has neither flag set, and no operation of a builder sets
/// both: what a builder holds stays well marked. A marking, and the plain
/// form of a marked builder, are well marked whatever came before.
pub proof fn operations_keep_builders_well_marked<DS, AS, OS, T>(
    model: BuilderModel<DS, AS, OS>,
    other: DS,
    extension: T,
    text: String,
    value: Value,
    count: u32,
    kind: Kind<DS, AS, OS>,
    access: Access,
    schema: UncheckedDataSchema<DS, AS, OS>,
    low: Minimum<Double>,
    high: Maximum<Double>,
    step: Double,
    integer_low: Minimum<i64>,
    integer_high: Maximum<i64>,
    integer_step: NonZeroU64,
)
    ensures
        BuilderModel::<DS, AS, OS>::fresh(other).well_marked(),
        model.as_constant(value).well_marked(),
        model.marked_read_only().well_marked(),
        model.marked_write_only().well_marked(),
        model.wrappers.len() > 0 ==> model.builder_form().well_marked(),
        model.wrappers.len() > 0 ==> model.specialized(kind).well_marked(),
        model.well_marked() ==> {
            &&& model.extended(extension).well_marked()
            &&& model.with_unit(text).well_marked()
            &&& model.with_format(text).well_marked()
            &&& model.with_default(value).well_marked()
            &&& model.with_info(model.info.with_title(text)).well_marked()
            &&& model.builder_form().well_marked()
            &&& model.specialized(kind).well_marked()
            &&& model.wrapped(access).well_marked()
            &&& model.enumerated(value).well_marked()
            &&& model.with_member(schema).well_marked()
            &&& model.with_item(schema).well_marked()
            &&& model.with_list_item(schema).well_marked()
            &&& model.with_min_items(count).well_marked()
            &&& model.with_max_items(count).well_marked()
            &&& model.with_number_minimum(low).well_marked()
            &&& model.with_number_maximum(high).well_marked()
            &&& model.with_number_multiple_of(step).well_marked()
            &&& model.with_integer_minimum(integer_low).well_marked()
            &&& model.with_integer_maximum(integer_high).well_marked()
            &&& model.with_integer_multiple_of(integer_step).well_marked()
            &&& model.with_property(text, true, schema).well_marked()
            &&& model.with_min_length(count).well_marked()
            &&& model.with_max_length(count).well_marked()
            &&& model.with_pattern(text).well_marked()
            &&& model.with_content_encoding(text).well_marked()
            &&& model.with_content_media_type(text).well_marked()
        },
{
}

/// No schema that comes of a well marked builder is readable only and
/// writable only at once; of a marked builder, none at all is.
pub proof fn no_schema_is_read_only_and_write_only<DS, AS, OS>(
    model: BuilderModel<DS, AS, OS>,
    schema: UncheckedDataSchema<DS, AS, OS>,
    partial: PartialDataSchema<DS, AS, OS>,
)
    requires
        model.well_marked() || model.wrappers.len() > 0,
    ensures
        unchecked_matches(model, schema) ==> !(schema.read_only && schema.write_only),
        partial_matches(model, partial) ==> !(partial.read_only && partial.write_only),
{
}

/// A partial schema and a schema with the same kind and the same union have
/// checks that report the same: both nothing, or both the same fault.
pub proof fn partial_and_full_checks_agree<DS, AS, OS>(
    partial: PartialDataSchema<DS, AS, OS>,
    schema: UncheckedDataSchema<DS, AS, OS>,
)
    requires
        partial.subtype == schema.subtype,
        partial.one_of == schema.one_of,
    ensures
        partial_report(partial) == schema_report(schema),
{
}

/// The check of the members of a union reports what the check of the first
/// member that is not valid reports.
pub proof fn first_invalid_member_is_reported<DS, AS, OS>(
    members: Seq<UncheckedDataSchema<DS, AS, OS>>,
    k: int,
)
    requires
        0 <= k < members.len(),
        !schema_is_valid(members[k]),
        forall|j: int| 0 <= j < k ==> schema_is_valid(#[trigger] members[j]),
    ensures
        members_report(members, members.len() as int) == schema_report(members[k]),
        schema_report(members[k]) is Some,
{
    members_report_is_of_the_first(members, members.len() as int);
    crate::check::schema_report_is_a_fault(members[k]);
    match members_report(members, members.len() as int) {
        Some(e) => {
            let i = choose|i: int|
                0 <= i < members.len() && #[trigger] schema_report(members[i]) == Some(e)
                    && schema_has_fault(members[i], e) && forall|j: int|
                    0 <= j < i ==> schema_is_valid(#[trigger] members[j]);
            if i < k {
                assert(schema_is_valid(members[i]));
            }
            if k < i {
                assert(schema_is_valid(members[k]));
            }
        },
        None => {
            assert(schema_is_valid(members[k]));
        },
    }
}

} // verus!
