//! The conversion of an unchecked tree into the final data schema.
//!
//! The final tree mirrors the unchecked one node for node and field for
//! field. The only thing that can fail is a multi-language map with a key
//! that is not a well-formed language tag: the first such key, in the order
//! in which the conversion walks the tree, is reported and nothing is built.
//! Numeric constraints are not looked at here.

use vstd::prelude::*;
use crate::data_schema::UncheckedDataSchema;
use crate::error::Error;
use crate::lang::{MultiLanguage, MultiLanguageBuilder, built, first_invalid_from};
use crate::ordered_map::OrderedMap;
use crate::thing::{
    ArraySchema, BoxedElemOrVec, DataSchema, DataSchemaSubtype, ObjectSchema,
    UncheckedArraySchema, UncheckedDataSchemaSubtype, UncheckedObjectSchema,
};

verus! {

/// The first key of the map that is not a well-formed language tag, if any.
pub open spec fn texts_fault(texts: Option<MultiLanguageBuilder<String>>) -> Option<String> {
    match texts {
        Some(builder) => {
            let i = first_invalid_from(builder.values@, 0);
            if i < builder.values@.len() {
                Some(builder.values.entries@[i].0)
            } else {
                None
            }
        },
        None => None,
    }
}

/// Whether `target` is what the checked keys of `source` give: absent for an
/// absent map, else every text under the normal form of its key.
pub open spec fn texts_convert(
    source: Option<MultiLanguageBuilder<String>>,
    target: Option<MultiLanguage>,
) -> bool {
    match source {
        Some(builder) => target is Some && target.unwrap().values@ == built(
            builder.values@,
            builder.values@.len() as int,
        ),
        None => target is None,
    }
}

/// The first key that is not a well-formed language tag in the tree of the
/// schema, if any: the titles come first, then the descriptions, the members
/// of a union in their order, and last what lies below the schema's kind.
pub open spec fn schema_tag_fault<DS, AS, OS>(schema: UncheckedDataSchema<DS, AS, OS>) -> Option<
    String,
>
    decreases schema, 0int,
{
    if texts_fault(schema.titles) is Some {
        texts_fault(schema.titles)
    } else if texts_fault(schema.descriptions) is Some {
        texts_fault(schema.descriptions)
    } else {
        let among_members = match schema.one_of {
            Some(members) => schemas_tag_fault(members@, members@.len() as int),
            None => None,
        };
        if among_members is Some {
            among_members
        } else {
            subtype_tag_fault(schema.subtype)
        }
    }
}

/// The first key that is not a well-formed language tag in the trees of the
/// first `n` of `schemas`, if any.
pub open spec fn schemas_tag_fault<DS, AS, OS>(
    schemas: Seq<UncheckedDataSchema<DS, AS, OS>>,
    n: int,
) -> Option<String>
    decreases schemas, n,
{
    if n <= 0 || n > schemas.len() {
        None
    } else if schemas_tag_fault(schemas, n - 1) is Some {
        schemas_tag_fault(schemas, n - 1)
    } else {
        schema_tag_fault(schemas[n - 1])
    }
}

/// The first key that is not a well-formed language tag in the trees of the
/// first `n` properties, if any.
pub open spec fn entries_tag_fault<DS, AS, OS>(
    entries: Seq<(String, UncheckedDataSchema<DS, AS, OS>)>,
    n: int,
) -> Option<String>
    decreases entries, n,
{
    if n <= 0 || n > entries.len() {
        None
    } else if entries_tag_fault(entries, n - 1) is Some {
        entries_tag_fault(entries, n - 1)
    } else {
        schema_tag_fault(entries[n - 1].1)
    }
}

/// The first key that is not a well-formed language tag below an array.
pub open spec fn array_tag_fault<DS, AS, OS>(array: UncheckedArraySchema<DS, AS, OS>) -> Option<
    String,
>
    decreases array, 0int,
{
    match array.items {
        Some(BoxedElemOrVec::Elem(item)) => schema_tag_fault(*item),
        Some(BoxedElemOrVec::Vec(items)) => schemas_tag_fault(items@, items@.len() as int),
        None => None,
    }
}

/// The first key that is not a well-formed language tag below an object.
pub open spec fn object_tag_fault<DS, AS, OS>(object: UncheckedObjectSchema<DS, AS, OS>) -> Option<
    String,
>
    decreases object, 0int,
{
    match object.properties {
        Some(map) => entries_tag_fault(map.entries@, map.entries@.len() as int),
        None => None,
    }
}

/// The first key that is not a well-formed language tag below a node of kind
/// `subtype`, if any.
pub open spec fn subtype_tag_fault<DS, AS, OS>(
    subtype: Option<UncheckedDataSchemaSubtype<DS, AS, OS>>,
) -> Option<String>
    decreases subtype, 0int,
{
    match subtype {
        Some(UncheckedDataSchemaSubtype::Array(array)) => array_tag_fault(array),
        Some(UncheckedDataSchemaSubtype::Object(object)) => object_tag_fault(object),
        _ => None,
    }
}

/// Whether `target` mirrors `source`: every field of the final schema is the
/// field of the unchecked one, the multi-language maps hold the texts under
/// their checked keys, and the schemas below mirror one another in turn.
pub open spec fn schema_converts<DS, AS, OS>(
    source: UncheckedDataSchema<DS, AS, OS>,
    target: DataSchema<DS, AS, OS>,
) -> bool
    decreases source,
{
    &&& target.attype == source.attype
    &&& target.title == source.title
    &&& texts_convert(source.titles, target.titles)
    &&& target.description == source.description
    &&& texts_convert(source.descriptions, target.descriptions)
    &&& target.constant == source.constant
    &&& target.default == source.default
    &&& target.unit == source.unit
    &&& match source.one_of {
        Some(members) => target.one_of is Some && schemas_convert(
            members@,
            target.one_of.unwrap()@,
        ),
        None => target.one_of is None,
    }
    &&& target.enumeration == source.enumeration
    &&& target.read_only == source.read_only
    &&& target.write_only == source.write_only
    &&& target.format == source.format
    &&& match source.subtype {
        Some(subtype) => target.subtype is Some && subtype_converts(
            subtype,
            target.subtype.unwrap(),
        ),
        None => target.subtype is None,
    }
    &&& target.other == source.other
}

/// Whether the final schemas mirror the unchecked ones, one for one.
pub open spec fn schemas_convert<DS, AS, OS>(
    source: Seq<UncheckedDataSchema<DS, AS, OS>>,
    target: Seq<DataSchema<DS, AS, OS>>,
) -> bool
    decreases source,
{
    &&& target.len() == source.len()
    &&& forall|i: int|
        0 <= i < source.len() ==> schema_converts(source[i], #[trigger] target[i])
}

/// Whether the final properties mirror the unchecked ones: the same names in
/// the same order, each with the schema that mirrors its schema.
pub open spec fn entries_convert<DS, AS, OS>(
    source: Seq<(String, UncheckedDataSchema<DS, AS, OS>)>,
    target: Seq<(String, DataSchema<DS, AS, OS>)>,
) -> bool
    decreases source,
{
    &&& target.len() == source.len()
    &&& forall|i: int|
        0 <= i < source.len() ==> (#[trigger] target[i]).0 == source[i].0 && schema_converts(
            source[i].1,
            target[i].1,
        )
}

/// Whether the final array mirrors the unchecked one.
pub open spec fn array_converts<DS, AS, OS>(
    source: UncheckedArraySchema<DS, AS, OS>,
    target: ArraySchema<DS, AS, OS>,
) -> bool
    decreases source,
{
    &&& match source.items {
        Some(BoxedElemOrVec::Elem(item)) => target.items matches Some(BoxedElemOrVec::Elem(mirror))
            && schema_converts(*item, *mirror),
        Some(BoxedElemOrVec::Vec(items)) => target.items matches Some(BoxedElemOrVec::Vec(mirror))
            && schemas_convert(items@, mirror@),
        None => target.items is None,
    }
    &&& target.min_items == source.min_items
    &&& target.max_items == source.max_items
    &&& target.other == source.other
}

/// Whether the final object mirrors the unchecked one.
pub open spec fn object_converts<DS, AS, OS>(
    source: UncheckedObjectSchema<DS, AS, OS>,
    target: ObjectSchema<DS, AS, OS>,
) -> bool
    decreases source,
{
    &&& match source.properties {
        Some(map) => target.properties is Some && entries_convert(
            map.entries@,
            target.properties.unwrap().entries@,
        ),
        None => target.properties is None,
    }
    &&& target.required == source.required
    &&& target.other == source.other
}

/// Whether the final kind mirrors the unchecked one.
pub open spec fn subtype_converts<DS, AS, OS>(
    source: UncheckedDataSchemaSubtype<DS, AS, OS>,
    target: DataSchemaSubtype<DS, AS, OS>,
) -> bool
    decreases source,
{
    match source {
        UncheckedDataSchemaSubtype::Array(array) => target matches DataSchemaSubtype::Array(mirror)
            && array_converts(array, mirror),
        UncheckedDataSchemaSubtype::Boolean => target is Boolean,
        UncheckedDataSchemaSubtype::Number(number) => target == DataSchemaSubtype::<
            DS,
            AS,
            OS,
        >::Number(number),
        UncheckedDataSchemaSubtype::Integer(integer) => target == DataSchemaSubtype::<
            DS,
            AS,
            OS,
        >::Integer(integer),
        UncheckedDataSchemaSubtype::Object(object) => target matches DataSchemaSubtype::Object(
            mirror,
        ) && object_converts(object, mirror),
        UncheckedDataSchemaSubtype::String(string) => target == DataSchemaSubtype::<
            DS,
            AS,
            OS,
        >::String(string),
        UncheckedDataSchemaSubtype::Null => target is Null,
    }
}

/// The outcome that a conversion owes: the error of the first bad key, or a
/// result that `mirrors` the source.
pub open spec fn outcome_is<T>(r: Result<T, Error>, fault: Option<String>, mirrors: spec_fn(T) -> bool) -> bool {
    match r {
        Ok(target) => fault is None && mirrors(target),
        Err(e) => fault is Some && e == Error::InvalidLanguageTag(fault.unwrap()),
    }
}

/// Checks the keys of a multi-language map, if there is one.
pub fn build_texts(texts: Option<MultiLanguageBuilder<String>>) -> (r: Result<
    Option<MultiLanguage>,
    Error,
>)
    ensures
        outcome_is(r, texts_fault(texts), |target: Option<MultiLanguage>| texts_convert(texts, target)),
{
    match texts {
        Some(builder) => match builder.build() {
            Ok(map) => Ok(Some(map)),
            Err(e) => Err(e),
        },
        None => Ok(None),
    }
}

/// A bad key that is first among some schemas stays first among more of them.
proof fn first_fault_stays<DS, AS, OS>(
    schemas: Seq<UncheckedDataSchema<DS, AS, OS>>,
    n: int,
    m: int,
)
    requires
        0 <= n <= m <= schemas.len(),
        schemas_tag_fault(schemas, n) is Some,
    ensures
        schemas_tag_fault(schemas, m) == schemas_tag_fault(schemas, n),
    decreases m,
{
    if n < m {
        first_fault_stays(schemas, n, m - 1);
    }
}

/// A bad key that is first among some properties stays first among more of them.
proof fn first_entry_fault_stays<DS, AS, OS>(
    entries: Seq<(String, UncheckedDataSchema<DS, AS, OS>)>,
    n: int,
    m: int,
)
    requires
        0 <= n <= m <= entries.len(),
        entries_tag_fault(entries, n) is Some,
    ensures
        entries_tag_fault(entries, m) == entries_tag_fault(entries, n),
    decreases m,
{
    if n < m {
        first_entry_fault_stays(entries, n, m - 1);
    }
}

/// Converts the schemas one after the other and stops at the first that fails.
pub fn convert_schemas<DS, AS, OS>(schemas: Vec<UncheckedDataSchema<DS, AS, OS>>) -> (r: Result<
    Vec<DataSchema<DS, AS, OS>>,
    Error,
>)
    ensures
        outcome_is(
            r,
            schemas_tag_fault(schemas@, schemas@.len() as int),
            |target: Vec<DataSchema<DS, AS, OS>>| schemas_convert(schemas@, target@),
        ),
    decreases schemas, 1int,
{
    let ghost source = schemas@;
    let mut target: Vec<DataSchema<DS, AS, OS>> = Vec::new();
    for schema in it: schemas
        invariant
            source == it.seq(),
            source == schemas@,
            schemas_tag_fault(source, it.index() as int) is None,
            target@.len() == it.index(),
            forall|i: int|
                0 <= i < it.index() ==> schema_converts(source[i], #[trigger] target@[i]),
    {
        match DataSchema::try_from_unchecked(schema) {
            Ok(mirror) => {
                target.push(mirror);
            },
            Err(e) => {
                proof {
                    first_fault_stays(source, it.index() + 1, source.len() as int);
                }
                return Err(e);
            },
        }
    }
    Ok(target)
}

/// Converts the schemas of the properties one after the other and stops at
/// the first that fails.
pub fn convert_entries<DS, AS, OS>(
    entries: Vec<(String, UncheckedDataSchema<DS, AS, OS>)>,
) -> (r: Result<Vec<(String, DataSchema<DS, AS, OS>)>, Error>)
    ensures
        outcome_is(
            r,
            entries_tag_fault(entries@, entries@.len() as int),
            |target: Vec<(String, DataSchema<DS, AS, OS>)>| entries_convert(entries@, target@),
        ),
    decreases entries, 1int,
{
    let ghost source = entries@;
    let mut target: Vec<(String, DataSchema<DS, AS, OS>)> = Vec::new();
    for entry in it: entries
        invariant
            source == it.seq(),
            source == entries@,
            entries_tag_fault(source, it.index() as int) is None,
            target@.len() == it.index(),
            forall|i: int|
                0 <= i < it.index() ==> (#[trigger] target@[i]).0 == source[i].0
                    && schema_converts(source[i].1, target@[i].1),
    {
        let (name, schema) = entry;
        match DataSchema::try_from_unchecked(schema) {
            Ok(mirror) => {
                target.push((name, mirror));
            },
            Err(e) => {
                proof {
                    first_entry_fault_stays(source, it.index() + 1, source.len() as int);
                }
                return Err(e);
            },
        }
    }
    Ok(target)
}

impl<DS, AS, OS> ArraySchema<DS, AS, OS> {
    /// Converts an unchecked array: the items convert in their order, and the
    /// first failure ends the conversion.
    pub fn try_from_unchecked(array: UncheckedArraySchema<DS, AS, OS>) -> (r: Result<Self, Error>)
        ensures
            outcome_is(
                r,
                array_tag_fault(array),
                |target: ArraySchema<DS, AS, OS>| array_converts(array, target),
            ),
        decreases array, 1int,
    {
        let UncheckedArraySchema { items, min_items, max_items, other } = array;
        let items = match items {
            Some(BoxedElemOrVec::Elem(item)) => {
                match DataSchema::try_from_unchecked(*item) {
                    Ok(mirror) => Some(BoxedElemOrVec::Elem(Box::new(mirror))),
                    Err(e) => {
                        return Err(e);
                    },
                }
            },
            Some(BoxedElemOrVec::Vec(items)) => {
                match convert_schemas(items) {
                    Ok(mirror) => Some(BoxedElemOrVec::Vec(mirror)),
                    Err(e) => {
                        return Err(e);
                    },
                }
            },
            None => None,
        };
        Ok(ArraySchema { items, min_items, max_items, other })
    }
}

impl<DS, AS, OS> ObjectSchema<DS, AS, OS> {
    /// Converts an unchecked object: the properties keep their names and
    /// their order, their schemas convert in that order, and the first
    /// failure ends the conversion.
    pub fn try_from_unchecked(object: UncheckedObjectSchema<DS, AS, OS>) -> (r: Result<Self, Error>)
        ensures
            outcome_is(
                r,
                object_tag_fault(object),
                |target: ObjectSchema<DS, AS, OS>| object_converts(object, target),
            ),
        decreases object, 1int,
    {
        let UncheckedObjectSchema { properties, required, other } = object;
        let properties = match properties {
            Some(map) => {
                match convert_entries(map.entries) {
                    Ok(entries) => Some(OrderedMap { entries }),
                    Err(e) => {
                        return Err(e);
                    },
                }
            },
            None => None,
        };
        Ok(ObjectSchema { properties, required, other })
    }
}

impl<DS, AS, OS> DataSchemaSubtype<DS, AS, OS> {
    /// Converts an unchecked kind: an array and an object convert what lies
    /// below them, every other kind is taken as it stands.
    pub fn try_from_unchecked(subtype: UncheckedDataSchemaSubtype<DS, AS, OS>) -> (r: Result<
        Self,
        Error,
    >)
        ensures
            outcome_is(
                r,
                subtype_tag_fault(Some(subtype)),
                |target: DataSchemaSubtype<DS, AS, OS>| subtype_converts(subtype, target),
            ),
        decreases subtype, 2int,
    {
        match subtype {
            UncheckedDataSchemaSubtype::Array(array) => {
                match ArraySchema::try_from_unchecked(array) {
                    Ok(mirror) => Ok(DataSchemaSubtype::Array(mirror)),
                    Err(e) => Err(e),
                }
            },
            UncheckedDataSchemaSubtype::Boolean => Ok(DataSchemaSubtype::Boolean),
            UncheckedDataSchemaSubtype::Number(number) => Ok(DataSchemaSubtype::Number(number)),
            UncheckedDataSchemaSubtype::Integer(integer) => Ok(DataSchemaSubtype::Integer(integer)),
            UncheckedDataSchemaSubtype::Object(object) => {
                match ObjectSchema::try_from_unchecked(object) {
                    Ok(mirror) => Ok(DataSchemaSubtype::Object(mirror)),
                    Err(e) => Err(e),
                }
            },
            UncheckedDataSchemaSubtype::String(string) => Ok(DataSchemaSubtype::String(string)),
            UncheckedDataSchemaSubtype::Null => Ok(DataSchemaSubtype::Null),
        }
    }
}

impl<DS, AS, OS> DataSchema<DS, AS, OS> {
    /// Converts an unchecked schema into the final one.
    ///
    /// The conversion succeeds exactly where every key of every
    /// multi-language map of the tree is a well-formed language tag, and the
    /// result then mirrors the unchecked tree. Else it reports the first bad
    /// key. The numeric constraints are not validated here.
    pub fn try_from_unchecked(schema: UncheckedDataSchema<DS, AS, OS>) -> (r: Result<Self, Error>)
        ensures
            outcome_is(
                r,
                schema_tag_fault(schema),
                |target: DataSchema<DS, AS, OS>| schema_converts(schema, target),
            ),
        decreases schema, 1int,
    {
        let UncheckedDataSchema {
            attype,
            title,
            titles,
            description,
            descriptions,
            constant,
            default,
            unit,
            one_of,
            enumeration,
            read_only,
            write_only,
            format,
            subtype,
            other,
        } = schema;
        let titles = match build_texts(titles) {
            Ok(texts) => texts,
            Err(e) => {
                return Err(e);
            },
        };
        let descriptions = match build_texts(descriptions) {
            Ok(texts) => texts,
            Err(e) => {
                return Err(e);
            },
        };
        let one_of = match one_of {
            Some(members) => {
                match convert_schemas(members) {
                    Ok(mirror) => Some(mirror),
                    Err(e) => {
                        return Err(e);
                    },
                }
            },
            None => None,
        };
        let subtype = match subtype {
            Some(subtype) => {
                match DataSchemaSubtype::try_from_unchecked(subtype) {
                    Ok(mirror) => Some(mirror),
                    Err(e) => {
                        return Err(e);
                    },
                }
            },
            None => None,
        };
        Ok(
            DataSchema {
                attype,
                title,
                titles,
                description,
                descriptions,
                constant,
                default,
                unit,
                one_of,
                enumeration,
                read_only,
                write_only,
                format,
                subtype,
                other,
            },
        )
    }
}

impl<DS, AS, OS> TryFrom<UncheckedDataSchema<DS, AS, OS>> for DataSchema<DS, AS, OS> {
    type Error = Error;

    /// Converts an unchecked schema into the final one.
    fn try_from(source: UncheckedDataSchema<DS, AS, OS>) -> (r: Result<Self, Error>)
        ensures
            outcome_is(
                r,
                schema_tag_fault(source),
                |target: DataSchema<DS, AS, OS>| schema_converts(source, target),
            ),
    {
        DataSchema::try_from_unchecked(source)
    }
}

/// What `try_from` returns is stated by its own `ensures`; it is not given as
/// a function of the source.
impl<DS, AS, OS> vstd::std_specs::convert::TryFromSpecImpl<UncheckedDataSchema<DS, AS, OS>> for DataSchema<DS, AS, OS> {
    open spec fn obeys_try_from_spec() -> bool {
        false
    }

    open spec fn try_from_spec(source: UncheckedDataSchema<DS, AS, OS>) -> Result<Self, Error> {
        arbitrary()
    }
}

impl<DS, AS, OS> TryFrom<UncheckedDataSchemaSubtype<DS, AS, OS>> for DataSchemaSubtype<DS, AS, OS> {
    type Error = Error;

    /// Converts an unchecked kind into the final one.
    fn try_from(source: UncheckedDataSchemaSubtype<DS, AS, OS>) -> (r: Result<Self, Error>)
        ensures
            outcome_is(
                r,
                subtype_tag_fault(Some(source)),
                |target: DataSchemaSubtype<DS, AS, OS>| subtype_converts(source, target),
            ),
    {
        DataSchemaSubtype::try_from_unchecked(source)
    }
}

/// What `try_from` returns is stated by its own `ensures`; it is not given as
/// a function of the source.
impl<DS, AS, OS> vstd::std_specs::convert::TryFromSpecImpl<UncheckedDataSchemaSubtype<DS, AS, OS>> for DataSchemaSubtype<DS, AS, OS> {
    open spec fn obeys_try_from_spec() -> bool {
        false
    }

    open spec fn try_from_spec(source: UncheckedDataSchemaSubtype<DS, AS, OS>) -> Result<Self, Error> {
        arbitrary()
    }
}

impl<DS, AS, OS> TryFrom<UncheckedArraySchema<DS, AS, OS>> for ArraySchema<DS, AS, OS> {
    type Error = Error;

    /// Converts an unchecked array into the final one.
    fn try_from(source: UncheckedArraySchema<DS, AS, OS>) -> (r: Result<Self, Error>)
        ensures
            outcome_is(
                r,
                array_tag_fault(source),
                |target: ArraySchema<DS, AS, OS>| array_converts(source, target),
            ),
    {
        ArraySchema::try_from_unchecked(source)
    }
}

/// What `try_from` returns is stated by its own `ensures`; it is not given as
/// a function of the source.
impl<DS, AS, OS> vstd::std_specs::convert::TryFromSpecImpl<UncheckedArraySchema<DS, AS, OS>> for ArraySchema<DS, AS, OS> {
    open spec fn obeys_try_from_spec() -> bool {
        false
    }

    open spec fn try_from_spec(source: UncheckedArraySchema<DS, AS, OS>) -> Result<Self, Error> {
        arbitrary()
    }
}

impl<DS, AS, OS> TryFrom<UncheckedObjectSchema<DS, AS, OS>> for ObjectSchema<DS, AS, OS> {
    type Error = Error;

    /// Converts an unchecked object into the final one.
    fn try_from(source: UncheckedObjectSchema<DS, AS, OS>) -> (r: Result<Self, Error>)
        ensures
            outcome_is(
                r,
                object_tag_fault(source),
                |target: ObjectSchema<DS, AS, OS>| object_converts(source, target),
            ),
    {
        ObjectSchema::try_from_unchecked(source)
    }
}

/// What `try_from` returns is stated by its own `ensures`; it is not given as
/// a function of the source.
impl<DS, AS, OS> vstd::std_specs::convert::TryFromSpecImpl<UncheckedObjectSchema<DS, AS, OS>> for ObjectSchema<DS, AS, OS> {
    open spec fn obeys_try_from_spec() -> bool {
        false
    }

    open spec fn try_from_spec(source: UncheckedObjectSchema<DS, AS, OS>) -> Result<Self, Error> {
        arbitrary()
    }
}

} // verus!
