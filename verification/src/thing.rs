//! The data schema in its final form, and the parts that the unchecked tree
//! shares with it.

use vstd::prelude::*;
use serde_json::Value;
use crate::data_schema::UncheckedDataSchema;
use crate::lang::MultiLanguage;
use crate::number::Double;
use crate::ordered_map::OrderedMap;

verus! {

/// `serde_json::Value`: a structured value that the schema carries and never
/// looks into.
#[verifier::external_type_specification]
#[verifier::external_body]
pub struct ExValue(Value);

/// An integer that is not zero.
#[derive(Clone, Copy, Debug, PartialEq, Eq, Hash)]
pub struct NonZeroU64 {
    value: u64,
}

impl NonZeroU64 {
    #[verifier::type_invariant]
    spec fn is_not_zero(self) -> bool {
        self.value != 0
    }

    /// The integer.
    pub closed spec fn value(self) -> u64 {
        self.value
    }

    /// The integer `value` as one that is not zero: nothing for zero.
    pub fn new(value: u64) -> (r: Option<NonZeroU64>)
        ensures
            match r {
                Some(n) => value != 0 && n.value() == value,
                None => value == 0,
            },
    {
        if value == 0 {
            None
        } else {
            Some(NonZeroU64 { value })
        }
    }

    /// The integer, which is not zero.
    pub fn get(&self) -> (r: u64)
        ensures
            r == self.value(),
            r != 0,
    {
        proof {
            use_type_invariant(self);
        }
        self.value
    }
}

/// A lower bound, which the values may or may not reach.
#[derive(Clone, Copy, Debug, PartialEq, Eq, Hash)]
pub enum Minimum<T> {
    /// The values are at least this.
    Inclusive(T),
    /// The values are above this.
    Exclusive(T),
}

/// An upper bound, which the values may or may not reach.
#[derive(Clone, Copy, Debug, PartialEq, Eq, Hash)]
pub enum Maximum<T> {
    /// The values are at most this.
    Inclusive(T),
    /// The values are below this.
    Exclusive(T),
}

impl<T> Minimum<T> {
    /// The number of the bound.
    pub open spec fn value(self) -> T {
        match self {
            Minimum::Inclusive(v) => v,
            Minimum::Exclusive(v) => v,
        }
    }

    /// Whether the values may not reach the bound.
    pub open spec fn exclusive(self) -> bool {
        self is Exclusive
    }
}

impl<T> Maximum<T> {
    /// The number of the bound.
    pub open spec fn value(self) -> T {
        match self {
            Maximum::Inclusive(v) => v,
            Maximum::Exclusive(v) => v,
        }
    }

    /// Whether the values may not reach the bound.
    pub open spec fn exclusive(self) -> bool {
        self is Exclusive
    }
}

/// The items of an array: one schema for every element, or one schema for
/// each position.
#[derive(Debug, PartialEq)]
pub enum BoxedElemOrVec<T> {
    /// Every element has this schema.
    Elem(Box<T>),
    /// The element at each position has the schema at that position.
    Vec(Vec<T>),
}

/// What is asked of a number.
#[derive(Clone, Debug, Default, PartialEq)]
pub struct NumberSchema {
    /// The upper bound.
    pub maximum: Option<Maximum<Double>>,
    /// The lower bound.
    pub minimum: Option<Minimum<Double>>,
    /// The step of which the number is a multiple.
    pub multiple_of: Option<Double>,
}

/// What is asked of an integer.
#[derive(Clone, Debug, Default, PartialEq, Eq, Hash)]
pub struct IntegerSchema {
    /// The upper bound.
    pub maximum: Option<Maximum<i64>>,
    /// The lower bound.
    pub minimum: Option<Minimum<i64>>,
    /// The step of which the integer is a multiple.
    pub multiple_of: Option<NonZeroU64>,
}

/// What is asked of a string.
#[derive(Clone, Debug, Default, PartialEq, Eq, Hash)]
pub struct StringSchema {
    /// The least length.
    pub min_length: Option<u32>,
    /// The greatest length.
    pub max_length: Option<u32>,
    /// The pattern that the string matches.
    pub pattern: Option<String>,
    /// How the content is encoded.
    pub content_encoding: Option<String>,
    /// The media type of the content.
    pub content_media_type: Option<String>,
}

/// What is asked of an array, before validation.
#[derive(Debug, Default, PartialEq)]
pub struct UncheckedArraySchema<DS, AS, OS> {
    /// The schemas of the elements.
    pub items: Option<BoxedElemOrVec<UncheckedDataSchema<DS, AS, OS>>>,
    /// The least number of elements.
    pub min_items: Option<u32>,
    /// The greatest number of elements.
    pub max_items: Option<u32>,
    /// Array schema extension.
    pub other: AS,
}

/// What is asked of an object, before validation.
#[derive(Debug, Default, PartialEq)]
pub struct UncheckedObjectSchema<DS, AS, OS> {
    /// The schemas of the properties, by name.
    pub properties: Option<OrderedMap<UncheckedDataSchema<DS, AS, OS>>>,
    /// The names of the properties that must be present.
    pub required: Option<Vec<String>>,
    /// Object schema extension.
    pub other: OS,
}

/// The kind of data that a schema describes, before validation.
#[derive(Debug, PartialEq)]
pub enum UncheckedDataSchemaSubtype<DS, AS, OS> {
    /// An array.
    Array(UncheckedArraySchema<DS, AS, OS>),
    /// A boolean.
    Boolean,
    /// A number.
    Number(NumberSchema),
    /// An integer.
    Integer(IntegerSchema),
    /// An object.
    Object(UncheckedObjectSchema<DS, AS, OS>),
    /// A string.
    String(StringSchema),
    /// The null value.
    Null,
}

/// What is asked of an array.
#[derive(Debug, Default, PartialEq)]
pub struct ArraySchema<DS, AS, OS> {
    /// The schemas of the elements.
    pub items: Option<BoxedElemOrVec<DataSchema<DS, AS, OS>>>,
    /// The least number of elements.
    pub min_items: Option<u32>,
    /// The greatest number of elements.
    pub max_items: Option<u32>,
    /// Array schema extension.
    pub other: AS,
}

/// What is asked of an object.
#[derive(Debug, Default, PartialEq)]
pub struct ObjectSchema<DS, AS, OS> {
    /// The schemas of the properties, by name.
    pub properties: Option<OrderedMap<DataSchema<DS, AS, OS>>>,
    /// The names of the properties that must be present.
    pub required: Option<Vec<String>>,
    /// Object schema extension.
    pub other: OS,
}

/// The kind of data that a schema describes.
#[derive(Debug, PartialEq)]
pub enum DataSchemaSubtype<DS, AS, OS> {
    /// An array.
    Array(ArraySchema<DS, AS, OS>),
    /// A boolean.
    Boolean,
    /// A number.
    Number(NumberSchema),
    /// An integer.
    Integer(IntegerSchema),
    /// An object.
    Object(ObjectSchema<DS, AS, OS>),
    /// A string.
    String(StringSchema),
    /// The null value.
    Null,
}

/// The description of a piece of data, in its final form.
#[derive(Debug, Default, PartialEq)]
pub struct DataSchema<DS, AS, OS> {
    /// Semantic type tags.
    pub attype: Option<Vec<String>>,
    /// A title.
    pub title: Option<String>,
    /// The title in several languages.
    pub titles: Option<MultiLanguage>,
    /// A description.
    pub description: Option<String>,
    /// The description in several languages.
    pub descriptions: Option<MultiLanguage>,
    /// The one value that the data has.
    pub constant: Option<Value>,
    /// The value that the data has where none is given.
    pub default: Option<Value>,
    /// The unit of the data.
    pub unit: Option<String>,
    /// The schemas of which the data meets one.
    pub one_of: Option<Vec<DataSchema<DS, AS, OS>>>,
    /// The values of which the data is one.
    pub enumeration: Option<Vec<Value>>,
    /// Whether the data can only be read.
    pub read_only: bool,
    /// Whether the data can only be written.
    pub write_only: bool,
    /// A hint on the format of the data.
    pub format: Option<String>,
    /// The kind of the data.
    pub subtype: Option<DataSchemaSubtype<DS, AS, OS>>,
    /// Data schema extension.
    pub other: DS,
}

} // verus!
