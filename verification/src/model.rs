//! What a builder of a data schema holds, as a mathematical value.
//!
//! Every builder, whatever its type, stands for one [`BuilderModel`]. The
//! operations of the builders are stated as functions on models, and the
//! conversions as relations between a model and the tree that comes of it.

use vstd::prelude::*;
use serde_json::Value;
use crate::data_schema::{PartialDataSchema, StatelessDataSchemaType, UncheckedDataSchema};
use crate::human_readable_info::{InfoModel, tags_view};
use crate::number::Double;
use crate::ordered_map::inserted;
use crate::thing::{
    BoxedElemOrVec, IntegerSchema, Maximum, Minimum, NonZeroU64, NumberSchema, StringSchema,
    UncheckedDataSchemaSubtype,
};

verus! {

/// A marking of a schema as readable only or writable only.
pub enum Access {
    /// The data can only be read.
    ReadOnly,
    /// The data can only be written.
    WriteOnly,
}

/// What a builder has been specialized into, with the fields of that kind.
pub enum Kind<DS, AS, OS> {
    /// Not specialized yet.
    Generic,
    /// A boolean, the null value, or no kind at all (a constant).
    Stateless(Option<StatelessDataSchemaType>),
    /// An array with one schema for each position.
    Tuple { items: Seq<UncheckedDataSchema<DS, AS, OS>>, other: AS },
    /// An array with at most one schema, for all of its elements.
    List {
        item: Option<UncheckedDataSchema<DS, AS, OS>>,
        min_items: Option<u32>,
        max_items: Option<u32>,
        other: AS,
    },
    /// A number.
    Number(NumberSchema),
    /// An integer.
    Integer(IntegerSchema),
    /// An object.
    Object {
        properties: Seq<(Seq<char>, UncheckedDataSchema<DS, AS, OS>)>,
        required: Seq<String>,
        extension: OS,
    },
    /// A string.
    String(StringSchema),
    /// One of the values of the builder's enumeration.
    Enumeration,
    /// One of the members of the builder's union.
    Union,
}

/// What a builder holds.
pub struct BuilderModel<DS, AS, OS> {
    /// The fields that people read.
    pub info: InfoModel,
    /// The one value that the data has.
    pub constant: Option<Value>,
    /// The value that the data has where none is given.
    pub default: Option<Value>,
    /// The unit of the data.
    pub unit: Option<String>,
    /// The members of the union, in the order in which they were added.
    pub one_of: Seq<UncheckedDataSchema<DS, AS, OS>>,
    /// The values of the enumeration, in the order in which they were added.
    pub enumeration: Seq<Value>,
    /// The flag that says that the data can only be read.
    pub read_only: bool,
    /// The flag that says that the data can only be written.
    pub write_only: bool,
    /// A hint on the format of the data.
    pub format: Option<String>,
    /// Data schema extension.
    pub other: DS,
    /// What the builder has been specialized into.
    pub kind: Kind<DS, AS, OS>,
    /// The markings that wrap the builder, the innermost first.
    pub wrappers: Seq<Access>,
}

impl<DS, AS, OS> BuilderModel<DS, AS, OS> {
    /// The builder that holds nothing but the extension `other`.
    pub open spec fn fresh(other: DS) -> Self {
        BuilderModel {
            info: InfoModel::empty(),
            constant: None,
            default: None,
            unit: None,
            one_of: Seq::empty(),
            enumeration: Seq::empty(),
            read_only: false,
            write_only: false,
            format: None,
            other,
            kind: Kind::Generic,
            wrappers: Seq::empty(),
        }
    }

    /// The builder with the extension `other` in place of its own. The
    /// members of a union are of the old extension's type and do not stay.
    pub open spec fn extended<T>(self, other: T) -> BuilderModel<T, AS, OS> {
        BuilderModel {
            info: self.info,
            constant: self.constant,
            default: self.default,
            unit: self.unit,
            one_of: Seq::empty(),
            enumeration: self.enumeration,
            read_only: self.read_only,
            write_only: self.write_only,
            format: self.format,
            other,
            kind: Kind::Generic,
            wrappers: Seq::empty(),
        }
    }

    /// The unit is `value`.
    pub open spec fn with_unit(self, value: String) -> Self {
        BuilderModel { unit: Some(value), ..self }
    }

    /// The format is `value`.
    pub open spec fn with_format(self, value: String) -> Self {
        BuilderModel { format: Some(value), ..self }
    }

    /// The default value is `value`.
    pub open spec fn with_default(self, value: Value) -> Self {
        BuilderModel { default: Some(value), ..self }
    }

    /// The fields that people read are `info`.
    pub open spec fn with_info(self, info: InfoModel) -> Self {
        BuilderModel { info, ..self }
    }

    /// Whether the schema that comes of the builder can only be read: the
    /// outermost marking decides, and the flag where there is no marking.
    pub open spec fn reads_only(self) -> bool {
        if self.wrappers.len() > 0 {
            self.wrappers.last() is ReadOnly
        } else {
            self.read_only
        }
    }

    /// Whether the schema that comes of the builder can only be written: the
    /// outermost marking decides, and the flag where there is no marking.
    pub open spec fn writes_only(self) -> bool {
        if self.wrappers.len() > 0 {
            self.wrappers.last() is WriteOnly
        } else {
            self.write_only
        }
    }

    /// Whether the two flags of the builder are not both set. A fresh builder
    /// is so, and every operation keeps a builder so.
    pub open spec fn well_marked(self) -> bool {
        !(self.read_only && self.write_only)
    }

    /// The plain builder that a wrapped builder turns into: the outermost
    /// marking sets its flag and clears the other, and the markings are gone.
    pub open spec fn builder_form(self) -> Self {
        BuilderModel {
            read_only: self.reads_only(),
            write_only: self.writes_only(),
            wrappers: Seq::empty(),
            ..self
        }
    }

    /// The builder specialized into `kind`.
    pub open spec fn specialized(self, kind: Kind<DS, AS, OS>) -> Self {
        BuilderModel { kind, ..self.builder_form() }
    }

    /// The builder marked as readable only: the one flag is set and the
    /// other cleared.
    pub open spec fn marked_read_only(self) -> Self {
        BuilderModel {
            read_only: true,
            write_only: false,
            wrappers: self.wrappers.push(Access::ReadOnly),
            ..self
        }
    }

    /// The builder marked as writable only: the one flag is set and the
    /// other cleared.
    pub open spec fn marked_write_only(self) -> Self {
        BuilderModel {
            read_only: false,
            write_only: true,
            wrappers: self.wrappers.push(Access::WriteOnly),
            ..self
        }
    }

    /// The builder of the constant `value`: it has no kind and is marked as
    /// readable only.
    pub open spec fn as_constant(self, value: Value) -> Self {
        (BuilderModel {
            constant: Some(value),
            ..self.specialized(Kind::Stateless(None))
        }).marked_read_only()
    }

    /// The builder wrapped in the marking `access`, its flags as they are.
    pub open spec fn wrapped(self, access: Access) -> Self {
        BuilderModel { wrappers: self.wrappers.push(access), ..self }
    }

    /// The builder of an enumeration with `value` after the values that are
    /// there.
    pub open spec fn enumerated(self, value: Value) -> Self {
        BuilderModel { kind: Kind::Enumeration, enumeration: self.enumeration.push(value), ..self }
    }

    /// The builder of a union with `member` after the members that are there.
    pub open spec fn with_member(self, member: UncheckedDataSchema<DS, AS, OS>) -> Self {
        BuilderModel { kind: Kind::Union, one_of: self.one_of.push(member), ..self }
    }

    /// The tuple with `item` after the items that are there.
    pub open spec fn with_item(self, item: UncheckedDataSchema<DS, AS, OS>) -> Self {
        match self.kind {
            Kind::Tuple { items, other } => BuilderModel {
                kind: Kind::Tuple { items: items.push(item), other },
                ..self
            },
            _ => self,
        }
    }

    /// The list whose elements have the schema `item`.
    pub open spec fn with_list_item(self, item: UncheckedDataSchema<DS, AS, OS>) -> Self {
        match self.kind {
            Kind::List { item: _, min_items, max_items, other } => BuilderModel {
                kind: Kind::List { item: Some(item), min_items, max_items, other },
                ..self
            },
            _ => self,
        }
    }

    /// The list with at least `value` elements.
    pub open spec fn with_min_items(self, value: u32) -> Self {
        match self.kind {
            Kind::List { item, min_items: _, max_items, other } => BuilderModel {
                kind: Kind::List { item, min_items: Some(value), max_items, other },
                ..self
            },
            _ => self,
        }
    }

    /// The list with at most `value` elements.
    pub open spec fn with_max_items(self, value: u32) -> Self {
        match self.kind {
            Kind::List { item, min_items, max_items: _, other } => BuilderModel {
                kind: Kind::List { item, min_items, max_items: Some(value), other },
                ..self
            },
            _ => self,
        }
    }

    /// The number with the lower bound `bound`, whatever bound it had.
    pub open spec fn with_number_minimum(self, bound: Minimum<Double>) -> Self {
        match self.kind {
            Kind::Number(number) => BuilderModel {
                kind: Kind::Number(NumberSchema { minimum: Some(bound), ..number }),
                ..self
            },
            _ => self,
        }
    }

    /// The number with the upper bound `bound`, whatever bound it had.
    pub open spec fn with_number_maximum(self, bound: Maximum<Double>) -> Self {
        match self.kind {
            Kind::Number(number) => BuilderModel {
                kind: Kind::Number(NumberSchema { maximum: Some(bound), ..number }),
                ..self
            },
            _ => self,
        }
    }

    /// The number with the step `value`.
    pub open spec fn with_number_multiple_of(self, value: Double) -> Self {
        match self.kind {
            Kind::Number(number) => BuilderModel {
                kind: Kind::Number(NumberSchema { multiple_of: Some(value), ..number }),
                ..self
            },
            _ => self,
        }
    }

    /// The integer with the lower bound `bound`, whatever bound it had.
    pub open spec fn with_integer_minimum(self, bound: Minimum<i64>) -> Self {
        match self.kind {
            Kind::Integer(integer) => BuilderModel {
                kind: Kind::Integer(IntegerSchema { minimum: Some(bound), ..integer }),
                ..self
            },
            _ => self,
        }
    }

    /// The integer with the upper bound `bound`, whatever bound it had.
    pub open spec fn with_integer_maximum(self, bound: Maximum<i64>) -> Self {
        match self.kind {
            Kind::Integer(integer) => BuilderModel {
                kind: Kind::Integer(IntegerSchema { maximum: Some(bound), ..integer }),
                ..self
            },
            _ => self,
        }
    }

    /// The integer with the step `value`.
    pub open spec fn with_integer_multiple_of(self, value: NonZeroU64) -> Self {
        match self.kind {
            Kind::Integer(integer) => BuilderModel {
                kind: Kind::Integer(IntegerSchema { multiple_of: Some(value), ..integer }),
                ..self
            },
            _ => self,
        }
    }

    /// The object with the property `name` of schema `schema`: a name that
    /// is there takes the schema and keeps its place, a new name comes last;
    /// a required property has its name added to the required names.
    pub open spec fn with_property(
        self,
        name: String,
        required: bool,
        schema: UncheckedDataSchema<DS, AS, OS>,
    ) -> Self {
        match self.kind {
            Kind::Object { properties, required: names, extension } => BuilderModel {
                kind: Kind::Object {
                    properties: inserted(properties, name@, schema),
                    required: if required {
                        names.push(name)
                    } else {
                        names
                    },
                    extension,
                },
                ..self
            },
            _ => self,
        }
    }

    /// The string of at least `value` characters.
    pub open spec fn with_min_length(self, value: u32) -> Self {
        match self.kind {
            Kind::String(string) => BuilderModel {
                kind: Kind::String(StringSchema { min_length: Some(value), ..string }),
                ..self
            },
            _ => self,
        }
    }

    /// The string of at most `value` characters.
    pub open spec fn with_max_length(self, value: u32) -> Self {
        match self.kind {
            Kind::String(string) => BuilderModel {
                kind: Kind::String(StringSchema { max_length: Some(value), ..string }),
                ..self
            },
            _ => self,
        }
    }

    /// The string that matches `value`.
    pub open spec fn with_pattern(self, value: String) -> Self {
        match self.kind {
            Kind::String(string) => BuilderModel {
                kind: Kind::String(StringSchema { pattern: Some(value), ..string }),
                ..self
            },
            _ => self,
        }
    }

    /// The string whose content is encoded as `value` says.
    pub open spec fn with_content_encoding(self, value: String) -> Self {
        match self.kind {
            Kind::String(string) => BuilderModel {
                kind: Kind::String(StringSchema { content_encoding: Some(value), ..string }),
                ..self
            },
            _ => self,
        }
    }

    /// The string whose content has the media type `value`.
    pub open spec fn with_content_media_type(self, value: String) -> Self {
        match self.kind {
            Kind::String(string) => BuilderModel {
                kind: Kind::String(StringSchema { content_media_type: Some(value), ..string }),
                ..self
            },
            _ => self,
        }
    }

}

/// Whether `subtype` is the kind of schema that comes of a builder of `kind`.
///
/// A tuple always has its items, as a list of schemas that may be empty, and
/// never a least or greatest count. A list has its one item or none. An
/// object without properties has none rather than an empty map, and likewise
/// for the required names. An enumeration, a union and a constant have no
/// kind. A builder that is not specialized has no schema.
pub open spec fn subtype_matches<DS, AS, OS>(
    kind: Kind<DS, AS, OS>,
    subtype: Option<UncheckedDataSchemaSubtype<DS, AS, OS>>,
) -> bool {
    match kind {
        Kind::Generic => false,
        Kind::Stateless(Some(StatelessDataSchemaType::Boolean)) => subtype matches Some(
            UncheckedDataSchemaSubtype::Boolean,
        ),
        Kind::Stateless(Some(StatelessDataSchemaType::Null)) => subtype matches Some(
            UncheckedDataSchemaSubtype::Null,
        ),
        Kind::Stateless(None) => subtype is None,
        Kind::Tuple { items, other } => {
            &&& subtype matches Some(UncheckedDataSchemaSubtype::Array(array))
            &&& array.items matches Some(BoxedElemOrVec::Vec(schemas))
            &&& schemas@ == items
            &&& array.min_items is None
            &&& array.max_items is None
            &&& array.other == other
        },
        Kind::List { item, min_items, max_items, other } => {
            &&& subtype matches Some(UncheckedDataSchemaSubtype::Array(array))
            &&& match item {
                Some(schema) => array.items matches Some(BoxedElemOrVec::Elem(boxed)) && *boxed
                    == schema,
                None => array.items is None,
            }
            &&& array.min_items == min_items
            &&& array.max_items == max_items
            &&& array.other == other
        },
        Kind::Number(number) => subtype == Some(
            UncheckedDataSchemaSubtype::<DS, AS, OS>::Number(number),
        ),
        Kind::Integer(integer) => subtype == Some(
            UncheckedDataSchemaSubtype::<DS, AS, OS>::Integer(integer),
        ),
        Kind::Object { properties, required, extension } => {
            &&& subtype matches Some(UncheckedDataSchemaSubtype::Object(object))
            &&& if properties.len() == 0 {
                object.properties is None
            } else {
                object.properties is Some && object.properties.unwrap()@ == properties
            }
            &&& if required.len() == 0 {
                object.required is None
            } else {
                object.required is Some && object.required.unwrap()@ == required
            }
            &&& object.other == extension
        },
        Kind::String(string) => subtype == Some(
            UncheckedDataSchemaSubtype::<DS, AS, OS>::String(string),
        ),
        Kind::Enumeration => subtype is None,
        Kind::Union => subtype is None,
    }
}

/// Whether `schema` is the unchecked schema that comes of a builder that
/// holds `model`.
///
/// The fields that every schema has are those of the builder. The constant
/// stays only with a builder that has no kind of its own; the members of the
/// union are there for a union and the values of the enumeration for an
/// enumeration, and absent otherwise. Where the builder is marked, the
/// outermost marking alone says which of the two flags is set.
pub open spec fn unchecked_matches<DS, AS, OS>(
    model: BuilderModel<DS, AS, OS>,
    schema: UncheckedDataSchema<DS, AS, OS>,
) -> bool {
    &&& tags_view(schema.attype) == model.info.attype
    &&& schema.title == model.info.title
    &&& schema.titles == model.info.titles
    &&& schema.description == model.info.description
    &&& schema.descriptions == model.info.descriptions
    &&& schema.constant == (if model.kind is Stateless {
        model.constant
    } else {
        None
    })
    &&& schema.default == model.default
    &&& schema.unit == model.unit
    &&& if model.kind is Union {
        schema.one_of is Some && schema.one_of.unwrap()@ == model.one_of
    } else {
        schema.one_of is None
    }
    &&& if model.kind is Enumeration {
        schema.enumeration is Some && schema.enumeration.unwrap()@ == model.enumeration
    } else {
        schema.enumeration is None
    }
    &&& schema.read_only == model.reads_only()
    &&& schema.write_only == model.writes_only()
    &&& schema.format == model.format
    &&& subtype_matches(model.kind, schema.subtype)
    &&& schema.other == model.other
}

/// Whether `schema` is the partial schema that comes of a builder that holds
/// `model`: as [`unchecked_matches`], without the fields that people read.
pub open spec fn partial_matches<DS, AS, OS>(
    model: BuilderModel<DS, AS, OS>,
    schema: PartialDataSchema<DS, AS, OS>,
) -> bool {
    &&& schema.constant == (if model.kind is Stateless {
        model.constant
    } else {
        None
    })
    &&& schema.default == model.default
    &&& schema.unit == model.unit
    &&& if model.kind is Union {
        schema.one_of is Some && schema.one_of.unwrap()@ == model.one_of
    } else {
        schema.one_of is None
    }
    &&& if model.kind is Enumeration {
        schema.enumeration is Some && schema.enumeration.unwrap()@ == model.enumeration
    } else {
        schema.enumeration is None
    }
    &&& schema.read_only == model.reads_only()
    &&& schema.write_only == model.writes_only()
    &&& schema.format == model.format
    &&& subtype_matches(model.kind, schema.subtype)
    &&& schema.other == model.other
}

} // verus!
