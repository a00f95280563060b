//! The builders of data schemas and the unchecked tree that they produce.

use vstd::prelude::*;
use std::marker::PhantomData;
use serde_json::Value;
use crate::extend::{Extend, Extendable};
use crate::human_readable_info::{BuildableHumanReadableInfo, HumanReadableInfo, InfoModel};
use crate::lang::MultiLanguageBuilder;
use crate::model::{BuilderModel, Kind, partial_matches, unchecked_matches};
use crate::number::Double;
use crate::ordered_map::OrderedMap;
use crate::thing::{
    IntegerSchema, Maximum, Minimum, NonZeroU64, NumberSchema, StringSchema,
    UncheckedDataSchemaSubtype,
};

verus! {

/// The state of a builder that still takes extensions.
#[derive(Clone, Copy, Debug, Default, PartialEq, Eq, Hash)]
pub struct ToExtend;

/// The state of a builder whose extensions are complete.
#[derive(Clone, Copy, Debug, Default, PartialEq, Eq, Hash)]
pub struct Extended;

/// The kinds of schema that have no field of their own.
#[derive(Clone, Copy, Debug, PartialEq, Eq, Hash)]
pub enum StatelessDataSchemaType {
    /// A boolean.
    Boolean,
    /// The null value.
    Null,
}

/// The description of a piece of data, before validation.
#[derive(Debug, Default, PartialEq)]
pub struct UncheckedDataSchema<DS, AS, OS> {
    /// Semantic type tags.
    pub attype: Option<Vec<String>>,
    /// A title.
    pub title: Option<String>,
    /// The title in several languages, under unchecked keys.
    pub titles: Option<MultiLanguageBuilder<String>>,
    /// A description.
    pub description: Option<String>,
    /// The description in several languages, under unchecked keys.
    pub descriptions: Option<MultiLanguageBuilder<String>>,
    /// The one value that the data has.
    pub constant: Option<Value>,
    /// The value that the data has where none is given.
    pub default: Option<Value>,
    /// The unit of the data.
    pub unit: Option<String>,
    /// The schemas of which the data meets one.
    pub one_of: Option<Vec<UncheckedDataSchema<DS, AS, OS>>>,
    /// The values of which the data is one.
    pub enumeration: Option<Vec<Value>>,
    /// Whether the data can only be read.
    pub read_only: bool,
    /// Whether the data can only be written.
    pub write_only: bool,
    /// A hint on the format of the data.
    pub format: Option<String>,
    /// The kind of the data.
    pub subtype: Option<UncheckedDataSchemaSubtype<DS, AS, OS>>,
    /// Data schema extension.
    pub other: DS,
}

/// The description of a piece of data without the fields that people read,
/// before validation.
#[derive(Debug, Default, PartialEq)]
pub struct PartialDataSchema<DS, AS, OS> {
    /// The one value that the data has.
    pub constant: Option<Value>,
    /// The value that the data has where none is given.
    pub default: Option<Value>,
    /// The unit of the data.
    pub unit: Option<String>,
    /// The schemas of which the data meets one.
    pub one_of: Option<Vec<UncheckedDataSchema<DS, AS, OS>>>,
    /// The values of which the data is one.
    pub enumeration: Option<Vec<Value>>,
    /// Whether the data can only be read.
    pub read_only: bool,
    /// Whether the data can only be written.
    pub write_only: bool,
    /// A hint on the format of the data.
    pub format: Option<String>,
    /// The kind of the data.
    pub subtype: Option<UncheckedDataSchemaSubtype<DS, AS, OS>>,
    /// Data schema extension.
    pub other: DS,
}

/// A builder of a data schema without the fields that people read.
///
/// It is extended first, one payload at a time, then closed for extension
/// with [`finish_extend`](Self::finish_extend), and then specialized.
#[derive(Debug, PartialEq)]
pub struct PartialDataSchemaBuilder<DS, AS, OS, Status> {
    /// The one value that the data has.
    pub constant: Option<Value>,
    /// The value that the data has where none is given.
    pub default: Option<Value>,
    /// The unit of the data.
    pub unit: Option<String>,
    /// The members of the union.
    pub one_of: Vec<UncheckedDataSchema<DS, AS, OS>>,
    /// The values of the enumeration.
    pub enumeration: Vec<Value>,
    /// Whether the data can only be read.
    pub read_only: bool,
    /// Whether the data can only be written.
    pub write_only: bool,
    /// A hint on the format of the data.
    pub format: Option<String>,
    /// Data schema extension.
    pub other: DS,
    /// The state of the builder.
    pub _marker: PhantomData<Status>,
}

/// A builder of a data schema.
///
/// It is extended first, one payload at a time, then closed for extension
/// with [`finish_extend`](Self::finish_extend), and then specialized. The
/// fields that people read can be set in any state.
#[derive(Debug, PartialEq)]
pub struct DataSchemaBuilder<DS, AS, OS, Status> {
    /// The fields that every schema has.
    pub partial: PartialDataSchemaBuilder<DS, AS, OS, Status>,
    /// The fields that people read.
    pub info: HumanReadableInfo,
}

/// A builder that takes the fields that every data schema has.
pub trait BuildableDataSchema<DS, AS, OS, Status>: Sized {
    /// What the builder holds.
    spec fn model(self) -> BuilderModel<DS, AS, OS>;

    /// Sets the unit.
    fn unit(self, value: String) -> (r: Self)
        ensures
            r.model() == self.model().with_unit(value),
    ;

    /// Sets the format.
    fn format(self, value: String) -> (r: Self)
        ensures
            r.model() == self.model().with_format(value),
    ;

    /// Sets the default value.
    fn default_value(self, value: Value) -> (r: Self)
        ensures
            r.model() == self.model().with_default(value),
    ;
}

impl<DS, AS, OS> PartialDataSchemaBuilder<DS, AS, OS, ToExtend> {
    /// The builder that holds nothing, with the empty form of the extension
    /// `DS`.
    pub fn empty() -> (r: PartialDataSchemaBuilder<<DS as Extendable>::Empty, AS, OS, ToExtend>) where
        DS: Extendable,

        ensures
            r.model() == BuilderModel::<<DS as Extendable>::Empty, AS, OS>::fresh(DS::empty_spec()),
    {
        let r = PartialDataSchemaBuilder {
            constant: None,
            default: None,
            unit: None,
            one_of: Vec::new(),
            enumeration: Vec::new(),
            read_only: false,
            write_only: false,
            format: None,
            other: DS::empty(),
            _marker: PhantomData,
        };
        assert(r.model().one_of =~= Seq::empty());
        assert(r.model().enumeration =~= Seq::empty());
        r
    }

    /// Extends the data schema with the payload that `f` makes.
    pub fn ext_with<F, T>(self, f: F) -> (r: PartialDataSchemaBuilder<
        DS::Target,
        AS,
        OS,
        ToExtend,
    >) where F: FnOnce() -> T, DS: Extend<T>
        requires
            f.requires(()),
        ensures
            exists|t: T| #[trigger]
                f.ensures((), t) && r.model() == self.model().extended(self.other.ext_spec(t)),
    {
        let PartialDataSchemaBuilder {
            constant,
            default,
            unit,
            one_of: _,
            enumeration,
            read_only,
            write_only,
            format,
            other,
            _marker,
        } = self;
        let other = other.ext_with(f);
        let r = PartialDataSchemaBuilder {
            constant,
            default,
            unit,
            one_of: Vec::new(),
            enumeration,
            read_only,
            write_only,
            format,
            other,
            _marker,
        };
        assert(r.model().one_of =~= Seq::empty());
        r
    }

    /// Extends the data schema with the payload `t`.
    pub fn ext<T>(self, t: T) -> (r: PartialDataSchemaBuilder<DS::Target, AS, OS, ToExtend>) where
        DS: Extend<T>,

        ensures
            r.model() == self.model().extended(self.other.ext_spec(t)),
    {
        let PartialDataSchemaBuilder {
            constant,
            default,
            unit,
            one_of: _,
            enumeration,
            read_only,
            write_only,
            format,
            other,
            _marker,
        } = self;
        let other = other.ext(t);
        let r = PartialDataSchemaBuilder {
            constant,
            default,
            unit,
            one_of: Vec::new(),
            enumeration,
            read_only,
            write_only,
            format,
            other,
            _marker,
        };
        assert(r.model().one_of =~= Seq::empty());
        r
    }

    /// Closes the builder for extension and opens it for specialization.
    /// What the builder holds stays as it is.
    pub fn finish_extend(self) -> (r: PartialDataSchemaBuilder<DS, AS, OS, Extended>)
        ensures
            r.model() == self.model(),
    {
        let PartialDataSchemaBuilder {
            constant,
            default,
            unit,
            one_of,
            enumeration,
            read_only,
            write_only,
            format,
            other,
            _marker: _,
        } = self;
        PartialDataSchemaBuilder {
            constant,
            default,
            unit,
            one_of,
            enumeration,
            read_only,
            write_only,
            format,
            other,
            _marker: PhantomData,
        }
    }
}

impl<DS: Default, AS, OS> Default for PartialDataSchemaBuilder<DS, AS, OS, Extended> {
    /// The builder that holds nothing but the default extension.
    fn default() -> (r: Self)
        ensures
            r.model() == BuilderModel::<DS, AS, OS>::fresh(r.other),
    {
        let r = PartialDataSchemaBuilder {
            constant: None,
            default: None,
            unit: None,
            one_of: Vec::new(),
            enumeration: Vec::new(),
            read_only: false,
            write_only: false,
            format: None,
            other: DS::default(),
            _marker: PhantomData,
        };
        assert(r.model().one_of =~= Seq::empty());
        assert(r.model().enumeration =~= Seq::empty());
        r
    }
}

impl<DS, AS, OS, Status> BuildableDataSchema<DS, AS, OS, Status> for PartialDataSchemaBuilder<
    DS,
    AS,
    OS,
    Status,
> {
    open spec fn model(self) -> BuilderModel<DS, AS, OS> {
        BuilderModel {
            info: InfoModel::empty(),
            constant: self.constant,
            default: self.default,
            unit: self.unit,
            one_of: self.one_of@,
            enumeration: self.enumeration@,
            read_only: self.read_only,
            write_only: self.write_only,
            format: self.format,
            other: self.other,
            kind: Kind::Generic,
            wrappers: Seq::empty(),
        }
    }

    fn unit(self, value: String) -> (r: Self) {
        let mut builder = self;
        builder.unit = Some(value);
        builder
    }

    fn format(self, value: String) -> (r: Self) {
        let mut builder = self;
        builder.format = Some(value);
        builder
    }

    fn default_value(self, value: Value) -> (r: Self) {
        let mut builder = self;
        builder.default = Some(value);
        builder
    }
}

impl<DS, AS, OS> DataSchemaBuilder<DS, AS, OS, ToExtend> {
    /// The builder that holds nothing, with the empty form of the extension
    /// `DS`.
    pub fn empty() -> (r: DataSchemaBuilder<<DS as Extendable>::Empty, AS, OS, ToExtend>) where
        DS: Extendable,

        ensures
            r.model() == BuilderModel::<<DS as Extendable>::Empty, AS, OS>::fresh(DS::empty_spec()),
    {
        DataSchemaBuilder {
            partial: PartialDataSchemaBuilder::<DS, AS, OS, ToExtend>::empty(),
            info: HumanReadableInfo {
                attype: None,
                title: None,
                titles: None,
                description: None,
                descriptions: None,
            },
        }
    }

    /// Extends the data schema with the payload that `f` makes.
    pub fn ext_with<F, T>(self, f: F) -> (r: DataSchemaBuilder<DS::Target, AS, OS, ToExtend>) where
        F: FnOnce() -> T,
        DS: Extend<T>,

        requires
            f.requires(()),
        ensures
            exists|t: T| #[trigger]
                f.ensures((), t) && r.model() == self.model().extended(
                    self.partial.other.ext_spec(t),
                ),
    {
        let DataSchemaBuilder { partial, info } = self;
        let partial = partial.ext_with(f);
        DataSchemaBuilder { partial, info }
    }

    /// Extends the data schema with the payload `t`.
    pub fn ext<T>(self, t: T) -> (r: DataSchemaBuilder<DS::Target, AS, OS, ToExtend>) where
        DS: Extend<T>,

        ensures
            r.model() == self.model().extended(self.partial.other.ext_spec(t)),
    {
        let DataSchemaBuilder { partial, info } = self;
        let partial = partial.ext(t);
        DataSchemaBuilder { partial, info }
    }

    /// Closes the builder for extension and opens it for specialization.
    /// What the builder holds stays as it is.
    pub fn finish_extend(self) -> (r: DataSchemaBuilder<DS, AS, OS, Extended>)
        ensures
            r.model() == self.model(),
    {
        let DataSchemaBuilder { partial, info } = self;
        let partial = partial.finish_extend();
        DataSchemaBuilder { partial, info }
    }
}

impl<DS: Default, AS, OS> Default for DataSchemaBuilder<DS, AS, OS, Extended> {
    /// The builder that holds nothing but the default extension.
    fn default() -> (r: Self)
        ensures
            r.model() == BuilderModel::<DS, AS, OS>::fresh(r.partial.other),
    {
        DataSchemaBuilder {
            partial: PartialDataSchemaBuilder::default(),
            info: HumanReadableInfo {
                attype: None,
                title: None,
                titles: None,
                description: None,
                descriptions: None,
            },
        }
    }
}

impl<DS, AS, OS, Status> BuildableDataSchema<DS, AS, OS, Status> for DataSchemaBuilder<
    DS,
    AS,
    OS,
    Status,
> {
    open spec fn model(self) -> BuilderModel<DS, AS, OS> {
        self.partial.model().with_info(self.info.info())
    }

    fn unit(self, value: String) -> (r: Self) {
        let DataSchemaBuilder { partial, info } = self;
        let partial = partial.unit(value);
        DataSchemaBuilder { partial, info }
    }

    fn format(self, value: String) -> (r: Self) {
        let DataSchemaBuilder { partial, info } = self;
        let partial = partial.format(value);
        DataSchemaBuilder { partial, info }
    }

    fn default_value(self, value: Value) -> (r: Self) {
        let DataSchemaBuilder { partial, info } = self;
        let partial = partial.default_value(value);
        DataSchemaBuilder { partial, info }
    }
}

impl<DS, AS, OS, Status> BuildableHumanReadableInfo for DataSchemaBuilder<DS, AS, OS, Status> {
    open spec fn info(self) -> InfoModel {
        self.info.info()
    }

    open spec fn same_but_info(self, other: Self) -> bool {
        other.partial == self.partial
    }

    fn attype(self, value: String) -> (r: Self) {
        let DataSchemaBuilder { partial, info } = self;
        let info = info.attype(value);
        DataSchemaBuilder { partial, info }
    }

    fn title(self, value: String) -> (r: Self) {
        let DataSchemaBuilder { partial, info } = self;
        let info = info.title(value);
        DataSchemaBuilder { partial, info }
    }

    fn titles<F>(self, f: F) -> (r: Self) where
        F: FnOnce(MultiLanguageBuilder<String>) -> MultiLanguageBuilder<String>,
     {
        let DataSchemaBuilder { partial, info } = self;
        let info = info.titles(f);
        DataSchemaBuilder { partial, info }
    }

    fn description(self, value: String) -> (r: Self) {
        let DataSchemaBuilder { partial, info } = self;
        let info = info.description(value);
        DataSchemaBuilder { partial, info }
    }

    fn descriptions<F>(self, f: F) -> (r: Self) where
        F: FnOnce(MultiLanguageBuilder<String>) -> MultiLanguageBuilder<String>,
     {
        let DataSchemaBuilder { partial, info } = self;
        let info = info.descriptions(f);
        DataSchemaBuilder { partial, info }
    }
}

/// The builder of an array with one schema for each position.
#[derive(Debug, PartialEq)]
pub struct TupleDataSchemaBuilder<Inner, DS, AS, OS> {
    /// The builder that was specialized.
    pub inner: Inner,
    /// The schemas of the positions.
    pub items: Vec<UncheckedDataSchema<DS, AS, OS>>,
    /// Array schema extension.
    pub other: AS,
}

/// The builder of an array with at most one schema, for all of its elements.
#[derive(Debug, PartialEq)]
pub struct VecDataSchemaBuilder<Inner, DS, AS, OS> {
    /// The builder that was specialized.
    pub inner: Inner,
    /// The schema of the elements.
    pub item: Option<UncheckedDataSchema<DS, AS, OS>>,
    /// The least number of elements.
    pub min_items: Option<u32>,
    /// The greatest number of elements.
    pub max_items: Option<u32>,
    /// Array schema extension.
    pub other: AS,
}

/// The builder of a number.
#[derive(Debug, PartialEq)]
pub struct NumberDataSchemaBuilder<Inner> {
    /// The builder that was specialized.
    pub inner: Inner,
    /// The upper bound.
    pub maximum: Option<Maximum<Double>>,
    /// The lower bound.
    pub minimum: Option<Minimum<Double>>,
    /// The step of which the number is a multiple.
    pub multiple_of: Option<Double>,
}

/// The builder of an integer.
#[derive(Debug, PartialEq)]
pub struct IntegerDataSchemaBuilder<Inner> {
    /// The builder that was specialized.
    pub inner: Inner,
    /// The upper bound.
    pub maximum: Option<Maximum<i64>>,
    /// The lower bound.
    pub minimum: Option<Minimum<i64>>,
    /// The step of which the integer is a multiple.
    pub multiple_of: Option<NonZeroU64>,
}

/// The builder of an object.
#[derive(Debug, PartialEq)]
pub struct ObjectDataSchemaBuilder<Inner, DS, AS, OS> {
    /// The builder that was specialized.
    pub inner: Inner,
    /// The schemas of the properties, by name.
    pub properties: OrderedMap<UncheckedDataSchema<DS, AS, OS>>,
    /// The names of the properties that must be present.
    pub required: Vec<String>,
    /// Object schema extension.
    pub other: OS,
}

/// The builder of a string.
#[derive(Debug, PartialEq)]
pub struct StringDataSchemaBuilder<Inner> {
    /// The builder that was specialized.
    pub inner: Inner,
    /// The least length.
    pub min_length: Option<u32>,
    /// The greatest length.
    pub max_length: Option<u32>,
    /// The pattern that the string matches.
    pub pattern: Option<String>,
    /// How the content is encoded.
    pub content_encoding: Option<String>,
    /// The media type of the content.
    pub content_media_type: Option<String>,
}

/// The builder of an enumeration; the values are with the inner builder.
#[derive(Debug, PartialEq)]
pub struct EnumDataSchemaBuilder<Inner> {
    /// The builder that was specialized.
    pub inner: Inner,
}

/// The builder of a union; the members are with the inner builder.
#[derive(Debug, PartialEq)]
pub struct OneOfDataSchemaBuilder<Inner> {
    /// The builder that was specialized.
    pub inner: Inner,
}

/// The builder of a schema that has no field of its own kind.
#[derive(Debug, PartialEq)]
pub struct StatelessDataSchemaBuilder<Inner> {
    /// The builder that was specialized.
    pub inner: Inner,
    /// The kind of the schema: none for a constant.
    pub ty: Option<StatelessDataSchemaType>,
}

/// A builder marked as readable only.
#[derive(Debug, PartialEq)]
pub struct ReadOnly<Inner> {
    /// The builder that was marked.
    pub inner: Inner,
}

/// A builder marked as writable only.
#[derive(Debug, PartialEq)]
pub struct WriteOnly<Inner> {
    /// The builder that was marked.
    pub inner: Inner,
}

/// A builder that turns into an unchecked data schema.
pub trait IntoUnchecked<DS, AS, OS>: BuildableDataSchema<DS, AS, OS, Extended> {
    /// The unchecked schema of the builder.
    spec fn unchecked(self) -> UncheckedDataSchema<DS, AS, OS>;

    /// Turns the builder into its unchecked schema, which is the schema of
    /// what the builder holds.
    fn into_unchecked(self) -> (r: UncheckedDataSchema<DS, AS, OS>)
        ensures
            r == self.unchecked(),
            unchecked_matches(self.model(), r),
    ;
}

/// A builder that turns into a partial data schema.
pub trait IntoPartial<DS, AS, OS>: BuildableDataSchema<DS, AS, OS, Extended> {
    /// The partial schema of the builder.
    spec fn partial(self) -> PartialDataSchema<DS, AS, OS>;

    /// Turns the builder into its partial schema, which is the schema of
    /// what the builder holds.
    fn into_partial(self) -> (r: PartialDataSchema<DS, AS, OS>)
        ensures
            r == self.partial(),
            partial_matches(self.model(), r),
    ;
}

/// A builder, plain or marked, that turns into a plain [`DataSchemaBuilder`].
pub trait IntoDataSchemaBuilder<DS, AS, OS>: BuildableDataSchema<DS, AS, OS, Extended> {
    /// The plain builder of the builder.
    spec fn builder(self) -> DataSchemaBuilder<DS, AS, OS, Extended>;

    /// Turns the builder into the plain builder, in which the markings have
    /// become flags.
    fn into_builder(self) -> (r: DataSchemaBuilder<DS, AS, OS, Extended>)
        ensures
            r == self.builder(),
            r.model() == self.model().builder_form(),
    ;
}

/// A builder, plain or marked, that turns into a plain
/// [`PartialDataSchemaBuilder`].
pub trait IntoPartialBuilder<DS, AS, OS>: BuildableDataSchema<DS, AS, OS, Extended> {
    /// The plain builder of the builder.
    spec fn partial_builder(self) -> PartialDataSchemaBuilder<DS, AS, OS, Extended>;

    /// Turns the builder into the plain builder, in which the markings have
    /// become flags.
    fn into_partial_builder(self) -> (r: PartialDataSchemaBuilder<DS, AS, OS, Extended>)
        ensures
            r == self.partial_builder(),
            r.model() == self.model().builder_form(),
    ;
}

/// Whether `f` can be called on every fresh builder of a child schema.
pub open spec fn accepts_fresh<DS: Extendable, AS, OS, F, T>(f: F) -> bool where
    F: FnOnce(DataSchemaBuilder<<DS as Extendable>::Empty, AS, OS, ToExtend>) -> T,
 {
    forall|fresh: DataSchemaBuilder<<DS as Extendable>::Empty, AS, OS, ToExtend>|
        fresh.model() == BuilderModel::<<DS as Extendable>::Empty, AS, OS>::fresh(
            DS::empty_spec(),
        ) ==> #[trigger] f.requires((fresh,))
}

/// Whether `schema` is the unchecked schema of a builder that `f` makes of a
/// fresh builder.
pub open spec fn child_of<DS: Extendable, AS, OS, F, T>(
    f: F,
    schema: UncheckedDataSchema<DS, AS, OS>,
) -> bool where
    F: FnOnce(DataSchemaBuilder<<DS as Extendable>::Empty, AS, OS, ToExtend>) -> T,
    T: IntoUnchecked<DS, AS, OS>,
 {
    exists|fresh: DataSchemaBuilder<<DS as Extendable>::Empty, AS, OS, ToExtend>, child: T|
        fresh.model() == BuilderModel::<<DS as Extendable>::Empty, AS, OS>::fresh(
            DS::empty_spec(),
        ) && #[trigger] f.ensures((fresh,), child) && schema == child.unchecked()
            && unchecked_matches(child.model(), schema)
}

/// Makes a child schema: `f` gets a fresh builder, and what it hands back is
/// converted.
pub fn build_child<DS: Extendable, AS, OS, F, T>(f: F) -> (r: UncheckedDataSchema<DS, AS, OS>) where
    F: FnOnce(DataSchemaBuilder<<DS as Extendable>::Empty, AS, OS, ToExtend>) -> T,
    T: IntoUnchecked<DS, AS, OS>,

    requires
        accepts_fresh::<DS, AS, OS, F, T>(f),
    ensures
        child_of::<DS, AS, OS, F, T>(f, r),
{
    let fresh = DataSchemaBuilder::<DS, AS, OS, ToExtend>::empty();
    let child = f(fresh);
    child.into_unchecked()
}

/// A builder that can be specialized into the builder of one kind of schema.
///
/// Specializing resolves the markings of the builder into its flags, sets the
/// kind, and leaves every other field as it is. The fields of the new kind
/// start absent.
pub trait SpecializableDataSchema<DS, AS, OS>: BuildableDataSchema<DS, AS, OS, Extended> {
    /// The builder of a schema that has no field of its own kind.
    type Stateless: BuildableDataSchema<DS, AS, OS, Extended>;

    /// The builder of an array with one schema for each position.
    type Tuple: BuildableDataSchema<DS, AS, OS, Extended>;

    /// The builder of an array with one schema for all elements.
    type Vec: BuildableDataSchema<DS, AS, OS, Extended>;

    /// The builder of a number.
    type Number: BuildableDataSchema<DS, AS, OS, Extended>;

    /// The builder of an integer.
    type Integer: BuildableDataSchema<DS, AS, OS, Extended>;

    /// The builder of an object.
    type Object: BuildableDataSchema<DS, AS, OS, Extended>;

    /// The builder of a string.
    type String: BuildableDataSchema<DS, AS, OS, Extended>;

    /// The builder of a constant.
    type Constant: BuildableDataSchema<DS, AS, OS, Extended>;

    /// Specializes into a tuple without items, with the default array
    /// extension.
    fn tuple(self) -> (r: Self::Tuple) where AS: Default
        ensures
            r.model().kind matches Kind::Tuple { items, other: _ } && items == Seq::<
                UncheckedDataSchema<DS, AS, OS>,
            >::empty(),
            r.model() == self.model().specialized(r.model().kind),
    ;

    /// Specializes into a list without an item, with the default array
    /// extension.
    fn vec(self) -> (r: Self::Vec) where AS: Default
        ensures
            r.model().kind matches Kind::List { item, min_items, max_items, other: _ } && item is None
                && min_items is None && max_items is None,
            r.model() == self.model().specialized(r.model().kind),
    ;

    /// Specializes into a tuple without items, with the array extension that
    /// `f` makes of the empty one.
    fn tuple_ext<F>(self, f: F) -> (r: Self::Tuple) where F: FnOnce(AS::Empty) -> AS, AS: Extendable
        requires
            f.requires((AS::empty_spec(),)),
        ensures
            exists|other: AS| #[trigger]
                f.ensures((AS::empty_spec(),), other) && r.model() == self.model().specialized(
                    Kind::Tuple { items: Seq::empty(), other },
                ),
    ;

    /// Specializes into a list without an item, with the array extension
    /// that `f` makes of the empty one.
    fn vec_ext<F>(self, f: F) -> (r: Self::Vec) where F: FnOnce(AS::Empty) -> AS, AS: Extendable
        requires
            f.requires((AS::empty_spec(),)),
        ensures
            exists|other: AS| #[trigger]
                f.ensures((AS::empty_spec(),), other) && r.model() == self.model().specialized(
                    Kind::List { item: None, min_items: None, max_items: None, other },
                ),
    ;

    /// Specializes into a boolean.
    fn bool(self) -> (r: Self::Stateless)
        ensures
            r.model() == self.model().specialized(
                Kind::Stateless(Some(StatelessDataSchemaType::Boolean)),
            ),
    ;

    /// Specializes into a number without bounds or step.
    fn number(self) -> (r: Self::Number)
        ensures
            r.model() == self.model().specialized(
                Kind::Number(NumberSchema { maximum: None, minimum: None, multiple_of: None }),
            ),
    ;

    /// Specializes into an integer without bounds or step.
    fn integer(self) -> (r: Self::Integer)
        ensures
            r.model() == self.model().specialized(
                Kind::Integer(IntegerSchema { maximum: None, minimum: None, multiple_of: None }),
            ),
    ;

    /// Specializes into an object without properties, with the default
    /// object extension.
    fn object(self) -> (r: Self::Object) where OS: Default
        ensures
            r.model().kind matches Kind::Object { properties, required, extension: _ } && properties
                == Seq::<(Seq<char>, UncheckedDataSchema<DS, AS, OS>)>::empty() && required
                == Seq::<String>::empty(),
            r.model() == self.model().specialized(r.model().kind),
    ;

    /// Specializes into an object without properties, with the object
    /// extension that `f` makes of the empty one.
    fn object_ext<F>(self, f: F) -> (r: Self::Object) where F: FnOnce(OS::Empty) -> OS, OS: Extendable
        requires
            f.requires((OS::empty_spec(),)),
        ensures
            exists|other: OS| #[trigger]
                f.ensures((OS::empty_spec(),), other) && r.model() == self.model().specialized(
                    Kind::Object {
                        properties: Seq::empty(),
                        required: Seq::empty(),
                        extension: other,
                    },
                ),
    ;

    /// Specializes into a string without constraints.
    fn string(self) -> (r: Self::String)
        ensures
            r.model() == self.model().specialized(
                Kind::String(
                    StringSchema {
                        min_length: None,
                        max_length: None,
                        pattern: None,
                        content_encoding: None,
                        content_media_type: None,
                    },
                ),
            ),
    ;

    /// Specializes into the null value.
    fn null(self) -> (r: Self::Stateless)
        ensures
            r.model() == self.model().specialized(
                Kind::Stateless(Some(StatelessDataSchemaType::Null)),
            ),
    ;

    /// Specializes into the constant `value`: a schema without a kind that
    /// can only be read.
    fn constant(self, value: Value) -> (r: Self::Constant)
        ensures
            r.model() == self.model().as_constant(value),
    ;
}

/// A builder that takes the values of an enumeration.
pub trait EnumerableDataSchema<DS, AS, OS, Status>: BuildableDataSchema<DS, AS, OS, Status> {
    /// The builder of the enumeration.
    type Target: BuildableDataSchema<DS, AS, OS, Status>;

    /// Adds `value` after the values that are there; the builder becomes,
    /// or stays, the builder of an enumeration.
    fn enumeration(self, value: Value) -> (r: Self::Target)
        ensures
            r.model() == self.model().enumerated(value),
    ;
}

/// A builder that takes the members of a union.
pub trait UnionDataSchema<DS, AS, OS>: BuildableDataSchema<DS, AS, OS, Extended> {
    /// The builder of the union.
    type Target: BuildableDataSchema<DS, AS, OS, Extended>;

    /// Adds the schema that `f` makes of a fresh builder after the members
    /// that are there; the builder becomes, or stays, the builder of a union.
    fn one_of<F, T>(self, f: F) -> (r: Self::Target) where
        F: FnOnce(DataSchemaBuilder<<DS as Extendable>::Empty, AS, OS, ToExtend>) -> T,
        DS: Extendable,
        T: IntoUnchecked<DS, AS, OS>,

        requires
            accepts_fresh::<DS, AS, OS, F, T>(f),
        ensures
            exists|schema: UncheckedDataSchema<DS, AS, OS>| #[trigger]
                child_of::<DS, AS, OS, F, T>(f, schema) && r.model() == self.model().with_member(
                    schema,
                ),
    ;
}

/// A builder that can be marked as readable only or as writable only.
///
/// The marked builders do not have this trait: a schema is never marked in
/// both ways.
pub trait ReadableWriteableDataSchema<DS, AS, OS, Status>: BuildableDataSchema<
    DS,
    AS,
    OS,
    Status,
> {
    /// The builder marked as readable only.
    type ReadOnly: BuildableDataSchema<DS, AS, OS, Status>;

    /// The builder marked as writable only.
    type WriteOnly: BuildableDataSchema<DS, AS, OS, Status>;

    /// Marks the schema as readable only: it is then not writable only.
    /// Every other field stays as it is.
    fn read_only(self) -> (r: Self::ReadOnly)
        ensures
            r.model() == self.model().marked_read_only(),
    ;

    /// Marks the schema as writable only: it is then not readable only.
    /// Every other field stays as it is.
    fn write_only(self) -> (r: Self::WriteOnly)
        ensures
            r.model() == self.model().marked_write_only(),
    ;
}

/// The operations of the builder of a list.
pub trait VecDataSchemaBuilderLike<DS, AS, OS>: BuildableDataSchema<DS, AS, OS, Extended> {
    /// Sets the least number of elements.
    fn min_items(self, value: u32) -> (r: Self)
        ensures
            r.model() == self.model().with_min_items(value),
    ;

    /// Sets the greatest number of elements.
    fn max_items(self, value: u32) -> (r: Self)
        ensures
            r.model() == self.model().with_max_items(value),
    ;

    /// Sets the schema of the elements to what `f` makes of a fresh builder.
    fn set_item<F, T>(self, f: F) -> (r: Self) where
        F: FnOnce(DataSchemaBuilder<<DS as Extendable>::Empty, AS, OS, ToExtend>) -> T,
        DS: Extendable,
        T: IntoUnchecked<DS, AS, OS>,

        requires
            accepts_fresh::<DS, AS, OS, F, T>(f),
        ensures
            exists|schema: UncheckedDataSchema<DS, AS, OS>| #[trigger]
                child_of::<DS, AS, OS, F, T>(f, schema) && r.model() == self.model().with_list_item(schema),
    ;
}

/// The operations of the builder of a tuple.
pub trait TupleDataSchemaBuilderLike<DS, AS, OS>: BuildableDataSchema<DS, AS, OS, Extended> {
    /// Adds the schema that `f` makes of a fresh builder as the next position.
    fn append<F, T>(self, f: F) -> (r: Self) where
        F: FnOnce(DataSchemaBuilder<<DS as Extendable>::Empty, AS, OS, ToExtend>) -> T,
        DS: Extendable,
        T: IntoUnchecked<DS, AS, OS>,

        requires
            accepts_fresh::<DS, AS, OS, F, T>(f),
        ensures
            exists|schema: UncheckedDataSchema<DS, AS, OS>| #[trigger]
                child_of::<DS, AS, OS, F, T>(f, schema) && r.model() == self.model().with_item(schema),
    ;
}

/// The operations of the builder of a number.
///
/// A bound that is set replaces the bound of the same side, whether that was
/// to be reached or not: the last call wins.
pub trait NumberDataSchemaBuilderLike<DS, AS, OS>: BuildableDataSchema<DS, AS, OS, Extended> {
    /// Sets the lower bound, which the number may reach.
    fn minimum(self, value: Double) -> (r: Self)
        ensures
            r.model() == self.model().with_number_minimum(Minimum::Inclusive(value)),
    ;

    /// Sets the upper bound, which the number may reach.
    fn maximum(self, value: Double) -> (r: Self)
        ensures
            r.model() == self.model().with_number_maximum(Maximum::Inclusive(value)),
    ;

    /// Sets the lower bound, which the number may not reach.
    fn exclusive_minimum(self, value: Double) -> (r: Self)
        ensures
            r.model() == self.model().with_number_minimum(Minimum::Exclusive(value)),
    ;

    /// Sets the upper bound, which the number may not reach.
    fn exclusive_maximum(self, value: Double) -> (r: Self)
        ensures
            r.model() == self.model().with_number_maximum(Maximum::Exclusive(value)),
    ;

    /// Sets the step of which the number is a multiple.
    fn multiple_of(self, value: Double) -> (r: Self)
        ensures
            r.model() == self.model().with_number_multiple_of(value),
    ;
}

/// The operations of the builder of an integer.
///
/// A bound that is set replaces the bound of the same side, whether that was
/// to be reached or not: the last call wins.
pub trait IntegerDataSchemaBuilderLike<DS, AS, OS>: BuildableDataSchema<DS, AS, OS, Extended> {
    /// Sets the lower bound, which the integer may reach.
    fn minimum(self, value: i64) -> (r: Self)
        ensures
            r.model() == self.model().with_integer_minimum(Minimum::Inclusive(value)),
    ;

    /// Sets the upper bound, which the integer may reach.
    fn maximum(self, value: i64) -> (r: Self)
        ensures
            r.model() == self.model().with_integer_maximum(Maximum::Inclusive(value)),
    ;

    /// Sets the lower bound, which the integer may not reach.
    fn exclusive_minimum(self, value: i64) -> (r: Self)
        ensures
            r.model() == self.model().with_integer_minimum(Minimum::Exclusive(value)),
    ;

    /// Sets the upper bound, which the integer may not reach.
    fn exclusive_maximum(self, value: i64) -> (r: Self)
        ensures
            r.model() == self.model().with_integer_maximum(Maximum::Exclusive(value)),
    ;

    /// Sets the step of which the integer is a multiple.
    fn multiple_of(self, value: NonZeroU64) -> (r: Self)
        ensures
            r.model() == self.model().with_integer_multiple_of(value),
    ;
}

/// The operations of the builder of an object.
pub trait ObjectDataSchemaBuilderLike<DS, AS, OS>: BuildableDataSchema<DS, AS, OS, Extended> {
    /// Gives the property `name` the schema that `f` makes of a fresh
    /// builder, and adds the name to the required names where `required`
    /// says so.
    fn property<F, T>(self, name: String, required: bool, f: F) -> (r: Self) where
        F: FnOnce(DataSchemaBuilder<<DS as Extendable>::Empty, AS, OS, ToExtend>) -> T,
        DS: Extendable,
        T: IntoUnchecked<DS, AS, OS>,

        requires
            accepts_fresh::<DS, AS, OS, F, T>(f),
        ensures
            exists|schema: UncheckedDataSchema<DS, AS, OS>| #[trigger]
                child_of::<DS, AS, OS, F, T>(f, schema) && r.model() == self.model().with_property(
                    name,
                    required,
                    schema,
                ),
    ;
}

/// The operations of the builder of a string.
pub trait StringDataSchemaBuilderLike<DS, AS, OS>: BuildableDataSchema<DS, AS, OS, Extended> {
    /// Sets the least length.
    fn min_length(self, value: u32) -> (r: Self)
        ensures
            r.model() == self.model().with_min_length(value),
    ;

    /// Sets the greatest length.
    fn max_length(self, value: u32) -> (r: Self)
        ensures
            r.model() == self.model().with_max_length(value),
    ;

    /// Sets the pattern that the string matches.
    fn pattern(self, value: String) -> (r: Self)
        ensures
            r.model() == self.model().with_pattern(value),
    ;

    /// Sets how the content is encoded.
    fn content_encoding(self, value: String) -> (r: Self)
        ensures
            r.model() == self.model().with_content_encoding(value),
    ;

    /// Sets the media type of the content.
    fn content_media_type(self, value: String) -> (r: Self)
        ensures
            r.model() == self.model().with_content_media_type(value),
    ;
}

} // verus!
