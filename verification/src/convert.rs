//! The conversions of the builders: a marked builder into a plain one, and a
//! specialized or marked builder into an unchecked schema, into a partial
//! schema, or all the way into the final schema.
//!
//! The conversion into an unchecked or a partial schema always succeeds. The
//! conversion into the final schema goes through the unchecked schema and
//! fails where that has a multi-language map with a bad key; it does not
//! validate the numeric constraints.

use vstd::prelude::*;
use crate::checked::{outcome_is, schema_converts, schema_tag_fault};
use crate::data_schema::{
    BuildableDataSchema, DataSchemaBuilder, EnumDataSchemaBuilder, Extended,
    IntegerDataSchemaBuilder, IntoDataSchemaBuilder, IntoPartial, IntoPartialBuilder,
    IntoUnchecked, NumberDataSchemaBuilder, ObjectDataSchemaBuilder, OneOfDataSchemaBuilder,
    PartialDataSchema, PartialDataSchemaBuilder, ReadOnly, StatelessDataSchemaBuilder,
    StatelessDataSchemaType, StringDataSchemaBuilder, TupleDataSchemaBuilder,
    UncheckedDataSchema, VecDataSchemaBuilder, WriteOnly,
};
use crate::error::Error;
use crate::human_readable_info::HumanReadableInfo;
use crate::model::{partial_matches, unchecked_matches};
use crate::thing::{
    BoxedElemOrVec, DataSchema, IntegerSchema, NumberSchema, StringSchema, UncheckedArraySchema,
    UncheckedDataSchemaSubtype, UncheckedObjectSchema,
};

verus! {

impl<DS, AS, OS> IntoDataSchemaBuilder<DS, AS, OS> for DataSchemaBuilder<DS, AS, OS, Extended> {
    open spec fn builder(self) -> DataSchemaBuilder<DS, AS, OS, Extended> {
        self
    }

    fn into_builder(self) -> (r: DataSchemaBuilder<DS, AS, OS, Extended>) {
        self
    }
}

impl<T, DS, AS, OS> IntoDataSchemaBuilder<DS, AS, OS> for ReadOnly<T> where
    T: IntoDataSchemaBuilder<DS, AS, OS>,
 {
    open spec fn builder(self) -> DataSchemaBuilder<DS, AS, OS, Extended> {
        DataSchemaBuilder {
            partial: PartialDataSchemaBuilder {
                read_only: true,
                write_only: false,
                ..self.inner.builder().partial
            },
            ..self.inner.builder()
        }
    }

    fn into_builder(self) -> (r: DataSchemaBuilder<DS, AS, OS, Extended>) {
        let mut builder = self.inner.into_builder();
        builder.partial.read_only = true;
        builder.partial.write_only = false;
        builder
    }
}

impl<T, DS, AS, OS> From<ReadOnly<T>> for DataSchemaBuilder<DS, AS, OS, Extended> where
    T: IntoDataSchemaBuilder<DS, AS, OS>,
 {
    /// The plain builder of a marked one: the markings have become flags.
    fn from(builder: ReadOnly<T>) -> (r: Self)
        ensures
            r == builder.builder(),
            r.model() == builder.model().builder_form(),
    {
        builder.into_builder()
    }
}

impl<T, DS, AS, OS> vstd::std_specs::convert::FromSpecImpl<ReadOnly<T>> for DataSchemaBuilder<DS, AS, OS, Extended> where
    T: IntoDataSchemaBuilder<DS, AS, OS>,
 {
    open spec fn obeys_from_spec() -> bool {
        true
    }

    open spec fn from_spec(builder: ReadOnly<T>) -> Self {
        builder.builder()
    }
}

impl<T, DS, AS, OS> IntoDataSchemaBuilder<DS, AS, OS> for WriteOnly<T> where
    T: IntoDataSchemaBuilder<DS, AS, OS>,
 {
    open spec fn builder(self) -> DataSchemaBuilder<DS, AS, OS, Extended> {
        DataSchemaBuilder {
            partial: PartialDataSchemaBuilder {
                write_only: true,
                read_only: false,
                ..self.inner.builder().partial
            },
            ..self.inner.builder()
        }
    }

    fn into_builder(self) -> (r: DataSchemaBuilder<DS, AS, OS, Extended>) {
        let mut builder = self.inner.into_builder();
        builder.partial.write_only = true;
        builder.partial.read_only = false;
        builder
    }
}

impl<T, DS, AS, OS> From<WriteOnly<T>> for DataSchemaBuilder<DS, AS, OS, Extended> where
    T: IntoDataSchemaBuilder<DS, AS, OS>,
 {
    /// The plain builder of a marked one: the markings have become flags.
    fn from(builder: WriteOnly<T>) -> (r: Self)
        ensures
            r == builder.builder(),
            r.model() == builder.model().builder_form(),
    {
        builder.into_builder()
    }
}

impl<T, DS, AS, OS> vstd::std_specs::convert::FromSpecImpl<WriteOnly<T>> for DataSchemaBuilder<DS, AS, OS, Extended> where
    T: IntoDataSchemaBuilder<DS, AS, OS>,
 {
    open spec fn obeys_from_spec() -> bool {
        true
    }

    open spec fn from_spec(builder: WriteOnly<T>) -> Self {
        builder.builder()
    }
}

impl<DS, AS, OS> IntoPartialBuilder<DS, AS, OS> for PartialDataSchemaBuilder<DS, AS, OS, Extended> {
    open spec fn partial_builder(self) -> PartialDataSchemaBuilder<DS, AS, OS, Extended> {
        self
    }

    fn into_partial_builder(self) -> (r: PartialDataSchemaBuilder<DS, AS, OS, Extended>) {
        self
    }
}

impl<T, DS, AS, OS> IntoPartialBuilder<DS, AS, OS> for ReadOnly<T> where
    T: IntoPartialBuilder<DS, AS, OS>,
 {
    open spec fn partial_builder(self) -> PartialDataSchemaBuilder<DS, AS, OS, Extended> {
        PartialDataSchemaBuilder { read_only: true, write_only: false, ..self.inner.partial_builder() }
    }

    fn into_partial_builder(self) -> (r: PartialDataSchemaBuilder<DS, AS, OS, Extended>) {
        let mut builder = self.inner.into_partial_builder();
        builder.read_only = true;
        builder.write_only = false;
        builder
    }
}

impl<T, DS, AS, OS> From<ReadOnly<T>> for PartialDataSchemaBuilder<DS, AS, OS, Extended> where
    T: IntoPartialBuilder<DS, AS, OS>,
 {
    /// The plain builder of a marked one: the markings have become flags.
    fn from(builder: ReadOnly<T>) -> (r: Self)
        ensures
            r == builder.partial_builder(),
            r.model() == builder.model().builder_form(),
    {
        builder.into_partial_builder()
    }
}

impl<T, DS, AS, OS> vstd::std_specs::convert::FromSpecImpl<ReadOnly<T>> for PartialDataSchemaBuilder<DS, AS, OS, Extended> where
    T: IntoPartialBuilder<DS, AS, OS>,
 {
    open spec fn obeys_from_spec() -> bool {
        true
    }

    open spec fn from_spec(builder: ReadOnly<T>) -> Self {
        builder.partial_builder()
    }
}

impl<T, DS, AS, OS> IntoPartialBuilder<DS, AS, OS> for WriteOnly<T> where
    T: IntoPartialBuilder<DS, AS, OS>,
 {
    open spec fn partial_builder(self) -> PartialDataSchemaBuilder<DS, AS, OS, Extended> {
        PartialDataSchemaBuilder { write_only: true, read_only: false, ..self.inner.partial_builder() }
    }

    fn into_partial_builder(self) -> (r: PartialDataSchemaBuilder<DS, AS, OS, Extended>) {
        let mut builder = self.inner.into_partial_builder();
        builder.write_only = true;
        builder.read_only = false;
        builder
    }
}

impl<T, DS, AS, OS> From<WriteOnly<T>> for PartialDataSchemaBuilder<DS, AS, OS, Extended> where
    T: IntoPartialBuilder<DS, AS, OS>,
 {
    /// The plain builder of a marked one: the markings have become flags.
    fn from(builder: WriteOnly<T>) -> (r: Self)
        ensures
            r == builder.partial_builder(),
            r.model() == builder.model().builder_form(),
    {
        builder.into_partial_builder()
    }
}

impl<T, DS, AS, OS> vstd::std_specs::convert::FromSpecImpl<WriteOnly<T>> for PartialDataSchemaBuilder<DS, AS, OS, Extended> where
    T: IntoPartialBuilder<DS, AS, OS>,
 {
    open spec fn obeys_from_spec() -> bool {
        true
    }

    open spec fn from_spec(builder: WriteOnly<T>) -> Self {
        builder.partial_builder()
    }
}

impl<DS, AS, OS> From<StatelessDataSchemaType> for UncheckedDataSchemaSubtype<DS, AS, OS> {
    /// The kind of schema that the stateless kind names.
    fn from(ty: StatelessDataSchemaType) -> (r: Self) {
        match ty {
            StatelessDataSchemaType::Boolean => UncheckedDataSchemaSubtype::Boolean,
            StatelessDataSchemaType::Null => UncheckedDataSchemaSubtype::Null,
        }
    }
}

impl<DS, AS, OS> vstd::std_specs::convert::FromSpecImpl<StatelessDataSchemaType> for UncheckedDataSchemaSubtype<DS, AS, OS> {
    open spec fn obeys_from_spec() -> bool {
        true
    }

    open spec fn from_spec(ty: StatelessDataSchemaType) -> Self {
        match ty {
            StatelessDataSchemaType::Boolean => UncheckedDataSchemaSubtype::Boolean,
            StatelessDataSchemaType::Null => UncheckedDataSchemaSubtype::Null,
        }
    }
}

/// The unchecked schema with the fields of a plain builder and the kind
/// `subtype`; the one value, the members of the union and the values of the
/// enumeration are kept or left out as the flags say.
pub open spec fn assembled<DS, AS, OS>(
    builder: DataSchemaBuilder<DS, AS, OS, Extended>,
    keep_constant: bool,
    keep_one_of: bool,
    keep_enumeration: bool,
    subtype: Option<UncheckedDataSchemaSubtype<DS, AS, OS>>,
) -> UncheckedDataSchema<DS, AS, OS> {
    UncheckedDataSchema {
        attype: builder.info.attype,
        title: builder.info.title,
        titles: builder.info.titles,
        description: builder.info.description,
        descriptions: builder.info.descriptions,
        constant: if keep_constant {
            builder.partial.constant
        } else {
            None
        },
        default: builder.partial.default,
        unit: builder.partial.unit,
        one_of: if keep_one_of {
            Some(builder.partial.one_of)
        } else {
            None
        },
        enumeration: if keep_enumeration {
            Some(builder.partial.enumeration)
        } else {
            None
        },
        read_only: builder.partial.read_only,
        write_only: builder.partial.write_only,
        format: builder.partial.format,
        subtype,
        other: builder.partial.other,
    }
}

/// Makes the unchecked schema that [`assembled`] describes.
fn unchecked_of<DS, AS, OS>(
    builder: DataSchemaBuilder<DS, AS, OS, Extended>,
    keep_constant: bool,
    keep_one_of: bool,
    keep_enumeration: bool,
    subtype: Option<UncheckedDataSchemaSubtype<DS, AS, OS>>,
) -> (r: UncheckedDataSchema<DS, AS, OS>)
    ensures
        r == assembled(builder, keep_constant, keep_one_of, keep_enumeration, subtype),
{
    let DataSchemaBuilder {
        partial: PartialDataSchemaBuilder {
            constant,
            default,
            unit,
            one_of,
            enumeration,
            read_only,
            write_only,
            format,
            other,
            _marker: _,
        },
        info: HumanReadableInfo { attype, title, titles, description, descriptions },
    } = builder;
    UncheckedDataSchema {
        attype,
        title,
        titles,
        description,
        descriptions,
        constant: if keep_constant {
            constant
        } else {
            None
        },
        default,
        unit,
        one_of: if keep_one_of {
            Some(one_of)
        } else {
            None
        },
        enumeration: if keep_enumeration {
            Some(enumeration)
        } else {
            None
        },
        read_only,
        write_only,
        format,
        subtype,
        other,
    }
}

/// The partial schema with the fields of a plain builder and the kind
/// `subtype`; the one value, the members of the union and the values of the
/// enumeration are kept or left out as the flags say.
pub open spec fn assembled_partial<DS, AS, OS>(
    builder: PartialDataSchemaBuilder<DS, AS, OS, Extended>,
    keep_constant: bool,
    keep_one_of: bool,
    keep_enumeration: bool,
    subtype: Option<UncheckedDataSchemaSubtype<DS, AS, OS>>,
) -> PartialDataSchema<DS, AS, OS> {
    PartialDataSchema {
        constant: if keep_constant {
            builder.constant
        } else {
            None
        },
        default: builder.default,
        unit: builder.unit,
        one_of: if keep_one_of {
            Some(builder.one_of)
        } else {
            None
        },
        enumeration: if keep_enumeration {
            Some(builder.enumeration)
        } else {
            None
        },
        read_only: builder.read_only,
        write_only: builder.write_only,
        format: builder.format,
        subtype,
        other: builder.other,
    }
}

/// Makes the partial schema that [`assembled_partial`] describes.
fn partial_of<DS, AS, OS>(
    builder: PartialDataSchemaBuilder<DS, AS, OS, Extended>,
    keep_constant: bool,
    keep_one_of: bool,
    keep_enumeration: bool,
    subtype: Option<UncheckedDataSchemaSubtype<DS, AS, OS>>,
) -> (r: PartialDataSchema<DS, AS, OS>)
    ensures
        r == assembled_partial(builder, keep_constant, keep_one_of, keep_enumeration, subtype),
{
    let PartialDataSchemaBuilder {
        constant,
        default,
        unit,
        one_of,
        enumeration,
        read_only,
        write_only,
        format,
        other,
        _marker: _,
    } = builder;
    PartialDataSchema {
        constant: if keep_constant {
            constant
        } else {
            None
        },
        default,
        unit,
        one_of: if keep_one_of {
            Some(one_of)
        } else {
            None
        },
        enumeration: if keep_enumeration {
            Some(enumeration)
        } else {
            None
        },
        read_only,
        write_only,
        format,
        subtype,
        other,
    }
}

impl<T, DS, AS, OS> IntoUnchecked<DS, AS, OS> for StatelessDataSchemaBuilder<T> where
    T: IntoDataSchemaBuilder<DS, AS, OS>,
 {
    open spec fn unchecked(self) -> UncheckedDataSchema<DS, AS, OS> {
        assembled(
            self.inner.builder(),
            true,
            false,
            false,
            match self.ty {
                Some(StatelessDataSchemaType::Boolean) => Some(UncheckedDataSchemaSubtype::Boolean),
                Some(StatelessDataSchemaType::Null) => Some(UncheckedDataSchemaSubtype::Null),
                None => None,
            },
        )
    }

    fn into_unchecked(self) -> (r: UncheckedDataSchema<DS, AS, OS>) {
        let StatelessDataSchemaBuilder { inner, ty } = self;
        let builder = inner.into_builder();
        let subtype = match ty {
            Some(ty) => Some(UncheckedDataSchemaSubtype::from(ty)),
            None => None,
        };
        unchecked_of(builder, true, false, false, subtype)
    }
}

impl<T, DS, AS, OS> From<StatelessDataSchemaBuilder<T>> for UncheckedDataSchema<DS, AS, OS> where
    T: IntoDataSchemaBuilder<DS, AS, OS>,
 {
    /// The unchecked schema of what the builder holds.
    fn from(builder: StatelessDataSchemaBuilder<T>) -> (r: Self)
        ensures
            r == builder.unchecked(),
            unchecked_matches(builder.model(), r),
    {
        builder.into_unchecked()
    }
}

impl<T, DS, AS, OS> vstd::std_specs::convert::FromSpecImpl<StatelessDataSchemaBuilder<T>> for UncheckedDataSchema<DS, AS, OS> where
    T: IntoDataSchemaBuilder<DS, AS, OS>,
 {
    open spec fn obeys_from_spec() -> bool {
        true
    }

    open spec fn from_spec(builder: StatelessDataSchemaBuilder<T>) -> Self {
        builder.unchecked()
    }
}

impl<T, DS, AS, OS> TryFrom<StatelessDataSchemaBuilder<T>> for DataSchema<DS, AS, OS> where
    T: IntoDataSchemaBuilder<DS, AS, OS>,
 {
    type Error = Error;

    /// The final schema of what the builder holds: the unchecked schema of
    /// the builder, converted.
    fn try_from(builder: StatelessDataSchemaBuilder<T>) -> (r: Result<Self, Error>)
        ensures
            unchecked_matches(builder.model(), builder.unchecked()),
            outcome_is(
                r,
                schema_tag_fault(builder.unchecked()),
                |target: DataSchema<DS, AS, OS>| schema_converts(builder.unchecked(), target),
            ),
    {
        DataSchema::try_from_unchecked(builder.into_unchecked())
    }
}

/// What `try_from` returns is stated by its own `ensures`; it is not given as
/// a function of the builder.
impl<T, DS, AS, OS> vstd::std_specs::convert::TryFromSpecImpl<StatelessDataSchemaBuilder<T>> for DataSchema<DS, AS, OS> where
    T: IntoDataSchemaBuilder<DS, AS, OS>,
 {
    open spec fn obeys_try_from_spec() -> bool {
        false
    }

    open spec fn try_from_spec(builder: StatelessDataSchemaBuilder<T>) -> Result<Self, Error> {
        arbitrary()
    }
}

impl<T, DS, AS, OS> IntoUnchecked<DS, AS, OS> for TupleDataSchemaBuilder<T, DS, AS, OS> where
    T: IntoDataSchemaBuilder<DS, AS, OS>,
 {
    open spec fn unchecked(self) -> UncheckedDataSchema<DS, AS, OS> {
        assembled(
            self.inner.builder(),
            false,
            false,
            false,
            Some(
                UncheckedDataSchemaSubtype::Array(
                    UncheckedArraySchema {
                        items: Some(BoxedElemOrVec::Vec(self.items)),
                        min_items: None,
                        max_items: None,
                        other: self.other,
                    },
                ),
            ),
        )
    }

    fn into_unchecked(self) -> (r: UncheckedDataSchema<DS, AS, OS>) {
        let TupleDataSchemaBuilder { inner, items, other } = self;
        let builder = inner.into_builder();
        let subtype = Some(
            UncheckedDataSchemaSubtype::Array(
                UncheckedArraySchema {
                    items: Some(BoxedElemOrVec::Vec(items)),
                    min_items: None,
                    max_items: None,
                    other,
                },
            ),
        );
        unchecked_of(builder, false, false, false, subtype)
    }
}

impl<T, DS, AS, OS> From<TupleDataSchemaBuilder<T, DS, AS, OS>> for UncheckedDataSchema<DS, AS, OS> where
    T: IntoDataSchemaBuilder<DS, AS, OS>,
 {
    /// The unchecked schema of what the builder holds.
    fn from(builder: TupleDataSchemaBuilder<T, DS, AS, OS>) -> (r: Self)
        ensures
            r == builder.unchecked(),
            unchecked_matches(builder.model(), r),
    {
        builder.into_unchecked()
    }
}

impl<T, DS, AS, OS> vstd::std_specs::convert::FromSpecImpl<TupleDataSchemaBuilder<T, DS, AS, OS>> for UncheckedDataSchema<DS, AS, OS> where
    T: IntoDataSchemaBuilder<DS, AS, OS>,
 {
    open spec fn obeys_from_spec() -> bool {
        true
    }

    open spec fn from_spec(builder: TupleDataSchemaBuilder<T, DS, AS, OS>) -> Self {
        builder.unchecked()
    }
}

impl<T, DS, AS, OS> TryFrom<TupleDataSchemaBuilder<T, DS, AS, OS>> for DataSchema<DS, AS, OS> where
    T: IntoDataSchemaBuilder<DS, AS, OS>,
 {
    type Error = Error;

    /// The final schema of what the builder holds: the unchecked schema of
    /// the builder, converted.
    fn try_from(builder: TupleDataSchemaBuilder<T, DS, AS, OS>) -> (r: Result<Self, Error>)
        ensures
            unchecked_matches(builder.model(), builder.unchecked()),
            outcome_is(
                r,
                schema_tag_fault(builder.unchecked()),
                |target: DataSchema<DS, AS, OS>| schema_converts(builder.unchecked(), target),
            ),
    {
        DataSchema::try_from_unchecked(builder.into_unchecked())
    }
}

/// What `try_from` returns is stated by its own `ensures`; it is not given as
/// a function of the builder.
impl<T, DS, AS, OS> vstd::std_specs::convert::TryFromSpecImpl<TupleDataSchemaBuilder<T, DS, AS, OS>> for DataSchema<DS, AS, OS> where
    T: IntoDataSchemaBuilder<DS, AS, OS>,
 {
    open spec fn obeys_try_from_spec() -> bool {
        false
    }

    open spec fn try_from_spec(builder: TupleDataSchemaBuilder<T, DS, AS, OS>) -> Result<Self, Error> {
        arbitrary()
    }
}

impl<T, DS, AS, OS> IntoUnchecked<DS, AS, OS> for VecDataSchemaBuilder<T, DS, AS, OS> where
    T: IntoDataSchemaBuilder<DS, AS, OS>,
 {
    open spec fn unchecked(self) -> UncheckedDataSchema<DS, AS, OS> {
        assembled(
            self.inner.builder(),
            false,
            false,
            false,
            Some(
                UncheckedDataSchemaSubtype::Array(
                    UncheckedArraySchema {
                        items: match self.item {
                            Some(item) => Some(BoxedElemOrVec::Elem(Box::new(item))),
                            None => None,
                        },
                        min_items: self.min_items,
                        max_items: self.max_items,
                        other: self.other,
                    },
                ),
            ),
        )
    }

    fn into_unchecked(self) -> (r: UncheckedDataSchema<DS, AS, OS>) {
        let VecDataSchemaBuilder { inner, item, min_items, max_items, other } = self;
        let builder = inner.into_builder();
        let items = match item {
            Some(item) => Some(BoxedElemOrVec::Elem(Box::new(item))),
            None => None,
        };
        let subtype = Some(
            UncheckedDataSchemaSubtype::Array(
                UncheckedArraySchema { items, min_items, max_items, other },
            ),
        );
        unchecked_of(builder, false, false, false, subtype)
    }
}

impl<T, DS, AS, OS> From<VecDataSchemaBuilder<T, DS, AS, OS>> for UncheckedDataSchema<DS, AS, OS> where
    T: IntoDataSchemaBuilder<DS, AS, OS>,
 {
    /// The unchecked schema of what the builder holds.
    fn from(builder: VecDataSchemaBuilder<T, DS, AS, OS>) -> (r: Self)
        ensures
            r == builder.unchecked(),
            unchecked_matches(builder.model(), r),
    {
        builder.into_unchecked()
    }
}

impl<T, DS, AS, OS> vstd::std_specs::convert::FromSpecImpl<VecDataSchemaBuilder<T, DS, AS, OS>> for UncheckedDataSchema<DS, AS, OS> where
    T: IntoDataSchemaBuilder<DS, AS, OS>,
 {
    open spec fn obeys_from_spec() -> bool {
        true
    }

    open spec fn from_spec(builder: VecDataSchemaBuilder<T, DS, AS, OS>) -> Self {
        builder.unchecked()
    }
}

impl<T, DS, AS, OS> TryFrom<VecDataSchemaBuilder<T, DS, AS, OS>> for DataSchema<DS, AS, OS> where
    T: IntoDataSchemaBuilder<DS, AS, OS>,
 {
    type Error = Error;

    /// The final schema of what the builder holds: the unchecked schema of
    /// the builder, converted.
    fn try_from(builder: VecDataSchemaBuilder<T, DS, AS, OS>) -> (r: Result<Self, Error>)
        ensures
            unchecked_matches(builder.model(), builder.unchecked()),
            outcome_is(
                r,
                schema_tag_fault(builder.unchecked()),
                |target: DataSchema<DS, AS, OS>| schema_converts(builder.unchecked(), target),
            ),
    {
        DataSchema::try_from_unchecked(builder.into_unchecked())
    }
}

/// What `try_from` returns is stated by its own `ensures`; it is not given as
/// a function of the builder.
impl<T, DS, AS, OS> vstd::std_specs::convert::TryFromSpecImpl<VecDataSchemaBuilder<T, DS, AS, OS>> for DataSchema<DS, AS, OS> where
    T: IntoDataSchemaBuilder<DS, AS, OS>,
 {
    open spec fn obeys_try_from_spec() -> bool {
        false
    }

    open spec fn try_from_spec(builder: VecDataSchemaBuilder<T, DS, AS, OS>) -> Result<Self, Error> {
        arbitrary()
    }
}

impl<T, DS, AS, OS> IntoUnchecked<DS, AS, OS> for NumberDataSchemaBuilder<T> where
    T: IntoDataSchemaBuilder<DS, AS, OS>,
 {
    open spec fn unchecked(self) -> UncheckedDataSchema<DS, AS, OS> {
        assembled(
            self.inner.builder(),
            false,
            false,
            false,
            Some(
                UncheckedDataSchemaSubtype::Number(
                    NumberSchema {
                        maximum: self.maximum,
                        minimum: self.minimum,
                        multiple_of: self.multiple_of,
                    },
                ),
            ),
        )
    }

    fn into_unchecked(self) -> (r: UncheckedDataSchema<DS, AS, OS>) {
        let NumberDataSchemaBuilder { inner, maximum, minimum, multiple_of } = self;
        let builder = inner.into_builder();
        let subtype = Some(
            UncheckedDataSchemaSubtype::Number(NumberSchema { maximum, minimum, multiple_of }),
        );
        unchecked_of(builder, false, false, false, subtype)
    }
}

impl<T, DS, AS, OS> From<NumberDataSchemaBuilder<T>> for UncheckedDataSchema<DS, AS, OS> where
    T: IntoDataSchemaBuilder<DS, AS, OS>,
 {
    /// The unchecked schema of what the builder holds.
    fn from(builder: NumberDataSchemaBuilder<T>) -> (r: Self)
        ensures
            r == builder.unchecked(),
            unchecked_matches(builder.model(), r),
    {
        builder.into_unchecked()
    }
}

impl<T, DS, AS, OS> vstd::std_specs::convert::FromSpecImpl<NumberDataSchemaBuilder<T>> for UncheckedDataSchema<DS, AS, OS> where
    T: IntoDataSchemaBuilder<DS, AS, OS>,
 {
    open spec fn obeys_from_spec() -> bool {
        true
    }

    open spec fn from_spec(builder: NumberDataSchemaBuilder<T>) -> Self {
        builder.unchecked()
    }
}

impl<T, DS, AS, OS> TryFrom<NumberDataSchemaBuilder<T>> for DataSchema<DS, AS, OS> where
    T: IntoDataSchemaBuilder<DS, AS, OS>,
 {
    type Error = Error;

    /// The final schema of what the builder holds: the unchecked schema of
    /// the builder, converted.
    fn try_from(builder: NumberDataSchemaBuilder<T>) -> (r: Result<Self, Error>)
        ensures
            unchecked_matches(builder.model(), builder.unchecked()),
            outcome_is(
                r,
                schema_tag_fault(builder.unchecked()),
                |target: DataSchema<DS, AS, OS>| schema_converts(builder.unchecked(), target),
            ),
    {
        DataSchema::try_from_unchecked(builder.into_unchecked())
    }
}

/// What `try_from` returns is stated by its own `ensures`; it is not given as
/// a function of the builder.
impl<T, DS, AS, OS> vstd::std_specs::convert::TryFromSpecImpl<NumberDataSchemaBuilder<T>> for DataSchema<DS, AS, OS> where
    T: IntoDataSchemaBuilder<DS, AS, OS>,
 {
    open spec fn obeys_try_from_spec() -> bool {
        false
    }

    open spec fn try_from_spec(builder: NumberDataSchemaBuilder<T>) -> Result<Self, Error> {
        arbitrary()
    }
}

impl<T, DS, AS, OS> IntoUnchecked<DS, AS, OS> for IntegerDataSchemaBuilder<T> where
    T: IntoDataSchemaBuilder<DS, AS, OS>,
 {
    open spec fn unchecked(self) -> UncheckedDataSchema<DS, AS, OS> {
        assembled(
            self.inner.builder(),
            false,
            false,
            false,
            Some(
                UncheckedDataSchemaSubtype::Integer(
                    IntegerSchema {
                        maximum: self.maximum,
                        minimum: self.minimum,
                        multiple_of: self.multiple_of,
                    },
                ),
            ),
        )
    }

    fn into_unchecked(self) -> (r: UncheckedDataSchema<DS, AS, OS>) {
        let IntegerDataSchemaBuilder { inner, maximum, minimum, multiple_of } = self;
        let builder = inner.into_builder();
        let subtype = Some(
            UncheckedDataSchemaSubtype::Integer(IntegerSchema { maximum, minimum, multiple_of }),
        );
        unchecked_of(builder, false, false, false, subtype)
    }
}

impl<T, DS, AS, OS> From<IntegerDataSchemaBuilder<T>> for UncheckedDataSchema<DS, AS, OS> where
    T: IntoDataSchemaBuilder<DS, AS, OS>,
 {
    /// The unchecked schema of what the builder holds.
    fn from(builder: IntegerDataSchemaBuilder<T>) -> (r: Self)
        ensures
            r == builder.unchecked(),
            unchecked_matches(builder.model(), r),
    {
        builder.into_unchecked()
    }
}

impl<T, DS, AS, OS> vstd::std_specs::convert::FromSpecImpl<IntegerDataSchemaBuilder<T>> for UncheckedDataSchema<DS, AS, OS> where
    T: IntoDataSchemaBuilder<DS, AS, OS>,
 {
    open spec fn obeys_from_spec() -> bool {
        true
    }

    open spec fn from_spec(builder: IntegerDataSchemaBuilder<T>) -> Self {
        builder.unchecked()
    }
}

impl<T, DS, AS, OS> TryFrom<IntegerDataSchemaBuilder<T>> for DataSchema<DS, AS, OS> where
    T: IntoDataSchemaBuilder<DS, AS, OS>,
 {
    type Error = Error;

    /// The final schema of what the builder holds: the unchecked schema of
    /// the builder, converted.
    fn try_from(builder: IntegerDataSchemaBuilder<T>) -> (r: Result<Self, Error>)
        ensures
            unchecked_matches(builder.model(), builder.unchecked()),
            outcome_is(
                r,
                schema_tag_fault(builder.unchecked()),
                |target: DataSchema<DS, AS, OS>| schema_converts(builder.unchecked(), target),
            ),
    {
        DataSchema::try_from_unchecked(builder.into_unchecked())
    }
}

/// What `try_from` returns is stated by its own `ensures`; it is not given as
/// a function of the builder.
impl<T, DS, AS, OS> vstd::std_specs::convert::TryFromSpecImpl<IntegerDataSchemaBuilder<T>> for DataSchema<DS, AS, OS> where
    T: IntoDataSchemaBuilder<DS, AS, OS>,
 {
    open spec fn obeys_try_from_spec() -> bool {
        false
    }

    open spec fn try_from_spec(builder: IntegerDataSchemaBuilder<T>) -> Result<Self, Error> {
        arbitrary()
    }
}

impl<T, DS, AS, OS> IntoUnchecked<DS, AS, OS> for ObjectDataSchemaBuilder<T, DS, AS, OS> where
    T: IntoDataSchemaBuilder<DS, AS, OS>,
 {
    open spec fn unchecked(self) -> UncheckedDataSchema<DS, AS, OS> {
        assembled(
            self.inner.builder(),
            false,
            false,
            false,
            Some(
                UncheckedDataSchemaSubtype::Object(
                    UncheckedObjectSchema {
                        properties: if self.properties@.len() == 0 {
                            None
                        } else {
                            Some(self.properties)
                        },
                        required: if self.required@.len() == 0 {
                            None
                        } else {
                            Some(self.required)
                        },
                        other: self.other,
                    },
                ),
            ),
        )
    }

    fn into_unchecked(self) -> (r: UncheckedDataSchema<DS, AS, OS>) {
        let ObjectDataSchemaBuilder { inner, properties, required, other } = self;
        let builder = inner.into_builder();
        let properties = if properties.is_empty() {
            None
        } else {
            Some(properties)
        };
        let required = if required.len() == 0 {
            None
        } else {
            Some(required)
        };
        let subtype = Some(
            UncheckedDataSchemaSubtype::Object(
                UncheckedObjectSchema { properties, required, other },
            ),
        );
        unchecked_of(builder, false, false, false, subtype)
    }
}

impl<T, DS, AS, OS> From<ObjectDataSchemaBuilder<T, DS, AS, OS>> for UncheckedDataSchema<DS, AS, OS> where
    T: IntoDataSchemaBuilder<DS, AS, OS>,
 {
    /// The unchecked schema of what the builder holds.
    fn from(builder: ObjectDataSchemaBuilder<T, DS, AS, OS>) -> (r: Self)
        ensures
            r == builder.unchecked(),
            unchecked_matches(builder.model(), r),
    {
        builder.into_unchecked()
    }
}

impl<T, DS, AS, OS> vstd::std_specs::convert::FromSpecImpl<ObjectDataSchemaBuilder<T, DS, AS, OS>> for UncheckedDataSchema<DS, AS, OS> where
    T: IntoDataSchemaBuilder<DS, AS, OS>,
 {
    open spec fn obeys_from_spec() -> bool {
        true
    }

    open spec fn from_spec(builder: ObjectDataSchemaBuilder<T, DS, AS, OS>) -> Self {
        builder.unchecked()
    }
}

impl<T, DS, AS, OS> TryFrom<ObjectDataSchemaBuilder<T, DS, AS, OS>> for DataSchema<DS, AS, OS> where
    T: IntoDataSchemaBuilder<DS, AS, OS>,
 {
    type Error = Error;

    /// The final schema of what the builder holds: the unchecked schema of
    /// the builder, converted.
    fn try_from(builder: ObjectDataSchemaBuilder<T, DS, AS, OS>) -> (r: Result<Self, Error>)
        ensures
            unchecked_matches(builder.model(), builder.unchecked()),
            outcome_is(
                r,
                schema_tag_fault(builder.unchecked()),
                |target: DataSchema<DS, AS, OS>| schema_converts(builder.unchecked(), target),
            ),
    {
        DataSchema::try_from_unchecked(builder.into_unchecked())
    }
}

/// What `try_from` returns is stated by its own `ensures`; it is not given as
/// a function of the builder.
impl<T, DS, AS, OS> vstd::std_specs::convert::TryFromSpecImpl<ObjectDataSchemaBuilder<T, DS, AS, OS>> for DataSchema<DS, AS, OS> where
    T: IntoDataSchemaBuilder<DS, AS, OS>,
 {
    open spec fn obeys_try_from_spec() -> bool {
        false
    }

    open spec fn try_from_spec(builder: ObjectDataSchemaBuilder<T, DS, AS, OS>) -> Result<Self, Error> {
        arbitrary()
    }
}

impl<T, DS, AS, OS> IntoUnchecked<DS, AS, OS> for StringDataSchemaBuilder<T> where
    T: IntoDataSchemaBuilder<DS, AS, OS>,
 {
    open spec fn unchecked(self) -> UncheckedDataSchema<DS, AS, OS> {
        assembled(
            self.inner.builder(),
            false,
            false,
            false,
            Some(
                UncheckedDataSchemaSubtype::String(
                    StringSchema {
                        min_length: self.min_length,
                        max_length: self.max_length,
                        pattern: self.pattern,
                        content_encoding: self.content_encoding,
                        content_media_type: self.content_media_type,
                    },
                ),
            ),
        )
    }

    fn into_unchecked(self) -> (r: UncheckedDataSchema<DS, AS, OS>) {
        let StringDataSchemaBuilder {
            inner,
            min_length,
            max_length,
            pattern,
            content_encoding,
            content_media_type,
        } = self;
        let builder = inner.into_builder();
        let subtype = Some(
            UncheckedDataSchemaSubtype::String(
                StringSchema {
                    min_length,
                    max_length,
                    pattern,
                    content_encoding,
                    content_media_type,
                },
            ),
        );
        unchecked_of(builder, false, false, false, subtype)
    }
}

impl<T, DS, AS, OS> From<StringDataSchemaBuilder<T>> for UncheckedDataSchema<DS, AS, OS> where
    T: IntoDataSchemaBuilder<DS, AS, OS>,
 {
    /// The unchecked schema of what the builder holds.
    fn from(builder: StringDataSchemaBuilder<T>) -> (r: Self)
        ensures
            r == builder.unchecked(),
            unchecked_matches(builder.model(), r),
    {
        builder.into_unchecked()
    }
}

impl<T, DS, AS, OS> vstd::std_specs::convert::FromSpecImpl<StringDataSchemaBuilder<T>> for UncheckedDataSchema<DS, AS, OS> where
    T: IntoDataSchemaBuilder<DS, AS, OS>,
 {
    open spec fn obeys_from_spec() -> bool {
        true
    }

    open spec fn from_spec(builder: StringDataSchemaBuilder<T>) -> Self {
        builder.unchecked()
    }
}

impl<T, DS, AS, OS> TryFrom<StringDataSchemaBuilder<T>> for DataSchema<DS, AS, OS> where
    T: IntoDataSchemaBuilder<DS, AS, OS>,
 {
    type Error = Error;

    /// The final schema of what the builder holds: the unchecked schema of
    /// the builder, converted.
    fn try_from(builder: StringDataSchemaBuilder<T>) -> (r: Result<Self, Error>)
        ensures
            unchecked_matches(builder.model(), builder.unchecked()),
            outcome_is(
                r,
                schema_tag_fault(builder.unchecked()),
                |target: DataSchema<DS, AS, OS>| schema_converts(builder.unchecked(), target),
            ),
    {
        DataSchema::try_from_unchecked(builder.into_unchecked())
    }
}

/// What `try_from` returns is stated by its own `ensures`; it is not given as
/// a function of the builder.
impl<T, DS, AS, OS> vstd::std_specs::convert::TryFromSpecImpl<StringDataSchemaBuilder<T>> for DataSchema<DS, AS, OS> where
    T: IntoDataSchemaBuilder<DS, AS, OS>,
 {
    open spec fn obeys_try_from_spec() -> bool {
        false
    }

    open spec fn try_from_spec(builder: StringDataSchemaBuilder<T>) -> Result<Self, Error> {
        arbitrary()
    }
}

impl<T, DS, AS, OS> IntoUnchecked<DS, AS, OS> for EnumDataSchemaBuilder<T> where
    T: IntoDataSchemaBuilder<DS, AS, OS>,
 {
    open spec fn unchecked(self) -> UncheckedDataSchema<DS, AS, OS> {
        assembled(
            self.inner.builder(),
            false,
            false,
            true,
            None,
        )
    }

    fn into_unchecked(self) -> (r: UncheckedDataSchema<DS, AS, OS>) {
        let EnumDataSchemaBuilder { inner } = self;
        let builder = inner.into_builder();
        let subtype = None;
        unchecked_of(builder, false, false, true, subtype)
    }
}

impl<T, DS, AS, OS> From<EnumDataSchemaBuilder<T>> for UncheckedDataSchema<DS, AS, OS> where
    T: IntoDataSchemaBuilder<DS, AS, OS>,
 {
    /// The unchecked schema of what the builder holds.
    fn from(builder: EnumDataSchemaBuilder<T>) -> (r: Self)
        ensures
            r == builder.unchecked(),
            unchecked_matches(builder.model(), r),
    {
        builder.into_unchecked()
    }
}

impl<T, DS, AS, OS> vstd::std_specs::convert::FromSpecImpl<EnumDataSchemaBuilder<T>> for UncheckedDataSchema<DS, AS, OS> where
    T: IntoDataSchemaBuilder<DS, AS, OS>,
 {
    open spec fn obeys_from_spec() -> bool {
        true
    }

    open spec fn from_spec(builder: EnumDataSchemaBuilder<T>) -> Self {
        builder.unchecked()
    }
}

impl<T, DS, AS, OS> TryFrom<EnumDataSchemaBuilder<T>> for DataSchema<DS, AS, OS> where
    T: IntoDataSchemaBuilder<DS, AS, OS>,
 {
    type Error = Error;

    /// The final schema of what the builder holds: the unchecked schema of
    /// the builder, converted.
    fn try_from(builder: EnumDataSchemaBuilder<T>) -> (r: Result<Self, Error>)
        ensures
            unchecked_matches(builder.model(), builder.unchecked()),
            outcome_is(
                r,
                schema_tag_fault(builder.unchecked()),
                |target: DataSchema<DS, AS, OS>| schema_converts(builder.unchecked(), target),
            ),
    {
        DataSchema::try_from_unchecked(builder.into_unchecked())
    }
}

/// What `try_from` returns is stated by its own `ensures`; it is not given as
/// a function of the builder.
impl<T, DS, AS, OS> vstd::std_specs::convert::TryFromSpecImpl<EnumDataSchemaBuilder<T>> for DataSchema<DS, AS, OS> where
    T: IntoDataSchemaBuilder<DS, AS, OS>,
 {
    open spec fn obeys_try_from_spec() -> bool {
        false
    }

    open spec fn try_from_spec(builder: EnumDataSchemaBuilder<T>) -> Result<Self, Error> {
        arbitrary()
    }
}

impl<T, DS, AS, OS> IntoUnchecked<DS, AS, OS> for OneOfDataSchemaBuilder<T> where
    T: IntoDataSchemaBuilder<DS, AS, OS>,
 {
    open spec fn unchecked(self) -> UncheckedDataSchema<DS, AS, OS> {
        assembled(
            self.inner.builder(),
            false,
            true,
            false,
            None,
        )
    }

    fn into_unchecked(self) -> (r: UncheckedDataSchema<DS, AS, OS>) {
        let OneOfDataSchemaBuilder { inner } = self;
        let builder = inner.into_builder();
        let subtype = None;
        unchecked_of(builder, false, true, false, subtype)
    }
}

impl<T, DS, AS, OS> From<OneOfDataSchemaBuilder<T>> for UncheckedDataSchema<DS, AS, OS> where
    T: IntoDataSchemaBuilder<DS, AS, OS>,
 {
    /// The unchecked schema of what the builder holds.
    fn from(builder: OneOfDataSchemaBuilder<T>) -> (r: Self)
        ensures
            r == builder.unchecked(),
            unchecked_matches(builder.model(), r),
    {
        builder.into_unchecked()
    }
}

impl<T, DS, AS, OS> vstd::std_specs::convert::FromSpecImpl<OneOfDataSchemaBuilder<T>> for UncheckedDataSchema<DS, AS, OS> where
    T: IntoDataSchemaBuilder<DS, AS, OS>,
 {
    open spec fn obeys_from_spec() -> bool {
        true
    }

    open spec fn from_spec(builder: OneOfDataSchemaBuilder<T>) -> Self {
        builder.unchecked()
    }
}

impl<T, DS, AS, OS> TryFrom<OneOfDataSchemaBuilder<T>> for DataSchema<DS, AS, OS> where
    T: IntoDataSchemaBuilder<DS, AS, OS>,
 {
    type Error = Error;

    /// The final schema of what the builder holds: the unchecked schema of
    /// the builder, converted.
    fn try_from(builder: OneOfDataSchemaBuilder<T>) -> (r: Result<Self, Error>)
        ensures
            unchecked_matches(builder.model(), builder.unchecked()),
            outcome_is(
                r,
                schema_tag_fault(builder.unchecked()),
                |target: DataSchema<DS, AS, OS>| schema_converts(builder.unchecked(), target),
            ),
    {
        DataSchema::try_from_unchecked(builder.into_unchecked())
    }
}

/// What `try_from` returns is stated by its own `ensures`; it is not given as
/// a function of the builder.
impl<T, DS, AS, OS> vstd::std_specs::convert::TryFromSpecImpl<OneOfDataSchemaBuilder<T>> for DataSchema<DS, AS, OS> where
    T: IntoDataSchemaBuilder<DS, AS, OS>,
 {
    open spec fn obeys_try_from_spec() -> bool {
        false
    }

    open spec fn try_from_spec(builder: OneOfDataSchemaBuilder<T>) -> Result<Self, Error> {
        arbitrary()
    }
}

impl<T, DS, AS, OS> IntoUnchecked<DS, AS, OS> for ReadOnly<T> where
    T: IntoUnchecked<DS, AS, OS>,
 {
    open spec fn unchecked(self) -> UncheckedDataSchema<DS, AS, OS> {
        UncheckedDataSchema { read_only: true, write_only: false, ..self.inner.unchecked() }
    }

    fn into_unchecked(self) -> (r: UncheckedDataSchema<DS, AS, OS>) {
        let mut schema = self.inner.into_unchecked();
        schema.read_only = true;
        schema.write_only = false;
        schema
    }
}

impl<T, DS, AS, OS> From<ReadOnly<T>> for UncheckedDataSchema<DS, AS, OS> where
    T: IntoUnchecked<DS, AS, OS>,
 {
    /// The unchecked schema of what the builder holds.
    fn from(builder: ReadOnly<T>) -> (r: Self)
        ensures
            r == builder.unchecked(),
            unchecked_matches(builder.model(), r),
    {
        builder.into_unchecked()
    }
}

impl<T, DS, AS, OS> vstd::std_specs::convert::FromSpecImpl<ReadOnly<T>> for UncheckedDataSchema<DS, AS, OS> where
    T: IntoUnchecked<DS, AS, OS>,
 {
    open spec fn obeys_from_spec() -> bool {
        true
    }

    open spec fn from_spec(builder: ReadOnly<T>) -> Self {
        builder.unchecked()
    }
}

impl<T, DS, AS, OS> TryFrom<ReadOnly<T>> for DataSchema<DS, AS, OS> where
    T: IntoUnchecked<DS, AS, OS>,
 {
    type Error = Error;

    /// The final schema of what the builder holds: the unchecked schema of
    /// the builder, converted.
    fn try_from(builder: ReadOnly<T>) -> (r: Result<Self, Error>)
        ensures
            unchecked_matches(builder.model(), builder.unchecked()),
            outcome_is(
                r,
                schema_tag_fault(builder.unchecked()),
                |target: DataSchema<DS, AS, OS>| schema_converts(builder.unchecked(), target),
            ),
    {
        DataSchema::try_from_unchecked(builder.into_unchecked())
    }
}

/// What `try_from` returns is stated by its own `ensures`; it is not given as
/// a function of the builder.
impl<T, DS, AS, OS> vstd::std_specs::convert::TryFromSpecImpl<ReadOnly<T>> for DataSchema<DS, AS, OS> where
    T: IntoUnchecked<DS, AS, OS>,
 {
    open spec fn obeys_try_from_spec() -> bool {
        false
    }

    open spec fn try_from_spec(builder: ReadOnly<T>) -> Result<Self, Error> {
        arbitrary()
    }
}

impl<T, DS, AS, OS> IntoUnchecked<DS, AS, OS> for WriteOnly<T> where
    T: IntoUnchecked<DS, AS, OS>,
 {
    open spec fn unchecked(self) -> UncheckedDataSchema<DS, AS, OS> {
        UncheckedDataSchema { read_only: false, write_only: true, ..self.inner.unchecked() }
    }

    fn into_unchecked(self) -> (r: UncheckedDataSchema<DS, AS, OS>) {
        let mut schema = self.inner.into_unchecked();
        schema.read_only = false;
        schema.write_only = true;
        schema
    }
}

impl<T, DS, AS, OS> From<WriteOnly<T>> for UncheckedDataSchema<DS, AS, OS> where
    T: IntoUnchecked<DS, AS, OS>,
 {
    /// The unchecked schema of what the builder holds.
    fn from(builder: WriteOnly<T>) -> (r: Self)
        ensures
            r == builder.unchecked(),
            unchecked_matches(builder.model(), r),
    {
        builder.into_unchecked()
    }
}

impl<T, DS, AS, OS> vstd::std_specs::convert::FromSpecImpl<WriteOnly<T>> for UncheckedDataSchema<DS, AS, OS> where
    T: IntoUnchecked<DS, AS, OS>,
 {
    open spec fn obeys_from_spec() -> bool {
        true
    }

    open spec fn from_spec(builder: WriteOnly<T>) -> Self {
        builder.unchecked()
    }
}

impl<T, DS, AS, OS> TryFrom<WriteOnly<T>> for DataSchema<DS, AS, OS> where
    T: IntoUnchecked<DS, AS, OS>,
 {
    type Error = Error;

    /// The final schema of what the builder holds: the unchecked schema of
    /// the builder, converted.
    fn try_from(builder: WriteOnly<T>) -> (r: Result<Self, Error>)
        ensures
            unchecked_matches(builder.model(), builder.unchecked()),
            outcome_is(
                r,
                schema_tag_fault(builder.unchecked()),
                |target: DataSchema<DS, AS, OS>| schema_converts(builder.unchecked(), target),
            ),
    {
        DataSchema::try_from_unchecked(builder.into_unchecked())
    }
}

/// What `try_from` returns is stated by its own `ensures`; it is not given as
/// a function of the builder.
impl<T, DS, AS, OS> vstd::std_specs::convert::TryFromSpecImpl<WriteOnly<T>> for DataSchema<DS, AS, OS> where
    T: IntoUnchecked<DS, AS, OS>,
 {
    open spec fn obeys_try_from_spec() -> bool {
        false
    }

    open spec fn try_from_spec(builder: WriteOnly<T>) -> Result<Self, Error> {
        arbitrary()
    }
}

impl<T, DS, AS, OS> IntoPartial<DS, AS, OS> for StatelessDataSchemaBuilder<T> where
    T: IntoPartialBuilder<DS, AS, OS>,
 {
    open spec fn partial(self) -> PartialDataSchema<DS, AS, OS> {
        assembled_partial(
            self.inner.partial_builder(),
            true,
            false,
            false,
            match self.ty {
                Some(StatelessDataSchemaType::Boolean) => Some(UncheckedDataSchemaSubtype::Boolean),
                Some(StatelessDataSchemaType::Null) => Some(UncheckedDataSchemaSubtype::Null),
                None => None,
            },
        )
    }

    fn into_partial(self) -> (r: PartialDataSchema<DS, AS, OS>) {
        let StatelessDataSchemaBuilder { inner, ty } = self;
        let builder = inner.into_partial_builder();
        let subtype = match ty {
            Some(ty) => Some(UncheckedDataSchemaSubtype::from(ty)),
            None => None,
        };
        partial_of(builder, true, false, false, subtype)
    }
}

impl<T, DS, AS, OS> From<StatelessDataSchemaBuilder<T>> for PartialDataSchema<DS, AS, OS> where
    T: IntoPartialBuilder<DS, AS, OS>,
 {
    /// The partial schema of what the builder holds.
    fn from(builder: StatelessDataSchemaBuilder<T>) -> (r: Self)
        ensures
            r == builder.partial(),
            partial_matches(builder.model(), r),
    {
        builder.into_partial()
    }
}

impl<T, DS, AS, OS> vstd::std_specs::convert::FromSpecImpl<StatelessDataSchemaBuilder<T>> for PartialDataSchema<DS, AS, OS> where
    T: IntoPartialBuilder<DS, AS, OS>,
 {
    open spec fn obeys_from_spec() -> bool {
        true
    }

    open spec fn from_spec(builder: StatelessDataSchemaBuilder<T>) -> Self {
        builder.partial()
    }
}

impl<T, DS, AS, OS> IntoPartial<DS, AS, OS> for TupleDataSchemaBuilder<T, DS, AS, OS> where
    T: IntoPartialBuilder<DS, AS, OS>,
 {
    open spec fn partial(self) -> PartialDataSchema<DS, AS, OS> {
        assembled_partial(
            self.inner.partial_builder(),
            false,
            false,
            false,
            Some(
                UncheckedDataSchemaSubtype::Array(
                    UncheckedArraySchema {
                        items: Some(BoxedElemOrVec::Vec(self.items)),
                        min_items: None,
                        max_items: None,
                        other: self.other,
                    },
                ),
            ),
        )
    }

    fn into_partial(self) -> (r: PartialDataSchema<DS, AS, OS>) {
        let TupleDataSchemaBuilder { inner, items, other } = self;
        let builder = inner.into_partial_builder();
        let subtype = Some(
            UncheckedDataSchemaSubtype::Array(
                UncheckedArraySchema {
                    items: Some(BoxedElemOrVec::Vec(items)),
                    min_items: None,
                    max_items: None,
                    other,
                },
            ),
        );
        partial_of(builder, false, false, false, subtype)
    }
}

impl<T, DS, AS, OS> From<TupleDataSchemaBuilder<T, DS, AS, OS>> for PartialDataSchema<DS, AS, OS> where
    T: IntoPartialBuilder<DS, AS, OS>,
 {
    /// The partial schema of what the builder holds.
    fn from(builder: TupleDataSchemaBuilder<T, DS, AS, OS>) -> (r: Self)
        ensures
            r == builder.partial(),
            partial_matches(builder.model(), r),
    {
        builder.into_partial()
    }
}

impl<T, DS, AS, OS> vstd::std_specs::convert::FromSpecImpl<TupleDataSchemaBuilder<T, DS, AS, OS>> for PartialDataSchema<DS, AS, OS> where
    T: IntoPartialBuilder<DS, AS, OS>,
 {
    open spec fn obeys_from_spec() -> bool {
        true
    }

    open spec fn from_spec(builder: TupleDataSchemaBuilder<T, DS, AS, OS>) -> Self {
        builder.partial()
    }
}

impl<T, DS, AS, OS> IntoPartial<DS, AS, OS> for VecDataSchemaBuilder<T, DS, AS, OS> where
    T: IntoPartialBuilder<DS, AS, OS>,
 {
    open spec fn partial(self) -> PartialDataSchema<DS, AS, OS> {
        assembled_partial(
            self.inner.partial_builder(),
            false,
            false,
            false,
            Some(
                UncheckedDataSchemaSubtype::Array(
                    UncheckedArraySchema {
                        items: match self.item {
                            Some(item) => Some(BoxedElemOrVec::Elem(Box::new(item))),
                            None => None,
                        },
                        min_items: self.min_items,
                        max_items: self.max_items,
                        other: self.other,
                    },
                ),
            ),
        )
    }

    fn into_partial(self) -> (r: PartialDataSchema<DS, AS, OS>) {
        let VecDataSchemaBuilder { inner, item, min_items, max_items, other } = self;
        let builder = inner.into_partial_builder();
        let items = match item {
            Some(item) => Some(BoxedElemOrVec::Elem(Box::new(item))),
            None => None,
        };
        let subtype = Some(
            UncheckedDataSchemaSubtype::Array(
                UncheckedArraySchema { items, min_items, max_items, other },
            ),
        );
        partial_of(builder, false, false, false, subtype)
    }
}

impl<T, DS, AS, OS> From<VecDataSchemaBuilder<T, DS, AS, OS>> for PartialDataSchema<DS, AS, OS> where
    T: IntoPartialBuilder<DS, AS, OS>,
 {
    /// The partial schema of what the builder holds.
    fn from(builder: VecDataSchemaBuilder<T, DS, AS, OS>) -> (r: Self)
        ensures
            r == builder.partial(),
            partial_matches(builder.model(), r),
    {
        builder.into_partial()
    }
}

impl<T, DS, AS, OS> vstd::std_specs::convert::FromSpecImpl<VecDataSchemaBuilder<T, DS, AS, OS>> for PartialDataSchema<DS, AS, OS> where
    T: IntoPartialBuilder<DS, AS, OS>,
 {
    open spec fn obeys_from_spec() -> bool {
        true
    }

    open spec fn from_spec(builder: VecDataSchemaBuilder<T, DS, AS, OS>) -> Self {
        builder.partial()
    }
}

impl<T, DS, AS, OS> IntoPartial<DS, AS, OS> for NumberDataSchemaBuilder<T> where
    T: IntoPartialBuilder<DS, AS, OS>,
 {
    open spec fn partial(self) -> PartialDataSchema<DS, AS, OS> {
        assembled_partial(
            self.inner.partial_builder(),
            false,
            false,
            false,
            Some(
                UncheckedDataSchemaSubtype::Number(
                    NumberSchema {
                        maximum: self.maximum,
                        minimum: self.minimum,
                        multiple_of: self.multiple_of,
                    },
                ),
            ),
        )
    }

    fn into_partial(self) -> (r: PartialDataSchema<DS, AS, OS>) {
        let NumberDataSchemaBuilder { inner, maximum, minimum, multiple_of } = self;
        let builder = inner.into_partial_builder();
        let subtype = Some(
            UncheckedDataSchemaSubtype::Number(NumberSchema { maximum, minimum, multiple_of }),
        );
        partial_of(builder, false, false, false, subtype)
    }
}

impl<T, DS, AS, OS> From<NumberDataSchemaBuilder<T>> for PartialDataSchema<DS, AS, OS> where
    T: IntoPartialBuilder<DS, AS, OS>,
 {
    /// The partial schema of what the builder holds.
    fn from(builder: NumberDataSchemaBuilder<T>) -> (r: Self)
        ensures
            r == builder.partial(),
            partial_matches(builder.model(), r),
    {
        builder.into_partial()
    }
}

impl<T, DS, AS, OS> vstd::std_specs::convert::FromSpecImpl<NumberDataSchemaBuilder<T>> for PartialDataSchema<DS, AS, OS> where
    T: IntoPartialBuilder<DS, AS, OS>,
 {
    open spec fn obeys_from_spec() -> bool {
        true
    }

    open spec fn from_spec(builder: NumberDataSchemaBuilder<T>) -> Self {
        builder.partial()
    }
}

impl<T, DS, AS, OS> IntoPartial<DS, AS, OS> for IntegerDataSchemaBuilder<T> where
    T: IntoPartialBuilder<DS, AS, OS>,
 {
    open spec fn partial(self) -> PartialDataSchema<DS, AS, OS> {
        assembled_partial(
            self.inner.partial_builder(),
            false,
            false,
            false,
            Some(
                UncheckedDataSchemaSubtype::Integer(
                    IntegerSchema {
                        maximum: self.maximum,
                        minimum: self.minimum,
                        multiple_of: self.multiple_of,
                    },
                ),
            ),
        )
    }

    fn into_partial(self) -> (r: PartialDataSchema<DS, AS, OS>) {
        let IntegerDataSchemaBuilder { inner, maximum, minimum, multiple_of } = self;
        let builder = inner.into_partial_builder();
        let subtype = Some(
            UncheckedDataSchemaSubtype::Integer(IntegerSchema { maximum, minimum, multiple_of }),
        );
        partial_of(builder, false, false, false, subtype)
    }
}

impl<T, DS, AS, OS> From<IntegerDataSchemaBuilder<T>> for PartialDataSchema<DS, AS, OS> where
    T: IntoPartialBuilder<DS, AS, OS>,
 {
    /// The partial schema of what the builder holds.
    fn from(builder: IntegerDataSchemaBuilder<T>) -> (r: Self)
        ensures
            r == builder.partial(),
            partial_matches(builder.model(), r),
    {
        builder.into_partial()
    }
}

impl<T, DS, AS, OS> vstd::std_specs::convert::FromSpecImpl<IntegerDataSchemaBuilder<T>> for PartialDataSchema<DS, AS, OS> where
    T: IntoPartialBuilder<DS, AS, OS>,
 {
    open spec fn obeys_from_spec() -> bool {
        true
    }

    open spec fn from_spec(builder: IntegerDataSchemaBuilder<T>) -> Self {
        builder.partial()
    }
}

impl<T, DS, AS, OS> IntoPartial<DS, AS, OS> for ObjectDataSchemaBuilder<T, DS, AS, OS> where
    T: IntoPartialBuilder<DS, AS, OS>,
 {
    open spec fn partial(self) -> PartialDataSchema<DS, AS, OS> {
        assembled_partial(
            self.inner.partial_builder(),
            false,
            false,
            false,
            Some(
                UncheckedDataSchemaSubtype::Object(
                    UncheckedObjectSchema {
                        properties: if self.properties@.len() == 0 {
                            None
                        } else {
                            Some(self.properties)
                        },
                        required: if self.required@.len() == 0 {
                            None
                        } else {
                            Some(self.required)
                        },
                        other: self.other,
                    },
                ),
            ),
        )
    }

    fn into_partial(self) -> (r: PartialDataSchema<DS, AS, OS>) {
        let ObjectDataSchemaBuilder { inner, properties, required, other } = self;
        let builder = inner.into_partial_builder();
        let properties = if properties.is_empty() {
            None
        } else {
            Some(properties)
        };
        let required = if required.len() == 0 {
            None
        } else {
            Some(required)
        };
        let subtype = Some(
            UncheckedDataSchemaSubtype::Object(
                UncheckedObjectSchema { properties, required, other },
            ),
        );
        partial_of(builder, false, false, false, subtype)
    }
}

impl<T, DS, AS, OS> From<ObjectDataSchemaBuilder<T, DS, AS, OS>> for PartialDataSchema<DS, AS, OS> where
    T: IntoPartialBuilder<DS, AS, OS>,
 {
    /// The partial schema of what the builder holds.
    fn from(builder: ObjectDataSchemaBuilder<T, DS, AS, OS>) -> (r: Self)
        ensures
            r == builder.partial(),
            partial_matches(builder.model(), r),
    {
        builder.into_partial()
    }
}

impl<T, DS, AS, OS> vstd::std_specs::convert::FromSpecImpl<ObjectDataSchemaBuilder<T, DS, AS, OS>> for PartialDataSchema<DS, AS, OS> where
    T: IntoPartialBuilder<DS, AS, OS>,
 {
    open spec fn obeys_from_spec() -> bool {
        true
    }

    open spec fn from_spec(builder: ObjectDataSchemaBuilder<T, DS, AS, OS>) -> Self {
        builder.partial()
    }
}

impl<T, DS, AS, OS> IntoPartial<DS, AS, OS> for StringDataSchemaBuilder<T> where
    T: IntoPartialBuilder<DS, AS, OS>,
 {
    open spec fn partial(self) -> PartialDataSchema<DS, AS, OS> {
        assembled_partial(
            self.inner.partial_builder(),
            false,
            false,
            false,
            Some(
                UncheckedDataSchemaSubtype::String(
                    StringSchema {
                        min_length: self.min_length,
                        max_length: self.max_length,
                        pattern: self.pattern,
                        content_encoding: self.content_encoding,
                        content_media_type: self.content_media_type,
                    },
                ),
            ),
        )
    }

    fn into_partial(self) -> (r: PartialDataSchema<DS, AS, OS>) {
        let StringDataSchemaBuilder {
            inner,
            min_length,
            max_length,
            pattern,
            content_encoding,
            content_media_type,
        } = self;
        let builder = inner.into_partial_builder();
        let subtype = Some(
            UncheckedDataSchemaSubtype::String(
                StringSchema {
                    min_length,
                    max_length,
                    pattern,
                    content_encoding,
                    content_media_type,
                },
            ),
        );
        partial_of(builder, false, false, false, subtype)
    }
}

impl<T, DS, AS, OS> From<StringDataSchemaBuilder<T>> for PartialDataSchema<DS, AS, OS> where
    T: IntoPartialBuilder<DS, AS, OS>,
 {
    /// The partial schema of what the builder holds.
    fn from(builder: StringDataSchemaBuilder<T>) -> (r: Self)
        ensures
            r == builder.partial(),
            partial_matches(builder.model(), r),
    {
        builder.into_partial()
    }
}

impl<T, DS, AS, OS> vstd::std_specs::convert::FromSpecImpl<StringDataSchemaBuilder<T>> for PartialDataSchema<DS, AS, OS> where
    T: IntoPartialBuilder<DS, AS, OS>,
 {
    open spec fn obeys_from_spec() -> bool {
        true
    }

    open spec fn from_spec(builder: StringDataSchemaBuilder<T>) -> Self {
        builder.partial()
    }
}

impl<T, DS, AS, OS> IntoPartial<DS, AS, OS> for EnumDataSchemaBuilder<T> where
    T: IntoPartialBuilder<DS, AS, OS>,
 {
    open spec fn partial(self) -> PartialDataSchema<DS, AS, OS> {
        assembled_partial(
            self.inner.partial_builder(),
            false,
            false,
            true,
            None,
        )
    }

    fn into_partial(self) -> (r: PartialDataSchema<DS, AS, OS>) {
        let EnumDataSchemaBuilder { inner } = self;
        let builder = inner.into_partial_builder();
        let subtype = None;
        partial_of(builder, false, false, true, subtype)
    }
}

impl<T, DS, AS, OS> From<EnumDataSchemaBuilder<T>> for PartialDataSchema<DS, AS, OS> where
    T: IntoPartialBuilder<DS, AS, OS>,
 {
    /// The partial schema of what the builder holds.
    fn from(builder: EnumDataSchemaBuilder<T>) -> (r: Self)
        ensures
            r == builder.partial(),
            partial_matches(builder.model(), r),
    {
        builder.into_partial()
    }
}

impl<T, DS, AS, OS> vstd::std_specs::convert::FromSpecImpl<EnumDataSchemaBuilder<T>> for PartialDataSchema<DS, AS, OS> where
    T: IntoPartialBuilder<DS, AS, OS>,
 {
    open spec fn obeys_from_spec() -> bool {
        true
    }

    open spec fn from_spec(builder: EnumDataSchemaBuilder<T>) -> Self {
        builder.partial()
    }
}

impl<T, DS, AS, OS> IntoPartial<DS, AS, OS> for OneOfDataSchemaBuilder<T> where
    T: IntoPartialBuilder<DS, AS, OS>,
 {
    open spec fn partial(self) -> PartialDataSchema<DS, AS, OS> {
        assembled_partial(
            self.inner.partial_builder(),
            false,
            true,
            false,
            None,
        )
    }

    fn into_partial(self) -> (r: PartialDataSchema<DS, AS, OS>) {
        let OneOfDataSchemaBuilder { inner } = self;
        let builder = inner.into_partial_builder();
        let subtype = None;
        partial_of(builder, false, true, false, subtype)
    }
}

impl<T, DS, AS, OS> From<OneOfDataSchemaBuilder<T>> for PartialDataSchema<DS, AS, OS> where
    T: IntoPartialBuilder<DS, AS, OS>,
 {
    /// The partial schema of what the builder holds.
    fn from(builder: OneOfDataSchemaBuilder<T>) -> (r: Self)
        ensures
            r == builder.partial(),
            partial_matches(builder.model(), r),
    {
        builder.into_partial()
    }
}

impl<T, DS, AS, OS> vstd::std_specs::convert::FromSpecImpl<OneOfDataSchemaBuilder<T>> for PartialDataSchema<DS, AS, OS> where
    T: IntoPartialBuilder<DS, AS, OS>,
 {
    open spec fn obeys_from_spec() -> bool {
        true
    }

    open spec fn from_spec(builder: OneOfDataSchemaBuilder<T>) -> Self {
        builder.partial()
    }
}

impl<T, DS, AS, OS> IntoPartial<DS, AS, OS> for ReadOnly<T> where
    T: IntoPartial<DS, AS, OS>,
 {
    open spec fn partial(self) -> PartialDataSchema<DS, AS, OS> {
        PartialDataSchema { read_only: true, write_only: false, ..self.inner.partial() }
    }

    fn into_partial(self) -> (r: PartialDataSchema<DS, AS, OS>) {
        let mut schema = self.inner.into_partial();
        schema.read_only = true;
        schema.write_only = false;
        schema
    }
}

impl<T, DS, AS, OS> From<ReadOnly<T>> for PartialDataSchema<DS, AS, OS> where
    T: IntoPartial<DS, AS, OS>,
 {
    /// The partial schema of what the builder holds.
    fn from(builder: ReadOnly<T>) -> (r: Self)
        ensures
            r == builder.partial(),
            partial_matches(builder.model(), r),
    {
        builder.into_partial()
    }
}

impl<T, DS, AS, OS> vstd::std_specs::convert::FromSpecImpl<ReadOnly<T>> for PartialDataSchema<DS, AS, OS> where
    T: IntoPartial<DS, AS, OS>,
 {
    open spec fn obeys_from_spec() -> bool {
        true
    }

    open spec fn from_spec(builder: ReadOnly<T>) -> Self {
        builder.partial()
    }
}

impl<T, DS, AS, OS> IntoPartial<DS, AS, OS> for WriteOnly<T> where
    T: IntoPartial<DS, AS, OS>,
 {
    open spec fn partial(self) -> PartialDataSchema<DS, AS, OS> {
        PartialDataSchema { read_only: false, write_only: true, ..self.inner.partial() }
    }

    fn into_partial(self) -> (r: PartialDataSchema<DS, AS, OS>) {
        let mut schema = self.inner.into_partial();
        schema.read_only = false;
        schema.write_only = true;
        schema
    }
}

impl<T, DS, AS, OS> From<WriteOnly<T>> for PartialDataSchema<DS, AS, OS> where
    T: IntoPartial<DS, AS, OS>,
 {
    /// The partial schema of what the builder holds.
    fn from(builder: WriteOnly<T>) -> (r: Self)
        ensures
            r == builder.partial(),
            partial_matches(builder.model(), r),
    {
        builder.into_partial()
    }
}

impl<T, DS, AS, OS> vstd::std_specs::convert::FromSpecImpl<WriteOnly<T>> for PartialDataSchema<DS, AS, OS> where
    T: IntoPartial<DS, AS, OS>,
 {
    open spec fn obeys_from_spec() -> bool {
        true
    }

    open spec fn from_spec(builder: WriteOnly<T>) -> Self {
        builder.partial()
    }
}

} // verus!
