//! The builders of the single kinds of schema, and the marked builders.
//!
//! Each of them wraps the builder that it came from. What it holds is what
//! that builder holds, specialized into its kind or wrapped in its marking;
//! the operations that every builder has are handed on to the inner builder.

use vstd::prelude::*;
use serde_json::Value;
use crate::data_schema::{
    BuildableDataSchema, DataSchemaBuilder, EnumDataSchemaBuilder, Extended,
    IntegerDataSchemaBuilder, IntegerDataSchemaBuilderLike, IntoUnchecked,
    NumberDataSchemaBuilder, NumberDataSchemaBuilderLike, ObjectDataSchemaBuilder,
    ObjectDataSchemaBuilderLike, OneOfDataSchemaBuilder, ReadOnly, StatelessDataSchemaBuilder,
    StringDataSchemaBuilder, StringDataSchemaBuilderLike, ToExtend, TupleDataSchemaBuilder,
    TupleDataSchemaBuilderLike, VecDataSchemaBuilder, VecDataSchemaBuilderLike, WriteOnly,
    build_child,
};
use crate::extend::Extendable;
use crate::human_readable_info::{BuildableHumanReadableInfo, InfoModel};
use crate::lang::MultiLanguageBuilder;
use crate::model::{Access, BuilderModel, Kind};
use crate::number::Double;
use crate::thing::{IntegerSchema, Maximum, Minimum, NonZeroU64, NumberSchema, StringSchema};

verus! {

impl<Inner, DS, AS, OS> BuildableDataSchema<DS, AS, OS, Extended> for TupleDataSchemaBuilder<Inner, DS, AS, OS> where
    Inner: BuildableDataSchema<DS, AS, OS, Extended>,
 {
    open spec fn model(self) -> BuilderModel<DS, AS, OS> {
        self.inner.model().specialized(Kind::Tuple { items: self.items@, other: self.other })
    }

    fn unit(self, value: String) -> (r: Self) {
        let TupleDataSchemaBuilder { inner, items, other } = self;
        let inner = inner.unit(value);
        TupleDataSchemaBuilder { inner, items, other }
    }

    fn format(self, value: String) -> (r: Self) {
        let TupleDataSchemaBuilder { inner, items, other } = self;
        let inner = inner.format(value);
        TupleDataSchemaBuilder { inner, items, other }
    }

    fn default_value(self, value: Value) -> (r: Self) {
        let TupleDataSchemaBuilder { inner, items, other } = self;
        let inner = inner.default_value(value);
        TupleDataSchemaBuilder { inner, items, other }
    }
}

impl<Inner: BuildableHumanReadableInfo, DS, AS, OS> BuildableHumanReadableInfo for TupleDataSchemaBuilder<Inner, DS, AS, OS> {
    open spec fn info(self) -> InfoModel {
        self.inner.info()
    }

    open spec fn same_but_info(self, other: Self) -> bool {
        self.inner.same_but_info(other.inner) && other.items == self.items && other.other == self.other
    }

    fn attype(self, value: String) -> (r: Self) {
        let TupleDataSchemaBuilder { inner, items, other } = self;
        let inner = inner.attype(value);
        TupleDataSchemaBuilder { inner, items, other }
    }

    fn title(self, value: String) -> (r: Self) {
        let TupleDataSchemaBuilder { inner, items, other } = self;
        let inner = inner.title(value);
        TupleDataSchemaBuilder { inner, items, other }
    }

    fn titles<F>(self, f: F) -> (r: Self) where
        F: FnOnce(MultiLanguageBuilder<String>) -> MultiLanguageBuilder<String>,
     {
        let TupleDataSchemaBuilder { inner, items, other } = self;
        let inner = inner.titles(f);
        TupleDataSchemaBuilder { inner, items, other }
    }

    fn description(self, value: String) -> (r: Self) {
        let TupleDataSchemaBuilder { inner, items, other } = self;
        let inner = inner.description(value);
        TupleDataSchemaBuilder { inner, items, other }
    }

    fn descriptions<F>(self, f: F) -> (r: Self) where
        F: FnOnce(MultiLanguageBuilder<String>) -> MultiLanguageBuilder<String>,
     {
        let TupleDataSchemaBuilder { inner, items, other } = self;
        let inner = inner.descriptions(f);
        TupleDataSchemaBuilder { inner, items, other }
    }
}

impl<Inner, DS, AS, OS> BuildableDataSchema<DS, AS, OS, Extended> for VecDataSchemaBuilder<Inner, DS, AS, OS> where
    Inner: BuildableDataSchema<DS, AS, OS, Extended>,
 {
    open spec fn model(self) -> BuilderModel<DS, AS, OS> {
        self.inner.model().specialized(
            Kind::List {
                item: self.item,
                min_items: self.min_items,
                max_items: self.max_items,
                other: self.other,
            },
        )
    }

    fn unit(self, value: String) -> (r: Self) {
        let VecDataSchemaBuilder { inner, item, min_items, max_items, other } = self;
        let inner = inner.unit(value);
        VecDataSchemaBuilder { inner, item, min_items, max_items, other }
    }

    fn format(self, value: String) -> (r: Self) {
        let VecDataSchemaBuilder { inner, item, min_items, max_items, other } = self;
        let inner = inner.format(value);
        VecDataSchemaBuilder { inner, item, min_items, max_items, other }
    }

    fn default_value(self, value: Value) -> (r: Self) {
        let VecDataSchemaBuilder { inner, item, min_items, max_items, other } = self;
        let inner = inner.default_value(value);
        VecDataSchemaBuilder { inner, item, min_items, max_items, other }
    }
}

impl<Inner: BuildableHumanReadableInfo, DS, AS, OS> BuildableHumanReadableInfo for VecDataSchemaBuilder<Inner, DS, AS, OS> {
    open spec fn info(self) -> InfoModel {
        self.inner.info()
    }

    open spec fn same_but_info(self, other: Self) -> bool {
        self.inner.same_but_info(other.inner) && other.item == self.item && other.min_items == self.min_items && other.max_items == self.max_items && other.other == self.other
    }

    fn attype(self, value: String) -> (r: Self) {
        let VecDataSchemaBuilder { inner, item, min_items, max_items, other } = self;
        let inner = inner.attype(value);
        VecDataSchemaBuilder { inner, item, min_items, max_items, other }
    }

    fn title(self, value: String) -> (r: Self) {
        let VecDataSchemaBuilder { inner, item, min_items, max_items, other } = self;
        let inner = inner.title(value);
        VecDataSchemaBuilder { inner, item, min_items, max_items, other }
    }

    fn titles<F>(self, f: F) -> (r: Self) where
        F: FnOnce(MultiLanguageBuilder<String>) -> MultiLanguageBuilder<String>,
     {
        let VecDataSchemaBuilder { inner, item, min_items, max_items, other } = self;
        let inner = inner.titles(f);
        VecDataSchemaBuilder { inner, item, min_items, max_items, other }
    }

    fn description(self, value: String) -> (r: Self) {
        let VecDataSchemaBuilder { inner, item, min_items, max_items, other } = self;
        let inner = inner.description(value);
        VecDataSchemaBuilder { inner, item, min_items, max_items, other }
    }

    fn descriptions<F>(self, f: F) -> (r: Self) where
        F: FnOnce(MultiLanguageBuilder<String>) -> MultiLanguageBuilder<String>,
     {
        let VecDataSchemaBuilder { inner, item, min_items, max_items, other } = self;
        let inner = inner.descriptions(f);
        VecDataSchemaBuilder { inner, item, min_items, max_items, other }
    }
}

impl<Inner, DS, AS, OS> BuildableDataSchema<DS, AS, OS, Extended> for NumberDataSchemaBuilder<Inner> where
    Inner: BuildableDataSchema<DS, AS, OS, Extended>,
 {
    open spec fn model(self) -> BuilderModel<DS, AS, OS> {
        self.inner.model().specialized(
            Kind::Number(
                NumberSchema {
                    maximum: self.maximum,
                    minimum: self.minimum,
                    multiple_of: self.multiple_of,
                },
            ),
        )
    }

    fn unit(self, value: String) -> (r: Self) {
        let NumberDataSchemaBuilder { inner, maximum, minimum, multiple_of } = self;
        let inner = inner.unit(value);
        NumberDataSchemaBuilder { inner, maximum, minimum, multiple_of }
    }

    fn format(self, value: String) -> (r: Self) {
        let NumberDataSchemaBuilder { inner, maximum, minimum, multiple_of } = self;
        let inner = inner.format(value);
        NumberDataSchemaBuilder { inner, maximum, minimum, multiple_of }
    }

    fn default_value(self, value: Value) -> (r: Self) {
        let NumberDataSchemaBuilder { inner, maximum, minimum, multiple_of } = self;
        let inner = inner.default_value(value);
        NumberDataSchemaBuilder { inner, maximum, minimum, multiple_of }
    }
}

impl<Inner: BuildableHumanReadableInfo> BuildableHumanReadableInfo for NumberDataSchemaBuilder<Inner> {
    open spec fn info(self) -> InfoModel {
        self.inner.info()
    }

    open spec fn same_but_info(self, other: Self) -> bool {
        self.inner.same_but_info(other.inner) && other.maximum == self.maximum && other.minimum == self.minimum && other.multiple_of == self.multiple_of
    }

    fn attype(self, value: String) -> (r: Self) {
        let NumberDataSchemaBuilder { inner, maximum, minimum, multiple_of } = self;
        let inner = inner.attype(value);
        NumberDataSchemaBuilder { inner, maximum, minimum, multiple_of }
    }

    fn title(self, value: String) -> (r: Self) {
        let NumberDataSchemaBuilder { inner, maximum, minimum, multiple_of } = self;
        let inner = inner.title(value);
        NumberDataSchemaBuilder { inner, maximum, minimum, multiple_of }
    }

    fn titles<F>(self, f: F) -> (r: Self) where
        F: FnOnce(MultiLanguageBuilder<String>) -> MultiLanguageBuilder<String>,
     {
        let NumberDataSchemaBuilder { inner, maximum, minimum, multiple_of } = self;
        let inner = inner.titles(f);
        NumberDataSchemaBuilder { inner, maximum, minimum, multiple_of }
    }

    fn description(self, value: String) -> (r: Self) {
        let NumberDataSchemaBuilder { inner, maximum, minimum, multiple_of } = self;
        let inner = inner.description(value);
        NumberDataSchemaBuilder { inner, maximum, minimum, multiple_of }
    }

    fn descriptions<F>(self, f: F) -> (r: Self) where
        F: FnOnce(MultiLanguageBuilder<String>) -> MultiLanguageBuilder<String>,
     {
        let NumberDataSchemaBuilder { inner, maximum, minimum, multiple_of } = self;
        let inner = inner.descriptions(f);
        NumberDataSchemaBuilder { inner, maximum, minimum, multiple_of }
    }
}

impl<Inner, DS, AS, OS> BuildableDataSchema<DS, AS, OS, Extended> for IntegerDataSchemaBuilder<Inner> where
    Inner: BuildableDataSchema<DS, AS, OS, Extended>,
 {
    open spec fn model(self) -> BuilderModel<DS, AS, OS> {
        self.inner.model().specialized(
            Kind::Integer(
                IntegerSchema {
                    maximum: self.maximum,
                    minimum: self.minimum,
                    multiple_of: self.multiple_of,
                },
            ),
        )
    }

    fn unit(self, value: String) -> (r: Self) {
        let IntegerDataSchemaBuilder { inner, maximum, minimum, multiple_of } = self;
        let inner = inner.unit(value);
        IntegerDataSchemaBuilder { inner, maximum, minimum, multiple_of }
    }

    fn format(self, value: String) -> (r: Self) {
        let IntegerDataSchemaBuilder { inner, maximum, minimum, multiple_of } = self;
        let inner = inner.format(value);
        IntegerDataSchemaBuilder { inner, maximum, minimum, multiple_of }
    }

    fn default_value(self, value: Value) -> (r: Self) {
        let IntegerDataSchemaBuilder { inner, maximum, minimum, multiple_of } = self;
        let inner = inner.default_value(value);
        IntegerDataSchemaBuilder { inner, maximum, minimum, multiple_of }
    }
}

impl<Inner: BuildableHumanReadableInfo> BuildableHumanReadableInfo for IntegerDataSchemaBuilder<Inner> {
    open spec fn info(self) -> InfoModel {
        self.inner.info()
    }

    open spec fn same_but_info(self, other: Self) -> bool {
        self.inner.same_but_info(other.inner) && other.maximum == self.maximum && other.minimum == self.minimum && other.multiple_of == self.multiple_of
    }

    fn attype(self, value: String) -> (r: Self) {
        let IntegerDataSchemaBuilder { inner, maximum, minimum, multiple_of } = self;
        let inner = inner.attype(value);
        IntegerDataSchemaBuilder { inner, maximum, minimum, multiple_of }
    }

    fn title(self, value: String) -> (r: Self) {
        let IntegerDataSchemaBuilder { inner, maximum, minimum, multiple_of } = self;
        let inner = inner.title(value);
        IntegerDataSchemaBuilder { inner, maximum, minimum, multiple_of }
    }

    fn titles<F>(self, f: F) -> (r: Self) where
        F: FnOnce(MultiLanguageBuilder<String>) -> MultiLanguageBuilder<String>,
     {
        let IntegerDataSchemaBuilder { inner, maximum, minimum, multiple_of } = self;
        let inner = inner.titles(f);
        IntegerDataSchemaBuilder { inner, maximum, minimum, multiple_of }
    }

    fn description(self, value: String) -> (r: Self) {
        let IntegerDataSchemaBuilder { inner, maximum, minimum, multiple_of } = self;
        let inner = inner.description(value);
        IntegerDataSchemaBuilder { inner, maximum, minimum, multiple_of }
    }

    fn descriptions<F>(self, f: F) -> (r: Self) where
        F: FnOnce(MultiLanguageBuilder<String>) -> MultiLanguageBuilder<String>,
     {
        let IntegerDataSchemaBuilder { inner, maximum, minimum, multiple_of } = self;
        let inner = inner.descriptions(f);
        IntegerDataSchemaBuilder { inner, maximum, minimum, multiple_of }
    }
}

impl<Inner, DS, AS, OS> BuildableDataSchema<DS, AS, OS, Extended> for ObjectDataSchemaBuilder<Inner, DS, AS, OS> where
    Inner: BuildableDataSchema<DS, AS, OS, Extended>,
 {
    open spec fn model(self) -> BuilderModel<DS, AS, OS> {
        self.inner.model().specialized(
            Kind::Object {
                properties: self.properties@,
                required: self.required@,
                extension: self.other,
            },
        )
    }

    fn unit(self, value: String) -> (r: Self) {
        let ObjectDataSchemaBuilder { inner, properties, required, other } = self;
        let inner = inner.unit(value);
        ObjectDataSchemaBuilder { inner, properties, required, other }
    }

    fn format(self, value: String) -> (r: Self) {
        let ObjectDataSchemaBuilder { inner, properties, required, other } = self;
        let inner = inner.format(value);
        ObjectDataSchemaBuilder { inner, properties, required, other }
    }

    fn default_value(self, value: Value) -> (r: Self) {
        let ObjectDataSchemaBuilder { inner, properties, required, other } = self;
        let inner = inner.default_value(value);
        ObjectDataSchemaBuilder { inner, properties, required, other }
    }
}

impl<Inner: BuildableHumanReadableInfo, DS, AS, OS> BuildableHumanReadableInfo for ObjectDataSchemaBuilder<Inner, DS, AS, OS> {
    open spec fn info(self) -> InfoModel {
        self.inner.info()
    }

    open spec fn same_but_info(self, other: Self) -> bool {
        self.inner.same_but_info(other.inner) && other.properties == self.properties && other.required == self.required && other.other == self.other
    }

    fn attype(self, value: String) -> (r: Self) {
        let ObjectDataSchemaBuilder { inner, properties, required, other } = self;
        let inner = inner.attype(value);
        ObjectDataSchemaBuilder { inner, properties, required, other }
    }

    fn title(self, value: String) -> (r: Self) {
        let ObjectDataSchemaBuilder { inner, properties, required, other } = self;
        let inner = inner.title(value);
        ObjectDataSchemaBuilder { inner, properties, required, other }
    }

    fn titles<F>(self, f: F) -> (r: Self) where
        F: FnOnce(MultiLanguageBuilder<String>) -> MultiLanguageBuilder<String>,
     {
        let ObjectDataSchemaBuilder { inner, properties, required, other } = self;
        let inner = inner.titles(f);
        ObjectDataSchemaBuilder { inner, properties, required, other }
    }

    fn description(self, value: String) -> (r: Self) {
        let ObjectDataSchemaBuilder { inner, properties, required, other } = self;
        let inner = inner.description(value);
        ObjectDataSchemaBuilder { inner, properties, required, other }
    }

    fn descriptions<F>(self, f: F) -> (r: Self) where
        F: FnOnce(MultiLanguageBuilder<String>) -> MultiLanguageBuilder<String>,
     {
        let ObjectDataSchemaBuilder { inner, properties, required, other } = self;
        let inner = inner.descriptions(f);
        ObjectDataSchemaBuilder { inner, properties, required, other }
    }
}

impl<Inner, DS, AS, OS> BuildableDataSchema<DS, AS, OS, Extended> for StringDataSchemaBuilder<Inner> where
    Inner: BuildableDataSchema<DS, AS, OS, Extended>,
 {
    open spec fn model(self) -> BuilderModel<DS, AS, OS> {
        self.inner.model().specialized(
            Kind::String(
                StringSchema {
                    min_length: self.min_length,
                    max_length: self.max_length,
                    pattern: self.pattern,
                    content_encoding: self.content_encoding,
                    content_media_type: self.content_media_type,
                },
            ),
        )
    }

    fn unit(self, value: String) -> (r: Self) {
        let StringDataSchemaBuilder { inner, min_length, max_length, pattern, content_encoding, content_media_type } = self;
        let inner = inner.unit(value);
        StringDataSchemaBuilder { inner, min_length, max_length, pattern, content_encoding, content_media_type }
    }

    fn format(self, value: String) -> (r: Self) {
        let StringDataSchemaBuilder { inner, min_length, max_length, pattern, content_encoding, content_media_type } = self;
        let inner = inner.format(value);
        StringDataSchemaBuilder { inner, min_length, max_length, pattern, content_encoding, content_media_type }
    }

    fn default_value(self, value: Value) -> (r: Self) {
        let StringDataSchemaBuilder { inner, min_length, max_length, pattern, content_encoding, content_media_type } = self;
        let inner = inner.default_value(value);
        StringDataSchemaBuilder { inner, min_length, max_length, pattern, content_encoding, content_media_type }
    }
}

impl<Inner: BuildableHumanReadableInfo> BuildableHumanReadableInfo for StringDataSchemaBuilder<Inner> {
    open spec fn info(self) -> InfoModel {
        self.inner.info()
    }

    open spec fn same_but_info(self, other: Self) -> bool {
        self.inner.same_but_info(other.inner) && other.min_length == self.min_length && other.max_length == self.max_length && other.pattern == self.pattern && other.content_encoding == self.content_encoding && other.content_media_type == self.content_media_type
    }

    fn attype(self, value: String) -> (r: Self) {
        let StringDataSchemaBuilder { inner, min_length, max_length, pattern, content_encoding, content_media_type } = self;
        let inner = inner.attype(value);
        StringDataSchemaBuilder { inner, min_length, max_length, pattern, content_encoding, content_media_type }
    }

    fn title(self, value: String) -> (r: Self) {
        let StringDataSchemaBuilder { inner, min_length, max_length, pattern, content_encoding, content_media_type } = self;
        let inner = inner.title(value);
        StringDataSchemaBuilder { inner, min_length, max_length, pattern, content_encoding, content_media_type }
    }

    fn titles<F>(self, f: F) -> (r: Self) where
        F: FnOnce(MultiLanguageBuilder<String>) -> MultiLanguageBuilder<String>,
     {
        let StringDataSchemaBuilder { inner, min_length, max_length, pattern, content_encoding, content_media_type } = self;
        let inner = inner.titles(f);
        StringDataSchemaBuilder { inner, min_length, max_length, pattern, content_encoding, content_media_type }
    }

    fn description(self, value: String) -> (r: Self) {
        let StringDataSchemaBuilder { inner, min_length, max_length, pattern, content_encoding, content_media_type } = self;
        let inner = inner.description(value);
        StringDataSchemaBuilder { inner, min_length, max_length, pattern, content_encoding, content_media_type }
    }

    fn descriptions<F>(self, f: F) -> (r: Self) where
        F: FnOnce(MultiLanguageBuilder<String>) -> MultiLanguageBuilder<String>,
     {
        let StringDataSchemaBuilder { inner, min_length, max_length, pattern, content_encoding, content_media_type } = self;
        let inner = inner.descriptions(f);
        StringDataSchemaBuilder { inner, min_length, max_length, pattern, content_encoding, content_media_type }
    }
}

impl<Inner, DS, AS, OS> BuildableDataSchema<DS, AS, OS, Extended> for StatelessDataSchemaBuilder<Inner> where
    Inner: BuildableDataSchema<DS, AS, OS, Extended>,
 {
    open spec fn model(self) -> BuilderModel<DS, AS, OS> {
        self.inner.model().specialized(Kind::Stateless(self.ty))
    }

    fn unit(self, value: String) -> (r: Self) {
        let StatelessDataSchemaBuilder { inner, ty } = self;
        let inner = inner.unit(value);
        StatelessDataSchemaBuilder { inner, ty }
    }

    fn format(self, value: String) -> (r: Self) {
        let StatelessDataSchemaBuilder { inner, ty } = self;
        let inner = inner.format(value);
        StatelessDataSchemaBuilder { inner, ty }
    }

    fn default_value(self, value: Value) -> (r: Self) {
        let StatelessDataSchemaBuilder { inner, ty } = self;
        let inner = inner.default_value(value);
        StatelessDataSchemaBuilder { inner, ty }
    }
}

impl<Inner: BuildableHumanReadableInfo> BuildableHumanReadableInfo for StatelessDataSchemaBuilder<Inner> {
    open spec fn info(self) -> InfoModel {
        self.inner.info()
    }

    open spec fn same_but_info(self, other: Self) -> bool {
        self.inner.same_but_info(other.inner) && other.ty == self.ty
    }

    fn attype(self, value: String) -> (r: Self) {
        let StatelessDataSchemaBuilder { inner, ty } = self;
        let inner = inner.attype(value);
        StatelessDataSchemaBuilder { inner, ty }
    }

    fn title(self, value: String) -> (r: Self) {
        let StatelessDataSchemaBuilder { inner, ty } = self;
        let inner = inner.title(value);
        StatelessDataSchemaBuilder { inner, ty }
    }

    fn titles<F>(self, f: F) -> (r: Self) where
        F: FnOnce(MultiLanguageBuilder<String>) -> MultiLanguageBuilder<String>,
     {
        let StatelessDataSchemaBuilder { inner, ty } = self;
        let inner = inner.titles(f);
        StatelessDataSchemaBuilder { inner, ty }
    }

    fn description(self, value: String) -> (r: Self) {
        let StatelessDataSchemaBuilder { inner, ty } = self;
        let inner = inner.description(value);
        StatelessDataSchemaBuilder { inner, ty }
    }

    fn descriptions<F>(self, f: F) -> (r: Self) where
        F: FnOnce(MultiLanguageBuilder<String>) -> MultiLanguageBuilder<String>,
     {
        let StatelessDataSchemaBuilder { inner, ty } = self;
        let inner = inner.descriptions(f);
        StatelessDataSchemaBuilder { inner, ty }
    }
}

impl<Inner, DS, AS, OS> BuildableDataSchema<DS, AS, OS, Extended> for EnumDataSchemaBuilder<Inner> where
    Inner: BuildableDataSchema<DS, AS, OS, Extended>,
 {
    open spec fn model(self) -> BuilderModel<DS, AS, OS> {
        self.inner.model().specialized(Kind::Enumeration)
    }

    fn unit(self, value: String) -> (r: Self) {
        let EnumDataSchemaBuilder { inner } = self;
        let inner = inner.unit(value);
        EnumDataSchemaBuilder { inner }
    }

    fn format(self, value: String) -> (r: Self) {
        let EnumDataSchemaBuilder { inner } = self;
        let inner = inner.format(value);
        EnumDataSchemaBuilder { inner }
    }

    fn default_value(self, value: Value) -> (r: Self) {
        let EnumDataSchemaBuilder { inner } = self;
        let inner = inner.default_value(value);
        EnumDataSchemaBuilder { inner }
    }
}

impl<Inner: BuildableHumanReadableInfo> BuildableHumanReadableInfo for EnumDataSchemaBuilder<Inner> {
    open spec fn info(self) -> InfoModel {
        self.inner.info()
    }

    open spec fn same_but_info(self, other: Self) -> bool {
        self.inner.same_but_info(other.inner)
    }

    fn attype(self, value: String) -> (r: Self) {
        let EnumDataSchemaBuilder { inner } = self;
        let inner = inner.attype(value);
        EnumDataSchemaBuilder { inner }
    }

    fn title(self, value: String) -> (r: Self) {
        let EnumDataSchemaBuilder { inner } = self;
        let inner = inner.title(value);
        EnumDataSchemaBuilder { inner }
    }

    fn titles<F>(self, f: F) -> (r: Self) where
        F: FnOnce(MultiLanguageBuilder<String>) -> MultiLanguageBuilder<String>,
     {
        let EnumDataSchemaBuilder { inner } = self;
        let inner = inner.titles(f);
        EnumDataSchemaBuilder { inner }
    }

    fn description(self, value: String) -> (r: Self) {
        let EnumDataSchemaBuilder { inner } = self;
        let inner = inner.description(value);
        EnumDataSchemaBuilder { inner }
    }

    fn descriptions<F>(self, f: F) -> (r: Self) where
        F: FnOnce(MultiLanguageBuilder<String>) -> MultiLanguageBuilder<String>,
     {
        let EnumDataSchemaBuilder { inner } = self;
        let inner = inner.descriptions(f);
        EnumDataSchemaBuilder { inner }
    }
}

impl<Inner, DS, AS, OS> BuildableDataSchema<DS, AS, OS, Extended> for OneOfDataSchemaBuilder<Inner> where
    Inner: BuildableDataSchema<DS, AS, OS, Extended>,
 {
    open spec fn model(self) -> BuilderModel<DS, AS, OS> {
        self.inner.model().specialized(Kind::Union)
    }

    fn unit(self, value: String) -> (r: Self) {
        let OneOfDataSchemaBuilder { inner } = self;
        let inner = inner.unit(value);
        OneOfDataSchemaBuilder { inner }
    }

    fn format(self, value: String) -> (r: Self) {
        let OneOfDataSchemaBuilder { inner } = self;
        let inner = inner.format(value);
        OneOfDataSchemaBuilder { inner }
    }

    fn default_value(self, value: Value) -> (r: Self) {
        let OneOfDataSchemaBuilder { inner } = self;
        let inner = inner.default_value(value);
        OneOfDataSchemaBuilder { inner }
    }
}

impl<Inner: BuildableHumanReadableInfo> BuildableHumanReadableInfo for OneOfDataSchemaBuilder<Inner> {
    open spec fn info(self) -> InfoModel {
        self.inner.info()
    }

    open spec fn same_but_info(self, other: Self) -> bool {
        self.inner.same_but_info(other.inner)
    }

    fn attype(self, value: String) -> (r: Self) {
        let OneOfDataSchemaBuilder { inner } = self;
        let inner = inner.attype(value);
        OneOfDataSchemaBuilder { inner }
    }

    fn title(self, value: String) -> (r: Self) {
        let OneOfDataSchemaBuilder { inner } = self;
        let inner = inner.title(value);
        OneOfDataSchemaBuilder { inner }
    }

    fn titles<F>(self, f: F) -> (r: Self) where
        F: FnOnce(MultiLanguageBuilder<String>) -> MultiLanguageBuilder<String>,
     {
        let OneOfDataSchemaBuilder { inner } = self;
        let inner = inner.titles(f);
        OneOfDataSchemaBuilder { inner }
    }

    fn description(self, value: String) -> (r: Self) {
        let OneOfDataSchemaBuilder { inner } = self;
        let inner = inner.description(value);
        OneOfDataSchemaBuilder { inner }
    }

    fn descriptions<F>(self, f: F) -> (r: Self) where
        F: FnOnce(MultiLanguageBuilder<String>) -> MultiLanguageBuilder<String>,
     {
        let OneOfDataSchemaBuilder { inner } = self;
        let inner = inner.descriptions(f);
        OneOfDataSchemaBuilder { inner }
    }
}

impl<Inner, DS, AS, OS> BuildableDataSchema<DS, AS, OS, Extended> for ReadOnly<Inner> where
    Inner: BuildableDataSchema<DS, AS, OS, Extended>,
 {
    open spec fn model(self) -> BuilderModel<DS, AS, OS> {
        self.inner.model().wrapped(Access::ReadOnly)
    }

    fn unit(self, value: String) -> (r: Self) {
        let ReadOnly { inner } = self;
        let inner = inner.unit(value);
        ReadOnly { inner }
    }

    fn format(self, value: String) -> (r: Self) {
        let ReadOnly { inner } = self;
        let inner = inner.format(value);
        ReadOnly { inner }
    }

    fn default_value(self, value: Value) -> (r: Self) {
        let ReadOnly { inner } = self;
        let inner = inner.default_value(value);
        ReadOnly { inner }
    }
}

impl<Inner: BuildableHumanReadableInfo> BuildableHumanReadableInfo for ReadOnly<Inner> {
    open spec fn info(self) -> InfoModel {
        self.inner.info()
    }

    open spec fn same_but_info(self, other: Self) -> bool {
        self.inner.same_but_info(other.inner)
    }

    fn attype(self, value: String) -> (r: Self) {
        let ReadOnly { inner } = self;
        let inner = inner.attype(value);
        ReadOnly { inner }
    }

    fn title(self, value: String) -> (r: Self) {
        let ReadOnly { inner } = self;
        let inner = inner.title(value);
        ReadOnly { inner }
    }

    fn titles<F>(self, f: F) -> (r: Self) where
        F: FnOnce(MultiLanguageBuilder<String>) -> MultiLanguageBuilder<String>,
     {
        let ReadOnly { inner } = self;
        let inner = inner.titles(f);
        ReadOnly { inner }
    }

    fn description(self, value: String) -> (r: Self) {
        let ReadOnly { inner } = self;
        let inner = inner.description(value);
        ReadOnly { inner }
    }

    fn descriptions<F>(self, f: F) -> (r: Self) where
        F: FnOnce(MultiLanguageBuilder<String>) -> MultiLanguageBuilder<String>,
     {
        let ReadOnly { inner } = self;
        let inner = inner.descriptions(f);
        ReadOnly { inner }
    }
}

impl<Inner, DS, AS, OS> BuildableDataSchema<DS, AS, OS, Extended> for WriteOnly<Inner> where
    Inner: BuildableDataSchema<DS, AS, OS, Extended>,
 {
    open spec fn model(self) -> BuilderModel<DS, AS, OS> {
        self.inner.model().wrapped(Access::WriteOnly)
    }

    fn unit(self, value: String) -> (r: Self) {
        let WriteOnly { inner } = self;
        let inner = inner.unit(value);
        WriteOnly { inner }
    }

    fn format(self, value: String) -> (r: Self) {
        let WriteOnly { inner } = self;
        let inner = inner.format(value);
        WriteOnly { inner }
    }

    fn default_value(self, value: Value) -> (r: Self) {
        let WriteOnly { inner } = self;
        let inner = inner.default_value(value);
        WriteOnly { inner }
    }
}

impl<Inner: BuildableHumanReadableInfo> BuildableHumanReadableInfo for WriteOnly<Inner> {
    open spec fn info(self) -> InfoModel {
        self.inner.info()
    }

    open spec fn same_but_info(self, other: Self) -> bool {
        self.inner.same_but_info(other.inner)
    }

    fn attype(self, value: String) -> (r: Self) {
        let WriteOnly { inner } = self;
        let inner = inner.attype(value);
        WriteOnly { inner }
    }

    fn title(self, value: String) -> (r: Self) {
        let WriteOnly { inner } = self;
        let inner = inner.title(value);
        WriteOnly { inner }
    }

    fn titles<F>(self, f: F) -> (r: Self) where
        F: FnOnce(MultiLanguageBuilder<String>) -> MultiLanguageBuilder<String>,
     {
        let WriteOnly { inner } = self;
        let inner = inner.titles(f);
        WriteOnly { inner }
    }

    fn description(self, value: String) -> (r: Self) {
        let WriteOnly { inner } = self;
        let inner = inner.description(value);
        WriteOnly { inner }
    }

    fn descriptions<F>(self, f: F) -> (r: Self) where
        F: FnOnce(MultiLanguageBuilder<String>) -> MultiLanguageBuilder<String>,
     {
        let WriteOnly { inner } = self;
        let inner = inner.descriptions(f);
        WriteOnly { inner }
    }
}

impl<Inner, DS, AS, OS> TupleDataSchemaBuilderLike<DS, AS, OS> for TupleDataSchemaBuilder<
    Inner,
    DS,
    AS,
    OS,
> where Inner: BuildableDataSchema<DS, AS, OS, Extended> {
    fn append<F, T>(self, f: F) -> (r: Self) where
        F: FnOnce(DataSchemaBuilder<<DS as Extendable>::Empty, AS, OS, ToExtend>) -> T,
        DS: Extendable,
        T: IntoUnchecked<DS, AS, OS>,
     {
        let TupleDataSchemaBuilder { inner, mut items, other } = self;
        let schema = build_child::<DS, AS, OS, F, T>(f);
        items.push(schema);
        TupleDataSchemaBuilder { inner, items, other }
    }
}

impl<Inner, DS, AS, OS> VecDataSchemaBuilderLike<DS, AS, OS> for VecDataSchemaBuilder<
    Inner,
    DS,
    AS,
    OS,
> where Inner: BuildableDataSchema<DS, AS, OS, Extended> {
    fn min_items(self, value: u32) -> (r: Self) {
        let VecDataSchemaBuilder { inner, item, mut min_items, max_items, other } = self;
        min_items = Some(value);
        VecDataSchemaBuilder { inner, item, min_items, max_items, other }
    }

    fn max_items(self, value: u32) -> (r: Self) {
        let VecDataSchemaBuilder { inner, item, min_items, mut max_items, other } = self;
        max_items = Some(value);
        VecDataSchemaBuilder { inner, item, min_items, max_items, other }
    }

    fn set_item<F, T>(self, f: F) -> (r: Self) where
        F: FnOnce(DataSchemaBuilder<<DS as Extendable>::Empty, AS, OS, ToExtend>) -> T,
        DS: Extendable,
        T: IntoUnchecked<DS, AS, OS>,
     {
        let VecDataSchemaBuilder { inner, item: _, min_items, max_items, other } = self;
        let schema = build_child::<DS, AS, OS, F, T>(f);
        VecDataSchemaBuilder { inner, item: Some(schema), min_items, max_items, other }
    }
}

impl<Inner, DS, AS, OS> NumberDataSchemaBuilderLike<DS, AS, OS> for NumberDataSchemaBuilder<Inner> where
    Inner: BuildableDataSchema<DS, AS, OS, Extended>,
 {
    fn minimum(self, value: Double) -> (r: Self) {
        let NumberDataSchemaBuilder { inner, maximum, mut minimum, multiple_of } = self;
        minimum = Some(Minimum::Inclusive(value));
        NumberDataSchemaBuilder { inner, maximum, minimum, multiple_of }
    }

    fn maximum(self, value: Double) -> (r: Self) {
        let NumberDataSchemaBuilder { inner, mut maximum, minimum, multiple_of } = self;
        maximum = Some(Maximum::Inclusive(value));
        NumberDataSchemaBuilder { inner, maximum, minimum, multiple_of }
    }

    fn exclusive_minimum(self, value: Double) -> (r: Self) {
        let NumberDataSchemaBuilder { inner, maximum, mut minimum, multiple_of } = self;
        minimum = Some(Minimum::Exclusive(value));
        NumberDataSchemaBuilder { inner, maximum, minimum, multiple_of }
    }

    fn exclusive_maximum(self, value: Double) -> (r: Self) {
        let NumberDataSchemaBuilder { inner, mut maximum, minimum, multiple_of } = self;
        maximum = Some(Maximum::Exclusive(value));
        NumberDataSchemaBuilder { inner, maximum, minimum, multiple_of }
    }

    fn multiple_of(self, value: Double) -> (r: Self) {
        let NumberDataSchemaBuilder { inner, maximum, minimum, mut multiple_of } = self;
        multiple_of = Some(value);
        NumberDataSchemaBuilder { inner, maximum, minimum, multiple_of }
    }
}

impl<Inner, DS, AS, OS> IntegerDataSchemaBuilderLike<DS, AS, OS> for IntegerDataSchemaBuilder<Inner> where
    Inner: BuildableDataSchema<DS, AS, OS, Extended>,
 {
    fn minimum(self, value: i64) -> (r: Self) {
        let IntegerDataSchemaBuilder { inner, maximum, mut minimum, multiple_of } = self;
        minimum = Some(Minimum::Inclusive(value));
        IntegerDataSchemaBuilder { inner, maximum, minimum, multiple_of }
    }

    fn maximum(self, value: i64) -> (r: Self) {
        let IntegerDataSchemaBuilder { inner, mut maximum, minimum, multiple_of } = self;
        maximum = Some(Maximum::Inclusive(value));
        IntegerDataSchemaBuilder { inner, maximum, minimum, multiple_of }
    }

    fn exclusive_minimum(self, value: i64) -> (r: Self) {
        let IntegerDataSchemaBuilder { inner, maximum, mut minimum, multiple_of } = self;
        minimum = Some(Minimum::Exclusive(value));
        IntegerDataSchemaBuilder { inner, maximum, minimum, multiple_of }
    }

    fn exclusive_maximum(self, value: i64) -> (r: Self) {
        let IntegerDataSchemaBuilder { inner, mut maximum, minimum, multiple_of } = self;
        maximum = Some(Maximum::Exclusive(value));
        IntegerDataSchemaBuilder { inner, maximum, minimum, multiple_of }
    }

    fn multiple_of(self, value: NonZeroU64) -> (r: Self) {
        let IntegerDataSchemaBuilder { inner, maximum, minimum, mut multiple_of } = self;
        multiple_of = Some(value);
        IntegerDataSchemaBuilder { inner, maximum, minimum, multiple_of }
    }
}

impl<Inner, DS, AS, OS> ObjectDataSchemaBuilderLike<DS, AS, OS> for ObjectDataSchemaBuilder<
    Inner,
    DS,
    AS,
    OS,
> where Inner: BuildableDataSchema<DS, AS, OS, Extended> {
    fn property<F, T>(self, name: String, required: bool, f: F) -> (r: Self) where
        F: FnOnce(DataSchemaBuilder<<DS as Extendable>::Empty, AS, OS, ToExtend>) -> T,
        DS: Extendable,
        T: IntoUnchecked<DS, AS, OS>,
     {
        let ObjectDataSchemaBuilder { inner, mut properties, required: mut names, other } = self;
        let schema = build_child::<DS, AS, OS, F, T>(f);
        if required {
            names.push(name.clone());
        }
        properties.insert(name, schema);
        ObjectDataSchemaBuilder { inner, properties, required: names, other }
    }
}

impl<Inner, DS, AS, OS> StringDataSchemaBuilderLike<DS, AS, OS> for StringDataSchemaBuilder<
    Inner,
> where Inner: BuildableDataSchema<DS, AS, OS, Extended> {
    fn min_length(self, value: u32) -> (r: Self) {
        let StringDataSchemaBuilder { inner, mut min_length, max_length, pattern, content_encoding, content_media_type } = self;
        min_length = Some(value);
        StringDataSchemaBuilder { inner, min_length, max_length, pattern, content_encoding, content_media_type }
    }

    fn max_length(self, value: u32) -> (r: Self) {
        let StringDataSchemaBuilder { inner, min_length, mut max_length, pattern, content_encoding, content_media_type } = self;
        max_length = Some(value);
        StringDataSchemaBuilder { inner, min_length, max_length, pattern, content_encoding, content_media_type }
    }

    fn pattern(self, value: String) -> (r: Self) {
        let StringDataSchemaBuilder { inner, min_length, max_length, mut pattern, content_encoding, content_media_type } = self;
        pattern = Some(value);
        StringDataSchemaBuilder { inner, min_length, max_length, pattern, content_encoding, content_media_type }
    }

    fn content_encoding(self, value: String) -> (r: Self) {
        let StringDataSchemaBuilder { inner, min_length, max_length, pattern, mut content_encoding, content_media_type } = self;
        content_encoding = Some(value);
        StringDataSchemaBuilder { inner, min_length, max_length, pattern, content_encoding, content_media_type }
    }

    fn content_media_type(self, value: String) -> (r: Self) {
        let StringDataSchemaBuilder { inner, min_length, max_length, pattern, content_encoding, mut content_media_type } = self;
        content_media_type = Some(value);
        StringDataSchemaBuilder { inner, min_length, max_length, pattern, content_encoding, content_media_type }
    }
}

impl<Inner, DS, AS, OS> VecDataSchemaBuilderLike<DS, AS, OS> for ReadOnly<Inner> where
    Inner: VecDataSchemaBuilderLike<DS, AS, OS>,
 {
    fn min_items(self, value: u32) -> (r: Self) {
        let ReadOnly { inner } = self;
        let inner = inner.min_items(value);
        ReadOnly { inner }
    }

    fn max_items(self, value: u32) -> (r: Self) {
        let ReadOnly { inner } = self;
        let inner = inner.max_items(value);
        ReadOnly { inner }
    }

    fn set_item<F, T>(self, f: F) -> (r: Self) where
        F: FnOnce(DataSchemaBuilder<<DS as Extendable>::Empty, AS, OS, ToExtend>) -> T,
        DS: Extendable,
        T: IntoUnchecked<DS, AS, OS>,
     {
        let ReadOnly { inner } = self;
        let inner = inner.set_item(f);
        ReadOnly { inner }
    }
}

impl<Inner, DS, AS, OS> TupleDataSchemaBuilderLike<DS, AS, OS> for ReadOnly<Inner> where
    Inner: TupleDataSchemaBuilderLike<DS, AS, OS>,
 {
    fn append<F, T>(self, f: F) -> (r: Self) where
        F: FnOnce(DataSchemaBuilder<<DS as Extendable>::Empty, AS, OS, ToExtend>) -> T,
        DS: Extendable,
        T: IntoUnchecked<DS, AS, OS>,
     {
        let ReadOnly { inner } = self;
        let inner = inner.append(f);
        ReadOnly { inner }
    }
}

impl<Inner, DS, AS, OS> NumberDataSchemaBuilderLike<DS, AS, OS> for ReadOnly<Inner> where
    Inner: NumberDataSchemaBuilderLike<DS, AS, OS>,
 {
    fn minimum(self, value: Double) -> (r: Self) {
        let ReadOnly { inner } = self;
        let inner = inner.minimum(value);
        ReadOnly { inner }
    }

    fn maximum(self, value: Double) -> (r: Self) {
        let ReadOnly { inner } = self;
        let inner = inner.maximum(value);
        ReadOnly { inner }
    }

    fn exclusive_minimum(self, value: Double) -> (r: Self) {
        let ReadOnly { inner } = self;
        let inner = inner.exclusive_minimum(value);
        ReadOnly { inner }
    }

    fn exclusive_maximum(self, value: Double) -> (r: Self) {
        let ReadOnly { inner } = self;
        let inner = inner.exclusive_maximum(value);
        ReadOnly { inner }
    }

    fn multiple_of(self, value: Double) -> (r: Self) {
        let ReadOnly { inner } = self;
        let inner = inner.multiple_of(value);
        ReadOnly { inner }
    }
}

impl<Inner, DS, AS, OS> IntegerDataSchemaBuilderLike<DS, AS, OS> for ReadOnly<Inner> where
    Inner: IntegerDataSchemaBuilderLike<DS, AS, OS>,
 {
    fn minimum(self, value: i64) -> (r: Self) {
        let ReadOnly { inner } = self;
        let inner = inner.minimum(value);
        ReadOnly { inner }
    }

    fn maximum(self, value: i64) -> (r: Self) {
        let ReadOnly { inner } = self;
        let inner = inner.maximum(value);
        ReadOnly { inner }
    }

    fn exclusive_minimum(self, value: i64) -> (r: Self) {
        let ReadOnly { inner } = self;
        let inner = inner.exclusive_minimum(value);
        ReadOnly { inner }
    }

    fn exclusive_maximum(self, value: i64) -> (r: Self) {
        let ReadOnly { inner } = self;
        let inner = inner.exclusive_maximum(value);
        ReadOnly { inner }
    }

    fn multiple_of(self, value: NonZeroU64) -> (r: Self) {
        let ReadOnly { inner } = self;
        let inner = inner.multiple_of(value);
        ReadOnly { inner }
    }
}

impl<Inner, DS, AS, OS> ObjectDataSchemaBuilderLike<DS, AS, OS> for ReadOnly<Inner> where
    Inner: ObjectDataSchemaBuilderLike<DS, AS, OS>,
 {
    fn property<F, T>(self, name: String, required: bool, f: F) -> (r: Self) where
        F: FnOnce(DataSchemaBuilder<<DS as Extendable>::Empty, AS, OS, ToExtend>) -> T,
        DS: Extendable,
        T: IntoUnchecked<DS, AS, OS>,
     {
        let ReadOnly { inner } = self;
        let inner = inner.property(name, required, f);
        ReadOnly { inner }
    }
}

impl<Inner, DS, AS, OS> VecDataSchemaBuilderLike<DS, AS, OS> for WriteOnly<Inner> where
    Inner: VecDataSchemaBuilderLike<DS, AS, OS>,
 {
    fn min_items(self, value: u32) -> (r: Self) {
        let WriteOnly { inner } = self;
        let inner = inner.min_items(value);
        WriteOnly { inner }
    }

    fn max_items(self, value: u32) -> (r: Self) {
        let WriteOnly { inner } = self;
        let inner = inner.max_items(value);
        WriteOnly { inner }
    }

    fn set_item<F, T>(self, f: F) -> (r: Self) where
        F: FnOnce(DataSchemaBuilder<<DS as Extendable>::Empty, AS, OS, ToExtend>) -> T,
        DS: Extendable,
        T: IntoUnchecked<DS, AS, OS>,
     {
        let WriteOnly { inner } = self;
        let inner = inner.set_item(f);
        WriteOnly { inner }
    }
}

impl<Inner, DS, AS, OS> TupleDataSchemaBuilderLike<DS, AS, OS> for WriteOnly<Inner> where
    Inner: TupleDataSchemaBuilderLike<DS, AS, OS>,
 {
    fn append<F, T>(self, f: F) -> (r: Self) where
        F: FnOnce(DataSchemaBuilder<<DS as Extendable>::Empty, AS, OS, ToExtend>) -> T,
        DS: Extendable,
        T: IntoUnchecked<DS, AS, OS>,
     {
        let WriteOnly { inner } = self;
        let inner = inner.append(f);
        WriteOnly { inner }
    }
}

impl<Inner, DS, AS, OS> NumberDataSchemaBuilderLike<DS, AS, OS> for WriteOnly<Inner> where
    Inner: NumberDataSchemaBuilderLike<DS, AS, OS>,
 {
    fn minimum(self, value: Double) -> (r: Self) {
        let WriteOnly { inner } = self;
        let inner = inner.minimum(value);
        WriteOnly { inner }
    }

    fn maximum(self, value: Double) -> (r: Self) {
        let WriteOnly { inner } = self;
        let inner = inner.maximum(value);
        WriteOnly { inner }
    }

    fn exclusive_minimum(self, value: Double) -> (r: Self) {
        let WriteOnly { inner } = self;
        let inner = inner.exclusive_minimum(value);
        WriteOnly { inner }
    }

    fn exclusive_maximum(self, value: Double) -> (r: Self) {
        let WriteOnly { inner } = self;
        let inner = inner.exclusive_maximum(value);
        WriteOnly { inner }
    }

    fn multiple_of(self, value: Double) -> (r: Self) {
        let WriteOnly { inner } = self;
        let inner = inner.multiple_of(value);
        WriteOnly { inner }
    }
}

impl<Inner, DS, AS, OS> IntegerDataSchemaBuilderLike<DS, AS, OS> for WriteOnly<Inner> where
    Inner: IntegerDataSchemaBuilderLike<DS, AS, OS>,
 {
    fn minimum(self, value: i64) -> (r: Self) {
        let WriteOnly { inner } = self;
        let inner = inner.minimum(value);
        WriteOnly { inner }
    }

    fn maximum(self, value: i64) -> (r: Self) {
        let WriteOnly { inner } = self;
        let inner = inner.maximum(value);
        WriteOnly { inner }
    }

    fn exclusive_minimum(self, value: i64) -> (r: Self) {
        let WriteOnly { inner } = self;
        let inner = inner.exclusive_minimum(value);
        WriteOnly { inner }
    }

    fn exclusive_maximum(self, value: i64) -> (r: Self) {
        let WriteOnly { inner } = self;
        let inner = inner.exclusive_maximum(value);
        WriteOnly { inner }
    }

    fn multiple_of(self, value: NonZeroU64) -> (r: Self) {
        let WriteOnly { inner } = self;
        let inner = inner.multiple_of(value);
        WriteOnly { inner }
    }
}

impl<Inner, DS, AS, OS> ObjectDataSchemaBuilderLike<DS, AS, OS> for WriteOnly<Inner> where
    Inner: ObjectDataSchemaBuilderLike<DS, AS, OS>,
 {
    fn property<F, T>(self, name: String, required: bool, f: F) -> (r: Self) where
        F: FnOnce(DataSchemaBuilder<<DS as Extendable>::Empty, AS, OS, ToExtend>) -> T,
        DS: Extendable,
        T: IntoUnchecked<DS, AS, OS>,
     {
        let WriteOnly { inner } = self;
        let inner = inner.property(name, required, f);
        WriteOnly { inner }
    }
}

} // verus!
