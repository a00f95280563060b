//! How a builder becomes the builder of one kind of schema, of an
//! enumeration or of a union, and how a builder is marked as readable only
//! or writable only.

use vstd::prelude::*;
use serde_json::Value;
use crate::data_schema::{
    DataSchemaBuilder, EnumDataSchemaBuilder, EnumerableDataSchema, Extended,
    IntegerDataSchemaBuilder, IntoUnchecked, NumberDataSchemaBuilder, ObjectDataSchemaBuilder,
    OneOfDataSchemaBuilder, PartialDataSchemaBuilder, ReadOnly, ReadableWriteableDataSchema,
    SpecializableDataSchema, StatelessDataSchemaBuilder, StatelessDataSchemaType,
    StringDataSchemaBuilder, ToExtend, TupleDataSchemaBuilder, UnionDataSchema,
    VecDataSchemaBuilder, WriteOnly, build_child,
};
use crate::extend::Extendable;
use crate::ordered_map::OrderedMap;

verus! {

impl<DS, AS, OS> SpecializableDataSchema<DS, AS, OS> for PartialDataSchemaBuilder<DS, AS, OS, Extended> {
    type Stateless = StatelessDataSchemaBuilder<Self>;

    type Tuple = TupleDataSchemaBuilder<Self, DS, AS, OS>;

    type Vec = VecDataSchemaBuilder<Self, DS, AS, OS>;

    type Number = NumberDataSchemaBuilder<Self>;

    type Integer = IntegerDataSchemaBuilder<Self>;

    type Object = ObjectDataSchemaBuilder<Self, DS, AS, OS>;

    type String = StringDataSchemaBuilder<Self>;

    type Constant = ReadOnly<StatelessDataSchemaBuilder<Self>>;

    fn tuple(self) -> (r: Self::Tuple) where AS: Default {
        TupleDataSchemaBuilder { inner: self, items: Vec::new(), other: AS::default() }
    }

    fn vec(self) -> (r: Self::Vec) where AS: Default {
        VecDataSchemaBuilder {
            inner: self,
            item: None,
            min_items: None,
            max_items: None,
            other: AS::default(),
        }
    }

    fn tuple_ext<F>(self, f: F) -> (r: Self::Tuple) where F: FnOnce(AS::Empty) -> AS, AS: Extendable {
        let other = f(AS::empty());
        TupleDataSchemaBuilder { inner: self, items: Vec::new(), other }
    }

    fn vec_ext<F>(self, f: F) -> (r: Self::Vec) where F: FnOnce(AS::Empty) -> AS, AS: Extendable {
        let other = f(AS::empty());
        VecDataSchemaBuilder { inner: self, item: None, min_items: None, max_items: None, other }
    }

    fn bool(self) -> (r: Self::Stateless) {
        StatelessDataSchemaBuilder { inner: self, ty: Some(StatelessDataSchemaType::Boolean) }
    }

    fn number(self) -> (r: Self::Number) {
        NumberDataSchemaBuilder { inner: self, maximum: None, minimum: None, multiple_of: None }
    }

    fn integer(self) -> (r: Self::Integer) {
        IntegerDataSchemaBuilder { inner: self, maximum: None, minimum: None, multiple_of: None }
    }

    fn object(self) -> (r: Self::Object) where OS: Default {
        ObjectDataSchemaBuilder {
            inner: self,
            properties: OrderedMap::new(),
            required: Vec::new(),
            other: OS::default(),
        }
    }

    fn object_ext<F>(self, f: F) -> (r: Self::Object) where F: FnOnce(OS::Empty) -> OS, OS: Extendable {
        let other = f(OS::empty());
        ObjectDataSchemaBuilder {
            inner: self,
            properties: OrderedMap::new(),
            required: Vec::new(),
            other,
        }
    }

    fn string(self) -> (r: Self::String) {
        StringDataSchemaBuilder {
            inner: self,
            min_length: None,
            max_length: None,
            pattern: None,
            content_encoding: None,
            content_media_type: None,
        }
    }

    fn null(self) -> (r: Self::Stateless) {
        StatelessDataSchemaBuilder { inner: self, ty: Some(StatelessDataSchemaType::Null) }
    }

    fn constant(self, value: Value) -> (r: Self::Constant) {
        let mut builder = self;
        builder.constant = Some(value);
        builder.read_only = true;
        builder.write_only = false;
        ReadOnly { inner: StatelessDataSchemaBuilder { inner: builder, ty: None } }
    }
}

impl<DS, AS, OS> SpecializableDataSchema<DS, AS, OS> for DataSchemaBuilder<DS, AS, OS, Extended> {
    type Stateless = StatelessDataSchemaBuilder<Self>;

    type Tuple = TupleDataSchemaBuilder<Self, DS, AS, OS>;

    type Vec = VecDataSchemaBuilder<Self, DS, AS, OS>;

    type Number = NumberDataSchemaBuilder<Self>;

    type Integer = IntegerDataSchemaBuilder<Self>;

    type Object = ObjectDataSchemaBuilder<Self, DS, AS, OS>;

    type String = StringDataSchemaBuilder<Self>;

    type Constant = ReadOnly<StatelessDataSchemaBuilder<Self>>;

    fn tuple(self) -> (r: Self::Tuple) where AS: Default {
        TupleDataSchemaBuilder { inner: self, items: Vec::new(), other: AS::default() }
    }

    fn vec(self) -> (r: Self::Vec) where AS: Default {
        VecDataSchemaBuilder {
            inner: self,
            item: None,
            min_items: None,
            max_items: None,
            other: AS::default(),
        }
    }

    fn tuple_ext<F>(self, f: F) -> (r: Self::Tuple) where F: FnOnce(AS::Empty) -> AS, AS: Extendable {
        let other = f(AS::empty());
        TupleDataSchemaBuilder { inner: self, items: Vec::new(), other }
    }

    fn vec_ext<F>(self, f: F) -> (r: Self::Vec) where F: FnOnce(AS::Empty) -> AS, AS: Extendable {
        let other = f(AS::empty());
        VecDataSchemaBuilder { inner: self, item: None, min_items: None, max_items: None, other }
    }

    fn bool(self) -> (r: Self::Stateless) {
        StatelessDataSchemaBuilder { inner: self, ty: Some(StatelessDataSchemaType::Boolean) }
    }

    fn number(self) -> (r: Self::Number) {
        NumberDataSchemaBuilder { inner: self, maximum: None, minimum: None, multiple_of: None }
    }

    fn integer(self) -> (r: Self::Integer) {
        IntegerDataSchemaBuilder { inner: self, maximum: None, minimum: None, multiple_of: None }
    }

    fn object(self) -> (r: Self::Object) where OS: Default {
        ObjectDataSchemaBuilder {
            inner: self,
            properties: OrderedMap::new(),
            required: Vec::new(),
            other: OS::default(),
        }
    }

    fn object_ext<F>(self, f: F) -> (r: Self::Object) where F: FnOnce(OS::Empty) -> OS, OS: Extendable {
        let other = f(OS::empty());
        ObjectDataSchemaBuilder {
            inner: self,
            properties: OrderedMap::new(),
            required: Vec::new(),
            other,
        }
    }

    fn string(self) -> (r: Self::String) {
        StringDataSchemaBuilder {
            inner: self,
            min_length: None,
            max_length: None,
            pattern: None,
            content_encoding: None,
            content_media_type: None,
        }
    }

    fn null(self) -> (r: Self::Stateless) {
        StatelessDataSchemaBuilder { inner: self, ty: Some(StatelessDataSchemaType::Null) }
    }

    fn constant(self, value: Value) -> (r: Self::Constant) {
        let mut builder = self;
        builder.partial.constant = Some(value);
        builder.partial.read_only = true;
        builder.partial.write_only = false;
        ReadOnly { inner: StatelessDataSchemaBuilder { inner: builder, ty: None } }
    }
}

impl<DS, AS, OS> EnumerableDataSchema<DS, AS, OS, Extended> for PartialDataSchemaBuilder<DS, AS, OS, Extended> {
    type Target = EnumDataSchemaBuilder<Self>;

    fn enumeration(self, value: Value) -> (r: EnumDataSchemaBuilder<Self>) {
        let mut builder = self;
        builder.enumeration.push(value);
        EnumDataSchemaBuilder { inner: builder }
    }
}

impl<DS, AS, OS> EnumerableDataSchema<DS, AS, OS, Extended> for DataSchemaBuilder<DS, AS, OS, Extended> {
    type Target = EnumDataSchemaBuilder<Self>;

    fn enumeration(self, value: Value) -> (r: EnumDataSchemaBuilder<Self>) {
        let mut builder = self;
        builder.partial.enumeration.push(value);
        EnumDataSchemaBuilder { inner: builder }
    }
}

impl<Inner, DS, AS, OS> EnumerableDataSchema<DS, AS, OS, Extended> for ReadOnly<Inner> where
    Inner: EnumerableDataSchema<DS, AS, OS, Extended>,
 {
    type Target = ReadOnly<Inner::Target>;

    fn enumeration(self, value: Value) -> (r: Self::Target) {
        let ReadOnly { inner } = self;
        let inner = inner.enumeration(value);
        ReadOnly { inner }
    }
}

impl<Inner, DS, AS, OS> EnumerableDataSchema<DS, AS, OS, Extended> for WriteOnly<Inner> where
    Inner: EnumerableDataSchema<DS, AS, OS, Extended>,
 {
    type Target = WriteOnly<Inner::Target>;

    fn enumeration(self, value: Value) -> (r: Self::Target) {
        let WriteOnly { inner } = self;
        let inner = inner.enumeration(value);
        WriteOnly { inner }
    }
}

impl<DS, AS, OS> EnumerableDataSchema<DS, AS, OS, Extended> for EnumDataSchemaBuilder<
    PartialDataSchemaBuilder<DS, AS, OS, Extended>,
> {
    type Target = Self;

    fn enumeration(self, value: Value) -> (r: Self::Target) {
        let mut builder = self;
        builder.inner.enumeration.push(value);
        builder
    }
}

impl<DS, AS, OS> EnumerableDataSchema<DS, AS, OS, Extended> for EnumDataSchemaBuilder<
    DataSchemaBuilder<DS, AS, OS, Extended>,
> {
    type Target = Self;

    fn enumeration(self, value: Value) -> (r: Self::Target) {
        let mut builder = self;
        builder.inner.partial.enumeration.push(value);
        builder
    }
}

impl<DS, AS, OS> UnionDataSchema<DS, AS, OS> for PartialDataSchemaBuilder<DS, AS, OS, Extended> {
    type Target = OneOfDataSchemaBuilder<Self>;

    fn one_of<F, T>(self, f: F) -> (r: Self::Target) where
        F: FnOnce(DataSchemaBuilder<<DS as Extendable>::Empty, AS, OS, ToExtend>) -> T,
        DS: Extendable,
        T: IntoUnchecked<DS, AS, OS>,
     {
        let mut builder = self;
        let schema = build_child::<DS, AS, OS, F, T>(f);
        builder.one_of.push(schema);
        OneOfDataSchemaBuilder { inner: builder }
    }
}

impl<DS, AS, OS> UnionDataSchema<DS, AS, OS> for DataSchemaBuilder<DS, AS, OS, Extended> {
    type Target = OneOfDataSchemaBuilder<Self>;

    fn one_of<F, T>(self, f: F) -> (r: Self::Target) where
        F: FnOnce(DataSchemaBuilder<<DS as Extendable>::Empty, AS, OS, ToExtend>) -> T,
        DS: Extendable,
        T: IntoUnchecked<DS, AS, OS>,
     {
        let mut builder = self;
        let schema = build_child::<DS, AS, OS, F, T>(f);
        builder.partial.one_of.push(schema);
        OneOfDataSchemaBuilder { inner: builder }
    }
}

impl<Inner, DS, AS, OS> UnionDataSchema<DS, AS, OS> for ReadOnly<Inner> where
    Inner: UnionDataSchema<DS, AS, OS>,
 {
    type Target = ReadOnly<Inner::Target>;

    fn one_of<F, T>(self, f: F) -> (r: Self::Target) where
        F: FnOnce(DataSchemaBuilder<<DS as Extendable>::Empty, AS, OS, ToExtend>) -> T,
        DS: Extendable,
        T: IntoUnchecked<DS, AS, OS>,
     {
        let ReadOnly { inner } = self;
        let inner = inner.one_of(f);
        ReadOnly { inner }
    }
}

impl<Inner, DS, AS, OS> UnionDataSchema<DS, AS, OS> for WriteOnly<Inner> where
    Inner: UnionDataSchema<DS, AS, OS>,
 {
    type Target = WriteOnly<Inner::Target>;

    fn one_of<F, T>(self, f: F) -> (r: Self::Target) where
        F: FnOnce(DataSchemaBuilder<<DS as Extendable>::Empty, AS, OS, ToExtend>) -> T,
        DS: Extendable,
        T: IntoUnchecked<DS, AS, OS>,
     {
        let WriteOnly { inner } = self;
        let inner = inner.one_of(f);
        WriteOnly { inner }
    }
}

impl<DS, AS, OS> UnionDataSchema<DS, AS, OS> for OneOfDataSchemaBuilder<PartialDataSchemaBuilder<DS, AS, OS, Extended>> {
    type Target = Self;

    fn one_of<F, T>(self, f: F) -> (r: Self::Target) where
        F: FnOnce(DataSchemaBuilder<<DS as Extendable>::Empty, AS, OS, ToExtend>) -> T,
        DS: Extendable,
        T: IntoUnchecked<DS, AS, OS>,
     {
        let mut builder = self;
        let schema = build_child::<DS, AS, OS, F, T>(f);
        builder.inner.one_of.push(schema);
        builder
    }
}

impl<DS, AS, OS> UnionDataSchema<DS, AS, OS> for OneOfDataSchemaBuilder<DataSchemaBuilder<DS, AS, OS, Extended>> {
    type Target = Self;

    fn one_of<F, T>(self, f: F) -> (r: Self::Target) where
        F: FnOnce(DataSchemaBuilder<<DS as Extendable>::Empty, AS, OS, ToExtend>) -> T,
        DS: Extendable,
        T: IntoUnchecked<DS, AS, OS>,
     {
        let mut builder = self;
        let schema = build_child::<DS, AS, OS, F, T>(f);
        builder.inner.partial.one_of.push(schema);
        builder
    }
}

impl<DS, AS, OS> ReadableWriteableDataSchema<DS, AS, OS, Extended> for DataSchemaBuilder<DS, AS, OS, Extended> {
    type ReadOnly = ReadOnly<Self>;

    type WriteOnly = WriteOnly<Self>;

    fn read_only(self) -> (r: Self::ReadOnly) {
        let mut builder = self;
        builder.partial.read_only = true;
        builder.partial.write_only = false;
        ReadOnly { inner: builder }
    }

    fn write_only(self) -> (r: Self::WriteOnly) {
        let mut builder = self;
        builder.partial.write_only = true;
        builder.partial.read_only = false;
        WriteOnly { inner: builder }
    }
}

impl<DS, AS, OS> ReadableWriteableDataSchema<DS, AS, OS, Extended> for PartialDataSchemaBuilder<DS, AS, OS, Extended> {
    type ReadOnly = ReadOnly<Self>;

    type WriteOnly = WriteOnly<Self>;

    fn read_only(self) -> (r: Self::ReadOnly) {
        let mut builder = self;
        builder.read_only = true;
        builder.write_only = false;
        ReadOnly { inner: builder }
    }

    fn write_only(self) -> (r: Self::WriteOnly) {
        let mut builder = self;
        builder.write_only = true;
        builder.read_only = false;
        WriteOnly { inner: builder }
    }
}

impl<DS, AS, OS> ReadableWriteableDataSchema<DS, AS, OS, Extended> for StatelessDataSchemaBuilder<
    DataSchemaBuilder<DS, AS, OS, Extended>,
> {
    type ReadOnly = ReadOnly<Self>;

    type WriteOnly = WriteOnly<Self>;

    fn read_only(self) -> (r: Self::ReadOnly) {
        let mut builder = self;
        builder.inner.partial.read_only = true;
        builder.inner.partial.write_only = false;
        ReadOnly { inner: builder }
    }

    fn write_only(self) -> (r: Self::WriteOnly) {
        let mut builder = self;
        builder.inner.partial.write_only = true;
        builder.inner.partial.read_only = false;
        WriteOnly { inner: builder }
    }
}

impl<DS, AS, OS> ReadableWriteableDataSchema<DS, AS, OS, Extended> for StatelessDataSchemaBuilder<
    PartialDataSchemaBuilder<DS, AS, OS, Extended>,
> {
    type ReadOnly = ReadOnly<Self>;

    type WriteOnly = WriteOnly<Self>;

    fn read_only(self) -> (r: Self::ReadOnly) {
        let mut builder = self;
        builder.inner.read_only = true;
        builder.inner.write_only = false;
        ReadOnly { inner: builder }
    }

    fn write_only(self) -> (r: Self::WriteOnly) {
        let mut builder = self;
        builder.inner.write_only = true;
        builder.inner.read_only = false;
        WriteOnly { inner: builder }
    }
}

impl<DS, AS, OS> ReadableWriteableDataSchema<DS, AS, OS, Extended> for TupleDataSchemaBuilder<
    DataSchemaBuilder<DS, AS, OS, Extended>,
    DS,
    AS,
    OS,
> {
    type ReadOnly = ReadOnly<Self>;

    type WriteOnly = WriteOnly<Self>;

    fn read_only(self) -> (r: Self::ReadOnly) {
        let mut builder = self;
        builder.inner.partial.read_only = true;
        builder.inner.partial.write_only = false;
        ReadOnly { inner: builder }
    }

    fn write_only(self) -> (r: Self::WriteOnly) {
        let mut builder = self;
        builder.inner.partial.write_only = true;
        builder.inner.partial.read_only = false;
        WriteOnly { inner: builder }
    }
}

impl<DS, AS, OS> ReadableWriteableDataSchema<DS, AS, OS, Extended> for TupleDataSchemaBuilder<
    PartialDataSchemaBuilder<DS, AS, OS, Extended>,
    DS,
    AS,
    OS,
> {
    type ReadOnly = ReadOnly<Self>;

    type WriteOnly = WriteOnly<Self>;

    fn read_only(self) -> (r: Self::ReadOnly) {
        let mut builder = self;
        builder.inner.read_only = true;
        builder.inner.write_only = false;
        ReadOnly { inner: builder }
    }

    fn write_only(self) -> (r: Self::WriteOnly) {
        let mut builder = self;
        builder.inner.write_only = true;
        builder.inner.read_only = false;
        WriteOnly { inner: builder }
    }
}

impl<DS, AS, OS> ReadableWriteableDataSchema<DS, AS, OS, Extended> for VecDataSchemaBuilder<
    DataSchemaBuilder<DS, AS, OS, Extended>,
    DS,
    AS,
    OS,
> {
    type ReadOnly = ReadOnly<Self>;

    type WriteOnly = WriteOnly<Self>;

    fn read_only(self) -> (r: Self::ReadOnly) {
        let mut builder = self;
        builder.inner.partial.read_only = true;
        builder.inner.partial.write_only = false;
        ReadOnly { inner: builder }
    }

    fn write_only(self) -> (r: Self::WriteOnly) {
        let mut builder = self;
        builder.inner.partial.write_only = true;
        builder.inner.partial.read_only = false;
        WriteOnly { inner: builder }
    }
}

impl<DS, AS, OS> ReadableWriteableDataSchema<DS, AS, OS, Extended> for VecDataSchemaBuilder<
    PartialDataSchemaBuilder<DS, AS, OS, Extended>,
    DS,
    AS,
    OS,
> {
    type ReadOnly = ReadOnly<Self>;

    type WriteOnly = WriteOnly<Self>;

    fn read_only(self) -> (r: Self::ReadOnly) {
        let mut builder = self;
        builder.inner.read_only = true;
        builder.inner.write_only = false;
        ReadOnly { inner: builder }
    }

    fn write_only(self) -> (r: Self::WriteOnly) {
        let mut builder = self;
        builder.inner.write_only = true;
        builder.inner.read_only = false;
        WriteOnly { inner: builder }
    }
}

impl<DS, AS, OS> ReadableWriteableDataSchema<DS, AS, OS, Extended> for NumberDataSchemaBuilder<
    DataSchemaBuilder<DS, AS, OS, Extended>,
> {
    type ReadOnly = ReadOnly<Self>;

    type WriteOnly = WriteOnly<Self>;

    fn read_only(self) -> (r: Self::ReadOnly) {
        let mut builder = self;
        builder.inner.partial.read_only = true;
        builder.inner.partial.write_only = false;
        ReadOnly { inner: builder }
    }

    fn write_only(self) -> (r: Self::WriteOnly) {
        let mut builder = self;
        builder.inner.partial.write_only = true;
        builder.inner.partial.read_only = false;
        WriteOnly { inner: builder }
    }
}

impl<DS, AS, OS> ReadableWriteableDataSchema<DS, AS, OS, Extended> for NumberDataSchemaBuilder<
    PartialDataSchemaBuilder<DS, AS, OS, Extended>,
> {
    type ReadOnly = ReadOnly<Self>;

    type WriteOnly = WriteOnly<Self>;

    fn read_only(self) -> (r: Self::ReadOnly) {
        let mut builder = self;
        builder.inner.read_only = true;
        builder.inner.write_only = false;
        ReadOnly { inner: builder }
    }

    fn write_only(self) -> (r: Self::WriteOnly) {
        let mut builder = self;
        builder.inner.write_only = true;
        builder.inner.read_only = false;
        WriteOnly { inner: builder }
    }
}

impl<DS, AS, OS> ReadableWriteableDataSchema<DS, AS, OS, Extended> for IntegerDataSchemaBuilder<
    DataSchemaBuilder<DS, AS, OS, Extended>,
> {
    type ReadOnly = ReadOnly<Self>;

    type WriteOnly = WriteOnly<Self>;

    fn read_only(self) -> (r: Self::ReadOnly) {
        let mut builder = self;
        builder.inner.partial.read_only = true;
        builder.inner.partial.write_only = false;
        ReadOnly { inner: builder }
    }

    fn write_only(self) -> (r: Self::WriteOnly) {
        let mut builder = self;
        builder.inner.partial.write_only = true;
        builder.inner.partial.read_only = false;
        WriteOnly { inner: builder }
    }
}

impl<DS, AS, OS> ReadableWriteableDataSchema<DS, AS, OS, Extended> for IntegerDataSchemaBuilder<
    PartialDataSchemaBuilder<DS, AS, OS, Extended>,
> {
    type ReadOnly = ReadOnly<Self>;

    type WriteOnly = WriteOnly<Self>;

    fn read_only(self) -> (r: Self::ReadOnly) {
        let mut builder = self;
        builder.inner.read_only = true;
        builder.inner.write_only = false;
        ReadOnly { inner: builder }
    }

    fn write_only(self) -> (r: Self::WriteOnly) {
        let mut builder = self;
        builder.inner.write_only = true;
        builder.inner.read_only = false;
        WriteOnly { inner: builder }
    }
}

impl<DS, AS, OS> ReadableWriteableDataSchema<DS, AS, OS, Extended> for ObjectDataSchemaBuilder<
    DataSchemaBuilder<DS, AS, OS, Extended>,
    DS,
    AS,
    OS,
> {
    type ReadOnly = ReadOnly<Self>;

    type WriteOnly = WriteOnly<Self>;

    fn read_only(self) -> (r: Self::ReadOnly) {
        let mut builder = self;
        builder.inner.partial.read_only = true;
        builder.inner.partial.write_only = false;
        ReadOnly { inner: builder }
    }

    fn write_only(self) -> (r: Self::WriteOnly) {
        let mut builder = self;
        builder.inner.partial.write_only = true;
        builder.inner.partial.read_only = false;
        WriteOnly { inner: builder }
    }
}

impl<DS, AS, OS> ReadableWriteableDataSchema<DS, AS, OS, Extended> for ObjectDataSchemaBuilder<
    PartialDataSchemaBuilder<DS, AS, OS, Extended>,
    DS,
    AS,
    OS,
> {
    type ReadOnly = ReadOnly<Self>;

    type WriteOnly = WriteOnly<Self>;

    fn read_only(self) -> (r: Self::ReadOnly) {
        let mut builder = self;
        builder.inner.read_only = true;
        builder.inner.write_only = false;
        ReadOnly { inner: builder }
    }

    fn write_only(self) -> (r: Self::WriteOnly) {
        let mut builder = self;
        builder.inner.write_only = true;
        builder.inner.read_only = false;
        WriteOnly { inner: builder }
    }
}

impl<DS, AS, OS> ReadableWriteableDataSchema<DS, AS, OS, Extended> for StringDataSchemaBuilder<
    DataSchemaBuilder<DS, AS, OS, Extended>,
> {
    type ReadOnly = ReadOnly<Self>;

    type WriteOnly = WriteOnly<Self>;

    fn read_only(self) -> (r: Self::ReadOnly) {
        let mut builder = self;
        builder.inner.partial.read_only = true;
        builder.inner.partial.write_only = false;
        ReadOnly { inner: builder }
    }

    fn write_only(self) -> (r: Self::WriteOnly) {
        let mut builder = self;
        builder.inner.partial.write_only = true;
        builder.inner.partial.read_only = false;
        WriteOnly { inner: builder }
    }
}

impl<DS, AS, OS> ReadableWriteableDataSchema<DS, AS, OS, Extended> for StringDataSchemaBuilder<
    PartialDataSchemaBuilder<DS, AS, OS, Extended>,
> {
    type ReadOnly = ReadOnly<Self>;

    type WriteOnly = WriteOnly<Self>;

    fn read_only(self) -> (r: Self::ReadOnly) {
        let mut builder = self;
        builder.inner.read_only = true;
        builder.inner.write_only = false;
        ReadOnly { inner: builder }
    }

    fn write_only(self) -> (r: Self::WriteOnly) {
        let mut builder = self;
        builder.inner.write_only = true;
        builder.inner.read_only = false;
        WriteOnly { inner: builder }
    }
}

impl<DS, AS, OS> ReadableWriteableDataSchema<DS, AS, OS, Extended> for EnumDataSchemaBuilder<
    DataSchemaBuilder<DS, AS, OS, Extended>,
> {
    type ReadOnly = ReadOnly<Self>;

    type WriteOnly = WriteOnly<Self>;

    fn read_only(self) -> (r: Self::ReadOnly) {
        let mut builder = self;
        builder.inner.partial.read_only = true;
        builder.inner.partial.write_only = false;
        ReadOnly { inner: builder }
    }

    fn write_only(self) -> (r: Self::WriteOnly) {
        let mut builder = self;
        builder.inner.partial.write_only = true;
        builder.inner.partial.read_only = false;
        WriteOnly { inner: builder }
    }
}

impl<DS, AS, OS> ReadableWriteableDataSchema<DS, AS, OS, Extended> for EnumDataSchemaBuilder<
    PartialDataSchemaBuilder<DS, AS, OS, Extended>,
> {
    type ReadOnly = ReadOnly<Self>;

    type WriteOnly = WriteOnly<Self>;

    fn read_only(self) -> (r: Self::ReadOnly) {
        let mut builder = self;
        builder.inner.read_only = true;
        builder.inner.write_only = false;
        ReadOnly { inner: builder }
    }

    fn write_only(self) -> (r: Self::WriteOnly) {
        let mut builder = self;
        builder.inner.write_only = true;
        builder.inner.read_only = false;
        WriteOnly { inner: builder }
    }
}

impl<DS, AS, OS> ReadableWriteableDataSchema<DS, AS, OS, Extended> for OneOfDataSchemaBuilder<
    DataSchemaBuilder<DS, AS, OS, Extended>,
> {
    type ReadOnly = ReadOnly<Self>;

    type WriteOnly = WriteOnly<Self>;

    fn read_only(self) -> (r: Self::ReadOnly) {
        let mut builder = self;
        builder.inner.partial.read_only = true;
        builder.inner.partial.write_only = false;
        ReadOnly { inner: builder }
    }

    fn write_only(self) -> (r: Self::WriteOnly) {
        let mut builder = self;
        builder.inner.partial.write_only = true;
        builder.inner.partial.read_only = false;
        WriteOnly { inner: builder }
    }
}

impl<DS, AS, OS> ReadableWriteableDataSchema<DS, AS, OS, Extended> for OneOfDataSchemaBuilder<
    PartialDataSchemaBuilder<DS, AS, OS, Extended>,
> {
    type ReadOnly = ReadOnly<Self>;

    type WriteOnly = WriteOnly<Self>;

    fn read_only(self) -> (r: Self::ReadOnly) {
        let mut builder = self;
        builder.inner.read_only = true;
        builder.inner.write_only = false;
        ReadOnly { inner: builder }
    }

    fn write_only(self) -> (r: Self::WriteOnly) {
        let mut builder = self;
        builder.inner.write_only = true;
        builder.inner.read_only = false;
        WriteOnly { inner: builder }
    }
}

} // verus!
