//! The plain parts of flattening a value into the map that surrounds it: the
//! kinds of value that cannot be flattened, and the values that stand for an
//! enum variant.

use vstd::prelude::*;
use vstd::string::StringExecFns;
use std::marker::PhantomData;

verus! {

/// A kind of value that cannot be flattened into a map.
#[derive(Debug, Clone, Copy, PartialEq, Eq)]
pub enum Unsupported {
    Boolean,
    Integer,
    Float,
    Char,
    String,
    ByteArray,
    UnitStruct,
    Sequence,
    Tuple,
    TupleStruct,
    Enum,
}

impl Unsupported {
    /// The kind in words, as an error message names it.
    pub open spec fn words(self) -> Seq<char> {
        match self {
            Unsupported::Boolean => "a boolean"@,
            Unsupported::Integer => "an integer"@,
            Unsupported::Float => "a float"@,
            Unsupported::Char => "a char"@,
            Unsupported::String => "a string"@,
            Unsupported::ByteArray => "a byte array"@,
            Unsupported::UnitStruct => "unit struct"@,
            Unsupported::Sequence => "a sequence"@,
            Unsupported::Tuple => "a tuple"@,
            Unsupported::TupleStruct => "a tuple struct"@,
            Unsupported::Enum => "an enum"@,
        }
    }

    /// The kind in words, as an error message names it.
    pub fn as_str(&self) -> (r: &'static str)
        ensures
            r@ == self.words(),
    {
        match self {
            Unsupported::Boolean => "a boolean",
            Unsupported::Integer => "an integer",
            Unsupported::Float => "a float",
            Unsupported::Char => "a char",
            Unsupported::String => "a string",
            Unsupported::ByteArray => "a byte array",
            Unsupported::UnitStruct => "unit struct",
            Unsupported::Sequence => "a sequence",
            Unsupported::Tuple => "a tuple",
            Unsupported::TupleStruct => "a tuple struct",
            Unsupported::Enum => "an enum",
        }
    }
}

/// The message for a value of the kind `what` that was to be flattened.
pub fn bad_type_message(what: Unsupported) -> (r: String)
    ensures
        r@ == "can only flatten structs and maps (got "@ + what.words() + ")"@,
{
    String::from_str("can only flatten structs and maps (got ").concat(what.as_str()).concat(")")
}

/// A serializer that keeps what it is given as a value in memory; `E` is the
/// error that it would report.
pub struct ContentSerializer<E> {
    /// The error type.
    pub error: PhantomData<E>,
}

impl<E> ContentSerializer<E> {
    /// The serializer.
    pub fn new() -> (r: Self)
        ensures
            r == (ContentSerializer::<E> { error: PhantomData }),
    {
        ContentSerializer { error: PhantomData }
    }
}

/// A unit variant of an enum, by the names and the index that a serializer
/// is told.
pub struct AdjacentlyTaggedEnumVariant {
    /// The name of the enum.
    pub enum_name: &'static str,
    /// The index of the variant.
    pub variant_index: u32,
    /// The name of the variant.
    pub variant_name: &'static str,
}

/// A variant that cannot be serialized because it is not known.
pub struct CannotSerializeVariant<T>(pub T);

} // verus!
