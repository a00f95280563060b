//! Building and validating data schemas.
//!
//! A data schema describes the shape of a piece of data: a primitive, an array,
//! an object, a union, an enumeration or a constant. The builders of
//! [`data_schema`], [`builders`] and [`specialize`] assemble such a description
//! step by step; [`model`] says what a builder holds and [`convert`] turns a
//! finished builder into an unchecked tree. [`check`] validates the numeric
//! constraints of a tree and [`checked`] produces the final, immutable schema.
//! [`laws`] states what holds of all of them together.

pub mod error;
pub mod hlist;
pub mod extend;
pub mod number;
pub mod ordered_map;
pub mod lang;
pub mod human_readable_info;
pub mod thing;
pub mod data_schema;
pub mod model;
pub mod builders;
pub mod specialize;
pub mod convert;
pub mod check;
pub mod checked;
pub mod laws;
pub mod flat_map_serialize;
pub mod protocol;
