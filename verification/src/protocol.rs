//! The fields that protocol bindings add to forms and responses.

pub mod coap;
pub mod http;
