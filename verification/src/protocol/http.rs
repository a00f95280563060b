//! HTTP binding: the fields of forms and responses.

use vstd::prelude::*;

verus! {

/// HTTP request method.
#[derive(Debug, Clone, Copy, PartialEq, Eq, Hash)]
pub enum Method {
    Get,
    Put,
    Post,
    Delete,
    Patch,
}

impl Method {
    /// The name of the method as a document writes it.
    pub fn as_str(&self) -> (r: &'static str)
        ensures
            r@ == match *self {
                Method::Get => "GET"@,
                Method::Put => "PUT"@,
                Method::Post => "POST"@,
                Method::Delete => "DELETE"@,
                Method::Patch => "PATCH"@,
            },
    {
        match self {
            Method::Get => "GET",
            Method::Put => "PUT",
            Method::Post => "POST",
            Method::Delete => "DELETE",
            Method::Patch => "PATCH",
        }
    }
}

/// An HTTP header.
#[derive(Debug, Clone, PartialEq, Eq, Hash, Default)]
pub struct MessageHeader {
    /// The name of the header.
    pub field_name: Option<String>,
    /// The value of the header.
    pub field_value: Option<String>,
}

/// The fields that HTTP adds to an expected or additional response.
#[derive(Debug, Clone, Default, PartialEq, Eq, Hash)]
pub struct Response {
    /// The headers of the response.
    pub headers: Vec<MessageHeader>,
    /// The status code of the response.
    pub status_code_value: Option<usize>,
}

/// The fields that HTTP adds to a form.
#[derive(Debug, Clone, Default, PartialEq, Eq, Hash)]
pub struct Form {
    /// The request method.
    pub method_name: Option<Method>,
}

/// The extension for the HTTP protocol.
#[derive(Debug, Clone, PartialEq, Eq, Hash, Default)]
pub struct HttpProtocol {}

} // verus!
