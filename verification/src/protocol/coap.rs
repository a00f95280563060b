//! CoAP binding: the fields of forms and expected responses.

use vstd::prelude::*;

verus! {

/// CoAP request method.
#[derive(Debug, Clone, Copy, PartialEq, Eq, Hash)]
pub enum Method {
    Get,
    Put,
    Post,
    Delete,
    Patch,
    Fetch,
    Ipatch,
}

impl Method {
    /// The name of the method as a document writes it.
    pub fn as_str(&self) -> (r: &'static str)
        ensures
            r@ == match *self {
                Method::Get => "GET"@,
                Method::Put => "PUT"@,
                Method::Post => "POST"@,
                Method::Delete => "DELETE"@,
                Method::Patch => "PATCH"@,
                Method::Fetch => "FETCH"@,
                Method::Ipatch => "iPATCH"@,
            },
    {
        match self {
            Method::Get => "GET",
            Method::Put => "PUT",
            Method::Post => "POST",
            Method::Delete => "DELETE",
            Method::Patch => "PATCH",
            Method::Fetch => "FETCH",
            Method::Ipatch => "iPATCH",
        }
    }
}

/// CoAP allowed block size.
#[derive(Debug, Clone, Copy, PartialEq, Eq, Hash)]
pub enum BlockSize {
    Size16,
    Size32,
    Size64,
    Size128,
    Size256,
    Size512,
    Size1024,
}

impl BlockSize {
    /// The number of bytes of a block.
    pub open spec fn bytes(self) -> u16 {
        match self {
            BlockSize::Size16 => 16,
            BlockSize::Size32 => 32,
            BlockSize::Size64 => 64,
            BlockSize::Size128 => 128,
            BlockSize::Size256 => 256,
            BlockSize::Size512 => 512,
            BlockSize::Size1024 => 1024,
        }
    }

    /// The number of bytes of a block: the number that a document holds.
    pub fn value(&self) -> (r: u16)
        ensures
            r == self.bytes(),
    {
        match self {
            BlockSize::Size16 => 16,
            BlockSize::Size32 => 32,
            BlockSize::Size64 => 64,
            BlockSize::Size128 => 128,
            BlockSize::Size256 => 256,
            BlockSize::Size512 => 512,
            BlockSize::Size1024 => 1024,
        }
    }

    /// The block size of `bytes` bytes, if that is an allowed size.
    pub open spec fn of_bytes(bytes: u16) -> Option<BlockSize> {
        if bytes == 16 {
            Some(BlockSize::Size16)
        } else if bytes == 32 {
            Some(BlockSize::Size32)
        } else if bytes == 64 {
            Some(BlockSize::Size64)
        } else if bytes == 128 {
            Some(BlockSize::Size128)
        } else if bytes == 256 {
            Some(BlockSize::Size256)
        } else if bytes == 512 {
            Some(BlockSize::Size512)
        } else if bytes == 1024 {
            Some(BlockSize::Size1024)
        } else {
            None
        }
    }

    /// The block size of `bytes` bytes, if that is an allowed size.
    pub fn from_value(bytes: u16) -> (r: Option<BlockSize>)
        ensures
            r == BlockSize::of_bytes(bytes),
    {
        if bytes == 16 {
            Some(BlockSize::Size16)
        } else if bytes == 32 {
            Some(BlockSize::Size32)
        } else if bytes == 64 {
            Some(BlockSize::Size64)
        } else if bytes == 128 {
            Some(BlockSize::Size128)
        } else if bytes == 256 {
            Some(BlockSize::Size256)
        } else if bytes == 512 {
            Some(BlockSize::Size512)
        } else if bytes == 1024 {
            Some(BlockSize::Size1024)
        } else {
            None
        }
    }
}

/// A number of bytes gives a block size exactly where it is the number of
/// bytes of that size: the two conversions undo one another.
pub proof fn block_size_round_trip(size: BlockSize, bytes: u16)
    ensures
        BlockSize::of_bytes(size.bytes()) == Some(size),
        BlockSize::of_bytes(bytes) == Some(size) <==> size.bytes() == bytes,
{
}

/// CoAP block-wise transfer parameters.
#[derive(Debug, Clone, Copy, PartialEq, Eq, Hash, Default)]
pub struct BlockWiseTransferParameters {
    /// The size of the blocks of a response.
    pub block2_size: Option<BlockSize>,
    /// The size of the blocks of a request.
    pub block1_size: Option<BlockSize>,
}

/// The fields that CoAP adds to a form.
#[derive(Debug, Clone, PartialEq, Eq, Hash, Default)]
pub struct Form {
    /// The request method.
    pub method: Option<Method>,
    /// The parameters of block-wise transfers.
    pub blockwise: Option<BlockWiseTransferParameters>,
    /// The parameters of robust block-wise transfers.
    pub qblockwise: Option<BlockWiseTransferParameters>,
    /// The greatest number of hops.
    pub hop_limit: Option<u8>,
    /// The content format that the client accepts.
    pub accept: Option<u16>,
    /// The content format of the payload.
    pub content_format: Option<u16>,
}

/// The fields that CoAP adds to an expected response.
#[derive(Debug, Clone, PartialEq, Eq, Hash, Default)]
pub struct ExpectedResponse {
    /// The content format of the payload.
    pub content_format: Option<u16>,
}

/// The extension for the CoAP protocol.
#[derive(Debug, Clone, Copy, PartialEq, Eq, Hash, Default)]
pub struct CoapProtocol {}

} // verus!
