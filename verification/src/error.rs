//! The failures an operation can end in.

use vstd::prelude::*;

verus! {

/// The resource a reply was expected to describe.
#[derive(Clone, Copy, Debug, PartialEq, Eq, Structural)]
pub enum Endpoint {
    Series,
    Tag,
    Episode,
}

impl Endpoint {
    /// The name of the resource, as it stands in its address.
    pub fn name(self) -> (name: &'static str)
        ensures
            name@ == self.path(),
    {
        match self {
            Endpoint::Series => "series",
            Endpoint::Tag => "tag",
            Endpoint::Episode => "episode",
        }
    }

    /// The name of the resource, as it stands in its address.
    pub open spec fn path(self) -> Seq<char> {
        match self {
            Endpoint::Series => "series"@,
            Endpoint::Tag => "tag"@,
            Endpoint::Episode => "episode"@,
        }
    }
}

/// Why a client could not be built or an operation did not succeed.
#[derive(Clone, Debug, PartialEq, Eq)]
pub enum ClientError {
    /// The base URL is not a well-formed absolute URL.
    InvalidUrl,
    /// The API key holds a byte that an HTTP header value may not carry.
    InvalidCredential,
    /// The request never produced a reply.
    Transport,
    /// The service answered outside the 2xx range.
    HttpStatus { status: u16, body: Option<String> },
    /// A 2xx reply whose body is not what the endpoint is known to return.
    Decode { endpoint: Endpoint },
}

} // verus!
