//! The response codes of the two flows, and the fixed parts of the HTTP
//! surface.

use vstd::prelude::*;
use vstd::utf8::encode_utf8;

use crate::text::bytes_start_with;

verus! {

/// The response codes that the library hands out.
#[derive(Clone, Copy, Debug, PartialEq, Eq, Structural)]
pub enum Status {
    Success,
    BadRequest,
    Unauthorized,
    Conflict,
    InternalServerError,
    ServiceUnavailable,
}

impl Status {
    /// The number of the code.
    pub open spec fn number(self) -> u16 {
        match self {
            Status::Success => 200,
            Status::BadRequest => 400,
            Status::Unauthorized => 401,
            Status::Conflict => 409,
            Status::InternalServerError => 500,
            Status::ServiceUnavailable => 503,
        }
    }

    /// The number of the code.
    pub fn code(self) -> (n: u16)
        ensures
            n == self.number(),
    {
        match self {
            Status::Success => 200,
            Status::BadRequest => 400,
            Status::Unauthorized => 401,
            Status::Conflict => 409,
            Status::InternalServerError => 500,
            Status::ServiceUnavailable => 503,
        }
    }
}

/// Why a flow ended without success.
#[derive(Clone, Copy, Debug, PartialEq, Eq, Structural)]
pub enum Failure {
    /// The username does not have the shape asked for.
    Validation,
    /// The username is taken.
    Conflict,
    /// Unknown user or wrong password: one failure for both.
    Auth,
    /// The store could not be reached or failed.
    StoreUnavailable,
    /// The password could not be hashed.
    Hashing,
    /// The account's row is written, its database role is not.
    Provision,
}

impl Failure {
    /// The response code that reports the failure.
    pub open spec fn status(self) -> Status {
        match self {
            Failure::Validation => Status::BadRequest,
            Failure::Conflict => Status::Conflict,
            Failure::Auth => Status::Unauthorized,
            Failure::StoreUnavailable => Status::ServiceUnavailable,
            Failure::Hashing => Status::InternalServerError,
            Failure::Provision => Status::ServiceUnavailable,
        }
    }

    /// The response code that reports the failure.
    pub fn to_status(self) -> (status: Status)
        ensures
            status == self.status(),
    {
        match self {
            Failure::Validation => Status::BadRequest,
            Failure::Conflict => Status::Conflict,
            Failure::Auth => Status::Unauthorized,
            Failure::StoreUnavailable => Status::ServiceUnavailable,
            Failure::Hashing => Status::InternalServerError,
            Failure::Provision => Status::ServiceUnavailable,
        }
    }
}

/// The answer to every `OPTIONS` request, which browsers send ahead of a
/// cross-origin request.
pub fn all_options() -> (status: Status)
    ensures
        status == Status::Success,
{
    Status::Success
}

/// A response header.
#[derive(Debug)]
pub struct Header {
    pub name: String,
    pub value: String,
}

impl View for Header {
    type V = (Seq<char>, Seq<char>);

    open spec fn view(&self) -> (Seq<char>, Seq<char>) {
        (self.name@, self.value@)
    }
}

/// Whether the UTF-8 bytes of an origin are those of a page served from
/// this machine.
pub open spec fn is_local_origin(origin: Seq<u8>) -> bool {
    encode_utf8("http://localhost"@).is_prefix_of(origin) || encode_utf8(
        "https://localhost"@,
    ).is_prefix_of(origin)
}

/// The headers that every response gets.
pub open spec fn fixed_headers() -> Seq<(Seq<char>, Seq<char>)> {
    seq![
        ("Access-Control-Allow-Methods"@, "POST, GET, PATCH, PUT, OPTIONS"@),
        ("Access-Control-Allow-Headers"@, "*"@),
        ("Access-Control-Allow-Credentials"@, "true"@),
    ]
}

/// The cross-origin headers of a response to a request with the given
/// `Origin` header: a local origin is allowed by name, and the fixed headers
/// follow.
pub open spec fn cors_headers(origin: Option<Seq<char>>) -> Seq<(Seq<char>, Seq<char>)> {
    match origin {
        Some(o) if is_local_origin(encode_utf8(o)) => seq![("Access-Control-Allow-Origin"@, o)]
            + fixed_headers(),
        _ => fixed_headers(),
    }
}

/// Adds the cross-origin headers to responses.
#[derive(Clone, Copy, Debug)]
pub struct CORS;

impl CORS {
    /// The headers to set on the response to a request whose `Origin` header
    /// is `origin`.
    pub fn response_headers(&self, origin: Option<&str>) -> (headers: Vec<Header>)
        ensures
            headers@.map_values(|h: Header| h@) == cors_headers(
                match origin {
                    Some(o) => Some(o@),
                    None => None,
                },
            ),
    {
        let mut headers: Vec<Header> = Vec::new();
        if let Some(o) = origin {
            let bytes = o.as_bytes();
            if bytes_start_with(bytes, "http://localhost".as_bytes()) || bytes_start_with(
                bytes,
                "https://localhost".as_bytes(),
            ) {
                headers.push(
                    Header { name: "Access-Control-Allow-Origin".to_owned(), value: o.to_owned() },
                );
            }
        }
        headers.push(
            Header {
                name: "Access-Control-Allow-Methods".to_owned(),
                value: "POST, GET, PATCH, PUT, OPTIONS".to_owned(),
            },
        );
        headers.push(
            Header { name: "Access-Control-Allow-Headers".to_owned(), value: "*".to_owned() },
        );
        headers.push(
            Header {
                name: "Access-Control-Allow-Credentials".to_owned(),
                value: "true".to_owned(),
            },
        );
        assert(headers@.map_values(|h: Header| h@) =~= cors_headers(
            match origin {
                Some(o) => Some(o@),
                None => None,
            },
        ));
        headers
    }
}

} // verus!
