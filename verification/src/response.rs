//! The shapes an answer can take.
//!
//! An answer is a status, a content type and a body. A structured request is
//! answered with a structured body that carries the request's identifier: the
//! analysis's own payload, or an [`Error`] where the language is not known. A
//! raw request is answered with bytes, with nothing, or with a line of text.

use vstd::prelude::*;
use vstd::string::*;

verus! {

/// What every adapter says of an input whose language it cannot tell.
pub const INVALID_LANGUAGE: &'static str =
    "The file extension doesn't correspond to a valid language";

/// The text that answers a raw request whose language is not known.
pub open spec fn plain_error_text() -> Seq<char> {
    "error: "@ + INVALID_LANGUAGE@
}

/// The structured answer to a request whose language is not known.
#[derive(Debug, PartialEq, Eq)]
pub struct Error {
    /// The identifier of the request.
    pub id: String,
    /// Why there is no result.
    pub error: &'static str,
}

/// How a request ended.
#[derive(Debug, Clone, Copy, PartialEq, Eq, Structural)]
pub enum Status {
    /// The analysis ran and its result is in the body.
    Success,
    /// The analysis ran and left nothing to send.
    NoContent,
    /// The language of the input is not known.
    NotFound,
}

/// How the body is to be read.
#[derive(Debug, Clone, Copy, PartialEq, Eq, Structural)]
pub enum ContentType {
    /// A structured document.
    Json,
    /// Bytes, as they are.
    OctetStream,
    /// Text.
    TextPlain,
}

impl Status {
    /// The status code that the answer goes out with.
    pub open spec fn spec_code(self) -> u16 {
        match self {
            Status::Success => 200,
            Status::NoContent => 204,
            Status::NotFound => 404,
        }
    }

    /// The status code that the answer goes out with.
    #[verifier::when_used_as_spec(spec_code)]
    pub fn code(self) -> (r: u16)
        ensures
            r == self.spec_code(),
    {
        match self {
            Status::Success => 200,
            Status::NoContent => 204,
            Status::NotFound => 404,
        }
    }

    /// The request was served.
    pub open spec fn is_success(self) -> bool {
        200 <= self.spec_code() < 300
    }

    /// The request could not be served as it was made.
    pub open spec fn is_client_error(self) -> bool {
        400 <= self.spec_code() < 500
    }
}

impl ContentType {
    /// The media type that the body is announced as.
    pub open spec fn spec_mime(self) -> Seq<char> {
        match self {
            ContentType::Json => "application/json"@,
            ContentType::OctetStream => "application/octet-stream"@,
            ContentType::TextPlain => "text/plain"@,
        }
    }

    /// The media type that the body is announced as.
    pub fn mime(self) -> (r: &'static str)
        ensures
            r@ == self.spec_mime(),
    {
        match self {
            ContentType::Json => "application/json",
            ContentType::OctetStream => "application/octet-stream",
            ContentType::TextPlain => "text/plain",
        }
    }
}

/// What an answer carries.
#[derive(Debug, PartialEq, Eq)]
pub enum Body<T> {
    /// Nothing.
    Empty,
    /// The payload of the analysis.
    Json(T),
    /// The reason why no analysis ran.
    Error(Error),
    /// Source bytes.
    Bytes(Vec<u8>),
    /// A line of text.
    Text(String),
}

/// The answer to one request; `T` is the structured payload of the route.
#[derive(Debug, PartialEq, Eq)]
pub struct Response<T> {
    /// How the request ended.
    pub status: Status,
    /// How the body is to be read, where that is stated.
    pub content_type: Option<ContentType>,
    /// What is sent back.
    pub body: Body<T>,
}

impl<T> Response<T> {
    /// The answer is a success that carries a structured payload.
    pub open spec fn is_structured(self) -> bool {
        &&& self.status == Status::Success
        &&& self.content_type == Some(ContentType::Json)
        &&& self.body is Json
    }

    /// The answer is a success that carries `payload`.
    pub open spec fn is_found(self, payload: T) -> bool {
        &&& self.status == Status::Success
        &&& self.content_type == Some(ContentType::Json)
        &&& self.body == Body::Json(payload)
    }

    /// The answer is the structured refusal of request `id`.
    pub open spec fn is_unknown_language(self, id: Seq<char>) -> bool {
        &&& self.status == Status::NotFound
        &&& self.content_type == Some(ContentType::Json)
        &&& self.body matches Body::Error(e)
        &&& e.id@ == id
        &&& e.error@ == INVALID_LANGUAGE@
    }

    /// The answer is the refusal of a raw request.
    pub open spec fn is_unknown_language_plain(self) -> bool {
        &&& self.status == Status::NotFound
        &&& self.content_type == Some(ContentType::TextPlain)
        &&& self.body matches Body::Text(text)
        &&& text@ == plain_error_text()
    }

    /// The answer is a success that carries the bytes `code`.
    pub open spec fn is_bytes(self, code: Seq<u8>) -> bool {
        &&& self.status == Status::Success
        &&& self.content_type == Some(ContentType::OctetStream)
        &&& self.body matches Body::Bytes(bytes)
        &&& bytes@ == code
    }

    /// The answer says that there is nothing to send.
    pub open spec fn is_no_content(self) -> bool {
        &&& self.status == Status::NoContent
        &&& self.content_type == Some(ContentType::OctetStream)
        &&& self.body is Empty
    }

    /// The answer is a bare success.
    pub open spec fn is_alive(self) -> bool {
        &&& self.status == Status::Success
        &&& self.content_type is None
        &&& self.body is Empty
    }

    /// A success that carries the payload of an analysis.
    pub fn found(payload: T) -> (r: Self)
        ensures
            r.is_found(payload),
    {
        Response {
            status: Status::Success,
            content_type: Some(ContentType::Json),
            body: Body::Json(payload),
        }
    }

    /// The refusal of the structured request `id`.
    pub fn unknown_language(id: String) -> (r: Self)
        ensures
            r.is_unknown_language(id@),
    {
        Response {
            status: Status::NotFound,
            content_type: Some(ContentType::Json),
            body: Body::Error(Error { id, error: INVALID_LANGUAGE }),
        }
    }

    /// The refusal of a raw request.
    pub fn unknown_language_plain() -> (r: Self)
        ensures
            r.is_unknown_language_plain(),
    {
        let text = String::from_str("error: ").concat(INVALID_LANGUAGE);
        Response {
            status: Status::NotFound,
            content_type: Some(ContentType::TextPlain),
            body: Body::Text(text),
        }
    }

    /// A success that carries source bytes.
    pub fn bytes(code: Vec<u8>) -> (r: Self)
        ensures
            r.is_bytes(code@),
    {
        Response {
            status: Status::Success,
            content_type: Some(ContentType::OctetStream),
            body: Body::Bytes(code),
        }
    }

    /// A success with nothing to send.
    pub fn no_content() -> (r: Self)
        ensures
            r.is_no_content(),
    {
        Response {
            status: Status::NoContent,
            content_type: Some(ContentType::OctetStream),
            body: Body::Empty,
        }
    }

    /// A bare success.
    pub fn alive() -> (r: Self)
        ensures
            r.is_alive(),
    {
        Response { status: Status::Success, content_type: None, body: Body::Empty }
    }
}

} // verus!
