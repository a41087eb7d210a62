//! Responses and the failure taxonomy that every handler maps onto them.
use vstd::prelude::*;

verus! {

/// Status of a request that was served.
pub const STATUS_OK: u16 = 200;

/// Status of a request whose body could not be understood.
pub const STATUS_BAD_REQUEST: u16 = 400;

/// Status of a request for something that does not exist.
pub const STATUS_NOT_FOUND: u16 = 404;

/// Status of a request that failed inside the service.
pub const STATUS_INTERNAL_ERROR: u16 = 500;

/// The category of a failure.
#[derive(Clone, Copy, Debug, PartialEq, Eq, Structural)]
pub enum Failure {
    /// A template source did not compile.
    ParseError,
    /// A request body was malformed or lacked an expected field.
    BadRequest,
    /// No record matched an identifier.
    NotFound,
    /// The record store failed.
    StoreError,
    /// A template was missing or could not be rendered.
    RenderError,
}

impl Failure {
    /// The HTTP status that answers a failure of this category.
    pub open spec fn spec_status(self) -> u16 {
        match self {
            Failure::BadRequest => STATUS_BAD_REQUEST,
            Failure::NotFound => STATUS_NOT_FOUND,
            Failure::ParseError | Failure::StoreError | Failure::RenderError => STATUS_INTERNAL_ERROR,
        }
    }

    /// The HTTP status that answers a failure of this category.
    #[verifier::when_used_as_spec(spec_status)]
    pub fn status(self) -> (code: u16)
        ensures
            code == self.spec_status(),
    {
        match self {
            Failure::BadRequest => STATUS_BAD_REQUEST,
            Failure::NotFound => STATUS_NOT_FOUND,
            Failure::ParseError => STATUS_INTERNAL_ERROR,
            Failure::StoreError => STATUS_INTERNAL_ERROR,
            Failure::RenderError => STATUS_INTERNAL_ERROR,
        }
    }

    /// The name of the category, as text.
    pub open spec fn spec_label(self) -> Seq<char> {
        match self {
            Failure::ParseError => "ParseError"@,
            Failure::BadRequest => "BadRequest"@,
            Failure::NotFound => "NotFound"@,
            Failure::StoreError => "StoreError"@,
            Failure::RenderError => "RenderError"@,
        }
    }

    /// The name of the category, as text. It is never empty.
    pub fn label(self) -> (name: String)
        ensures
            name@ == self.spec_label(),
            name@.len() > 0,
    {
        proof {
            reveal_strlit("ParseError");
            reveal_strlit("BadRequest");
            reveal_strlit("NotFound");
            reveal_strlit("StoreError");
            reveal_strlit("RenderError");
        }
        match self {
            Failure::ParseError => "ParseError".to_owned(),
            Failure::BadRequest => "BadRequest".to_owned(),
            Failure::NotFound => "NotFound".to_owned(),
            Failure::StoreError => "StoreError".to_owned(),
            Failure::RenderError => "RenderError".to_owned(),
        }
    }
}

/// What a response is, as a mathematical value.
pub struct ResponseView {
    pub status: u16,
    pub body: Seq<char>,
}

/// A response: a status and a text body.
#[derive(Debug)]
pub struct Response {
    pub status: u16,
    pub body: String,
}

impl View for Response {
    type V = ResponseView;

    open spec fn view(&self) -> ResponseView {
        ResponseView { status: self.status, body: self.body@ }
    }
}

/// The response that carries `body` with status 200.
pub open spec fn success_view(body: Seq<char>) -> ResponseView {
    ResponseView { status: STATUS_OK, body }
}

/// The response that reports `failure`: its status, and an empty body, so that
/// nothing internal leaks.
pub open spec fn failure_view(failure: Failure) -> ResponseView {
    ResponseView { status: failure.spec_status(), body: Seq::empty() }
}

impl Response {
    /// A successful response with the given body.
    pub fn success(body: String) -> (r: Response)
        ensures
            r@ == success_view(body@),
    {
        Response { status: STATUS_OK, body }
    }

    /// The response that reports `failure`.
    pub fn failure(failure: Failure) -> (r: Response)
        ensures
            r@ == failure_view(failure),
    {
        Response { status: failure.status(), body: String::new() }
    }
}

/// Every failure is answered with one of the statuses 400, 404 and 500, never
/// with the status of success, and with an empty body.
pub proof fn lemma_failure_has_its_status(failure: Failure)
    ensures
        failure_view(failure).status == 400 || failure_view(failure).status == 404
            || failure_view(failure).status == 500,
        failure_view(failure).status != STATUS_OK,
        failure_view(failure).body.len() == 0,
        failure_view(failure).status == 400 <==> failure == Failure::BadRequest,
        failure_view(failure).status == 404 <==> failure == Failure::NotFound,
{
}

} // verus!
