//! The HTTP transport's decision core: the category/status maps, the
//! API-key check, request routing, the server-sent-event notification
//! payload, and the planning of responses on both the server and the client
//! side. The sockets, headers and bodies these decisions drive live outside
//! the verified library.

use vstd::prelude::*;

use serde_json::Value;

use crate::error::{ProtocolError, ProtocolErrorType, SerializableProtocolError};
use crate::ServiceResponse;

verus! {

/// Body for an HTTP error response.
pub struct ProtocolHttpError {
    pub error: String,
}

/// The HTTP status an error category maps onto.
pub open spec fn spec_status_of_error_type(t: ProtocolErrorType) -> u16 {
    match t {
        ProtocolErrorType::BadRequest => 400u16,
        ProtocolErrorType::Unauthorized => 401u16,
        ProtocolErrorType::Internal => 500u16,
        ProtocolErrorType::NotFound => 404u16,
        ProtocolErrorType::HttpMethodNotAllowed => 405u16,
    }
}

/// The error category an HTTP status decodes to; any status outside the
/// five mapped ones collapses into `Internal`.
pub open spec fn spec_error_type_of_status(status: u16) -> ProtocolErrorType {
    if status == 400 {
        ProtocolErrorType::BadRequest
    } else if status == 401 {
        ProtocolErrorType::Unauthorized
    } else if status == 500 {
        ProtocolErrorType::Internal
    } else if status == 404 {
        ProtocolErrorType::NotFound
    } else if status == 405 {
        ProtocolErrorType::HttpMethodNotAllowed
    } else {
        ProtocolErrorType::Internal
    }
}

/// The status line text of the status an error category maps onto.
pub open spec fn spec_status_text(t: ProtocolErrorType) -> Seq<char> {
    match t {
        ProtocolErrorType::BadRequest => "400 Bad Request"@,
        ProtocolErrorType::Unauthorized => "401 Unauthorized"@,
        ProtocolErrorType::Internal => "500 Internal Server Error"@,
        ProtocolErrorType::NotFound => "404 Not Found"@,
        ProtocolErrorType::HttpMethodNotAllowed => "405 Method Not Allowed"@,
    }
}

/// The HTTP status an error category maps onto.
pub fn status_of_error_type(t: ProtocolErrorType) -> (r: u16)
    ensures
        r == spec_status_of_error_type(t),
{
    match t {
        ProtocolErrorType::BadRequest => 400,
        ProtocolErrorType::Unauthorized => 401,
        ProtocolErrorType::Internal => 500,
        ProtocolErrorType::NotFound => 404,
        ProtocolErrorType::HttpMethodNotAllowed => 405,
    }
}

/// The error category an HTTP status decodes to.
pub fn error_type_of_status(status: u16) -> (r: ProtocolErrorType)
    ensures
        r == spec_error_type_of_status(status),
{
    if status == 400 {
        ProtocolErrorType::BadRequest
    } else if status == 401 {
        ProtocolErrorType::Unauthorized
    } else if status == 500 {
        ProtocolErrorType::Internal
    } else if status == 404 {
        ProtocolErrorType::NotFound
    } else if status == 405 {
        ProtocolErrorType::HttpMethodNotAllowed
    } else {
        ProtocolErrorType::Internal
    }
}

/// Law (category round trip over HTTP): the status map loses nothing — every
/// category comes back unchanged from its own status code.
pub proof fn lemma_category_round_trip_http(t: ProtocolErrorType)
    ensures
        spec_error_type_of_status(spec_status_of_error_type(t)) == t,
{
}

/// The status line text of the status an error category maps onto.
pub fn status_text(t: ProtocolErrorType) -> (r: String)
    ensures
        r@ == spec_status_text(t),
{
    match t {
        ProtocolErrorType::BadRequest => "400 Bad Request".to_owned(),
        ProtocolErrorType::Unauthorized => "401 Unauthorized".to_owned(),
        ProtocolErrorType::Internal => "500 Internal Server Error".to_owned(),
        ProtocolErrorType::NotFound => "404 Not Found".to_owned(),
        ProtocolErrorType::HttpMethodNotAllowed => "405 Method Not Allowed".to_owned(),
    }
}

/// A generic protocol error whose text is the status line of its category,
/// such as "404 Not Found".
pub fn generic_error(error_type: ProtocolErrorType) -> (r: ProtocolError)
    ensures
        r.error_type == error_type,
        r.error@ == spec_status_text(error_type),
{
    let error = status_text(error_type);
    ProtocolError { error_type, error }
}

/// Whether some accepted key matches the presented one.
pub open spec fn spec_key_accepted(keys: Seq<String>, presented: Seq<char>) -> bool {
    exists|i: int| 0 <= i < keys.len() && keys[i]@ == presented
}

/// The server's API-key check: with no keys configured the server is open;
/// otherwise the request must present a header value that is a member of
/// the accepted set, and anything else is rejected as unauthorized.
pub fn check_api_key(api_keys: &Vec<String>, header: Option<&String>) -> (r: Result<
    (),
    ProtocolError,
>)
    ensures
        api_keys@.len() == 0 ==> r == Ok::<(), ProtocolError>(()),
        api_keys@.len() > 0 ==> match header {
            Some(h) => if spec_key_accepted(api_keys@, h@) {
                r == Ok::<(), ProtocolError>(())
            } else {
                r matches Err(e) && e.error_type == ProtocolErrorType::Unauthorized && e.error@
                    == spec_status_text(ProtocolErrorType::Unauthorized)
            },
            None => r matches Err(e) && e.error_type == ProtocolErrorType::Unauthorized && e.error@
                == spec_status_text(ProtocolErrorType::Unauthorized),
        },
{
    if api_keys.len() == 0 {
        return Ok(());
    }
    if let Some(h) = header {
        let mut i: usize = 0;
        while i < api_keys.len()
            invariant
                header == Some(h),
                0 <= i <= api_keys@.len(),
                forall|j: int| 0 <= j < i ==> api_keys@[j]@ != h@,
            decreases api_keys@.len() - i,
        {
            if api_keys[i] == *h {
                proof {
                    assert(api_keys@[i as int]@ == h@);
                    assert(spec_key_accepted(api_keys@, h@));
                }
                return Ok(());
            }
            i = i + 1;
        }
        proof {
            assert(forall|j: int| 0 <= j < api_keys@.len() ==> api_keys@[j]@ != h@);
            assert(!spec_key_accepted(api_keys@, h@));
        }
    }
    Err(generic_error(ProtocolErrorType::Unauthorized))
}

/// The JSON payload for a server-sent event carrying one stream item:
/// exactly one of `result` and `error` is set.
pub struct HttpNotificationPayload {
    pub result: Option<Value>,
    pub error: Option<SerializableProtocolError>,
}

impl HttpNotificationPayload {
    /// The payload a stream item's outcome is carried as: a value fills
    /// `result`; an error fills `error`; a converter that produced no value
    /// is carried as a generic not-found error.
    pub fn from_result(result: Result<Option<Value>, ProtocolError>) -> (r: Self)
        ensures
            match result {
                Ok(Some(v)) => r.result == Some(v) && r.error
                    == None::<SerializableProtocolError>,
                Ok(None) => {
                    &&& r.result == None::<Value>
                    &&& r.error is Some
                    &&& r.error->Some_0.error_type == ProtocolErrorType::NotFound
                    &&& r.error->Some_0.description@ == spec_status_text(
                        ProtocolErrorType::NotFound,
                    )
                },
                Err(e) => {
                    &&& r.result == None::<Value>
                    &&& r.error is Some
                    &&& r.error->Some_0.error_type == e.error_type
                    &&& r.error->Some_0.description == e.error
                },
            },
    {
        match result {
            Ok(Some(v)) => HttpNotificationPayload { result: Some(v), error: None },
            Ok(None) => {
                let e = generic_error(ProtocolErrorType::NotFound);
                HttpNotificationPayload {
                    result: None,
                    error: Some(
                        SerializableProtocolError {
                            error_type: e.error_type,
                            description: e.error,
                        },
                    ),
                }
            },
            Err(e) => HttpNotificationPayload {
                result: None,
                error: Some(
                    SerializableProtocolError { error_type: e.error_type, description: e.error },
                ),
            },
        }
    }

    /// The outcome a received payload stands for: an error wins, carried
    /// over with its category and description intact; otherwise the result;
    /// a payload with neither is a generic not-found error.
    pub fn into_result(self) -> (r: Result<Value, ProtocolError>)
        ensures
            match self.error {
                Some(e) => r == Err::<Value, ProtocolError>(
                    (ProtocolError { error_type: e.error_type, error: e.description }),
                ),
                None => match self.result {
                    Some(v) => r == Ok::<Value, ProtocolError>(v),
                    None => {
                        &&& r is Err
                        &&& r->Err_0.error_type == ProtocolErrorType::NotFound
                        &&& r->Err_0.error@ == spec_status_text(ProtocolErrorType::NotFound)
                    },
                },
            },
    {
        if let Some(e) = self.error {
            return Err(ProtocolError { error_type: e.error_type, error: e.description });
        }
        match self.result {
            Some(v) => Ok(v),
            None => Err(generic_error(ProtocolErrorType::NotFound)),
        }
    }
}

/// The status and error text of the response an error is reported as; the
/// body on the wire is the JSON object `{"error": <text>}`.
pub fn error_response_parts(e: &ProtocolError) -> (r: (u16, String))
    ensures
        r.0 == spec_status_of_error_type(e.error_type),
        r.1 == e.error,
{
    (status_of_error_type(e.error_type), e.error.clone())
}

/// What the HTTP server does with one converted request: dispatch it to the
/// handler, or reject it with a status and an error text.
pub enum HttpRouting<Req> {
    Dispatch(Req),
    Reject { status: u16, message: String },
}

/// Turns the user converter's verdict on an incoming request into the
/// server's routing: a recognised request dispatches; an unrecognised path
/// is rejected as 404 with the standard text; a converter error is rejected
/// with its category's status and its own text.
pub fn route_http_request<Req>(conversion: Result<Option<Req>, ProtocolError>) -> (r: HttpRouting<
    Req,
>)
    ensures
        match conversion {
            Ok(Some(request)) => r == HttpRouting::Dispatch(request),
            Ok(None) => {
                &&& r matches HttpRouting::Reject { status, message }
                &&& status == spec_status_of_error_type(ProtocolErrorType::NotFound)
                &&& message@ == spec_status_text(ProtocolErrorType::NotFound)
            },
            Err(e) => {
                &&& r matches HttpRouting::Reject { status, message }
                &&& status == spec_status_of_error_type(e.error_type)
                &&& message == e.error
            },
        },
{
    match conversion {
        Ok(Some(request)) => HttpRouting::Dispatch(request),
        Ok(None) => {
            let e = generic_error(ProtocolErrorType::NotFound);
            let (status, message) = error_response_parts(&e);
            HttpRouting::Reject { status, message }
        },
        Err(e) => {
            let (status, message) = error_response_parts(&e);
            HttpRouting::Reject { status, message }
        },
    }
}

/// How a handler outcome leaves the HTTP server: a single response to
/// convert and send, a stream to send as server-sent events, or a failure
/// with its status and error text.
pub enum HttpResponsePlan<Resp, S> {
    Single(Resp),
    Sse(S),
    Fail { status: u16, message: String },
}

/// Plans the HTTP server's answer from the handler's outcome: a single
/// response is sent as one JSON body, a stream becomes a server-sent-event
/// body, and a handler error is sent with its category's status and its
/// text as the error body.
pub fn plan_http_response<Resp, S>(
    result: Result<ServiceResponse<Resp, S>, ProtocolError>,
) -> (r: HttpResponsePlan<Resp, S>)
    ensures
        match result {
            Ok(ServiceResponse::Single(resp)) => r == HttpResponsePlan::Single::<Resp, S>(resp),
            Ok(ServiceResponse::Multiple(stream)) => r == HttpResponsePlan::Sse::<Resp, S>(stream),
            Err(e) => {
                &&& r matches HttpResponsePlan::Fail { status, message }
                &&& status == spec_status_of_error_type(e.error_type)
                &&& message == e.error
            },
        },
{
    match result {
        Ok(ServiceResponse::Single(resp)) => HttpResponsePlan::Single(resp),
        Ok(ServiceResponse::Multiple(stream)) => HttpResponsePlan::Sse(stream),
        Err(e) => {
            let (status, message) = error_response_parts(&e);
            HttpResponsePlan::Fail { status, message }
        },
    }
}

/// The HTTP client's reading of a response status: a success status carries
/// a payload to convert; anything else is the error the decoded body text
/// describes, under the category the status decodes to.
pub fn client_error_from_status(status: u16, message: String) -> (r: Option<ProtocolError>)
    ensures
        200 <= status < 300 ==> r == None::<ProtocolError>,
        !(200 <= status < 300) ==> r == Some(
            (ProtocolError { error_type: spec_error_type_of_status(status), error: message }),
        ),
{
    if 200 <= status && status < 300 {
        None
    } else {
        Some(ProtocolError { error_type: error_type_of_status(status), error: message })
    }
}

} // verus!
