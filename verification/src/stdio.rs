//! Common pieces of the stdio transport: its error type, the conversion
//! contracts user types implement, the line framing of messages, and the
//! decimal stringification that ties a notification's `method` field to the
//! correlation id it answers.

use vstd::prelude::*;

use vstd::string::StringExecFns;

use serde_json::Value;

use crate::error::{ProtocolError, ProtocolErrorType};
use crate::json::{u64_of_value, u64_value, value_as_u64};
use crate::jsonrpc::{
    spec_code_number, spec_code_of_error_type, JsonRpcMessage, JsonRpcRequest, JsonRpcResponse,
    JsonRpcResponseError,
};

verus! {

/// Errors that are specific to stdio communication.
#[derive(Clone, Copy, Debug, PartialEq, Eq, Structural)]
pub enum StdioError {
    SendRequestCommTask,
    Timeout,
    RecvResponseCommTask,
    ClientRequestUnsupported,
}

/// The text a stdio error carries.
pub open spec fn spec_stdio_error_message(e: StdioError) -> Seq<char> {
    match e {
        StdioError::SendRequestCommTask => "unable to send stdio request to comm task"@,
        StdioError::Timeout => "request timed out"@,
        StdioError::RecvResponseCommTask => (
        "unable to recv response for stdio request from comm task")@,
        StdioError::ClientRequestUnsupported => "client does not support serving requests"@,
    }
}

/// The category a stdio error falls under: a client that cannot reach its
/// own communication task, or times out, failed internally; an unsupported
/// inbound request is the peer's bad request.
pub open spec fn spec_stdio_error_type(e: StdioError) -> ProtocolErrorType {
    match e {
        StdioError::SendRequestCommTask => ProtocolErrorType::Internal,
        StdioError::Timeout => ProtocolErrorType::Internal,
        StdioError::RecvResponseCommTask => ProtocolErrorType::Internal,
        StdioError::ClientRequestUnsupported => ProtocolErrorType::BadRequest,
    }
}

impl StdioError {
    /// The text this error carries.
    pub fn message(&self) -> (r: String)
        ensures
            r@ == spec_stdio_error_message(*self),
    {
        match self {
            StdioError::SendRequestCommTask => "unable to send stdio request to comm task"
                .to_owned(),
            StdioError::Timeout => "request timed out".to_owned(),
            StdioError::RecvResponseCommTask =>
            "unable to recv response for stdio request from comm task".to_owned(),
            StdioError::ClientRequestUnsupported => "client does not support serving requests"
                .to_owned(),
        }
    }

    /// This error as a protocol error, with its category and text.
    pub fn to_protocol_error(self) -> (r: ProtocolError)
        ensures
            r.error_type == spec_stdio_error_type(self),
            r.error@ == spec_stdio_error_message(self),
    {
        ProtocolError { error_type: self.to_error_type(), error: self.message() }
    }

    /// The category this error falls under.
    pub fn to_error_type(&self) -> (r: ProtocolErrorType)
        ensures
            r == spec_stdio_error_type(*self),
    {
        match self {
            StdioError::SendRequestCommTask => ProtocolErrorType::Internal,
            StdioError::Timeout => ProtocolErrorType::Internal,
            StdioError::RecvResponseCommTask => ProtocolErrorType::Internal,
            StdioError::ClientRequestUnsupported => ProtocolErrorType::BadRequest,
        }
    }
}

/// A request that can convert to and from a [`JsonRpcRequest`].
pub trait RequestJsonRpcConvert<Request> {
    /// Deserializes a [`JsonRpcRequest`] into `Request`. An error means the
    /// request failed validation; `None` means the request type is unknown
    /// or unsupported, which is synonymous with a "not found" error.
    fn from_jsonrpc_request(value: JsonRpcRequest) -> Result<Option<Request>, ProtocolError>;

    /// Serializes a `Request` into a [`JsonRpcRequest`] with a null id; the
    /// transport assigns the real id.
    fn into_jsonrpc_request(&self) -> JsonRpcRequest;
}

/// A response that can convert to and from a [`JsonRpcResponse`] or a
/// [`JsonRpcNotification`](crate::jsonrpc::JsonRpcNotification).
pub trait ResponseJsonRpcConvert<Request, Response> {
    /// Deserializes a terminal [`JsonRpcResponse`] or a stream-item
    /// notification into `Response`, with the originating request at hand.
    /// An error means the response failed validation; `None` means the
    /// response type is unknown or unsupported.
    fn from_jsonrpc_message(
        value: JsonRpcMessage,
        original_request: &Request,
    ) -> Result<Option<Response>, ProtocolError>;

    /// Serializes a `Response` into a response or a notification. A
    /// notification must use the stringified integer behind `id` as its
    /// `method` value: that is how stream items are correlated on stdio.
    fn into_jsonrpc_message(response: Response, id: Value) -> JsonRpcMessage;
}

/// Frames one serialized message as a line of the stdio wire: the text,
/// newline-terminated.
pub fn frame_line(payload: String) -> (r: String)
    ensures
        r@ == payload@ + "\n"@,
{
    payload.concat("\n")
}

/// The decimal digits of an unsigned integer: what `u64`'s `ToString` hands
/// back, a pure function of the number.
pub uninterp spec fn dec_str_of(n: u64) -> Seq<char>;

/// The number a piece of text parses to as a `u64`, if any: what
/// `str::parse::<u64>` hands back, a pure function of the text.
pub uninterp spec fn u64_of_dec(s: Seq<char>) -> Option<u64>;

/// Relies on `u64`'s `ToString`: the decimal digits of `n`, which
/// `str::parse::<u64>` parses back to `n`.
#[verifier::external_body]
fn u64_to_dec_string(n: u64) -> (r: String)
    ensures
        r@ == dec_str_of(n),
        u64_of_dec(r@) == Some(n),
{
    n.to_string()
}

/// Relies on `str::parse::<u64>`: the number the text spells in decimal,
/// if it spells one.
#[verifier::external_body]
fn parse_dec_u64(s: &str) -> (r: Option<u64>)
    ensures
        r == u64_of_dec(s@),
{
    s.parse::<u64>().ok()
}

/// The stringified form of a correlation id, used as a stream
/// notification's `method`.
pub fn id_method_string(id: u64) -> (r: String)
    ensures
        r@ == dec_str_of(id),
        u64_of_dec(r@) == Some(id),
{
    u64_to_dec_string(id)
}

/// The correlation id a notification's `method` field names, with 0 — an id
/// never assigned — standing for text that names none.
pub fn parse_stream_id(method: &str) -> (r: u64)
    ensures
        match u64_of_dec(method@) {
            Some(n) => r == n,
            None => r == 0,
        },
{
    match parse_dec_u64(method) {
        Some(n) => n,
        None => 0,
    }
}

/// The numeric correlation id a wire id value holds, with 0 — an id never
/// assigned — standing for a non-numeric id.
pub fn numeric_id(id: &Value) -> (r: u64)
    ensures
        match u64_of_value(*id) {
            Some(n) => r == n,
            None => r == 0,
        },
{
    match value_as_u64(id) {
        Some(n) => n,
        None => 0,
    }
}

/// Stamps an outgoing request with its assigned correlation id.
pub fn assign_request_id(request: &mut JsonRpcRequest, id: u64)
    ensures
        u64_of_value(final(request).id) == Some(id),
        final(request).jsonrpc_version == old(request).jsonrpc_version,
        final(request).method == old(request).method,
        final(request).params == old(request).params,
{
    request.id = u64_value(id);
}

/// The reply the stdio client sends when the child addresses a request to
/// it: a response carrying the request's own id and a bad-request error,
/// since the client serves nothing.
pub fn unsolicited_request_response(request: JsonRpcRequest) -> (r: JsonRpcResponse)
    ensures
        r.id == request.id,
        r.result == None::<Value>,
        r.error is Some,
        r.error->Some_0.code == spec_code_number(
            spec_code_of_error_type(ProtocolErrorType::BadRequest),
        ),
        r.error->Some_0.message@ == spec_stdio_error_message(StdioError::ClientRequestUnsupported),
        r.error->Some_0.data == None::<Value>,
{
    let error = StdioError::ClientRequestUnsupported.to_protocol_error();
    JsonRpcResponse::new(Err(error), request.id)
}

/// What a conversion of an incoming reply obliges the client to deliver:
/// the converted response, the conversion's own error, or nothing when the
/// reply's type is unknown — an unrecognised reply is dropped and the call
/// is left to time out.
pub enum ConversionOutcome<Resp> {
    Deliver(Resp),
    DeliverError(ProtocolError),
    Drop,
}

/// Turns a user converter's verdict on an incoming reply into what the
/// client delivers: a converted value is delivered, a conversion error is
/// delivered as the call's error, and an unrecognised reply is dropped.
pub fn interpret_conversion<Resp>(conversion: Result<Option<Resp>, ProtocolError>) -> (r:
    ConversionOutcome<Resp>)
    ensures
        match conversion {
            Ok(Some(resp)) => r == ConversionOutcome::Deliver(resp),
            Ok(None) => r == ConversionOutcome::Drop::<Resp>,
            Err(e) => r == ConversionOutcome::DeliverError::<Resp>(e),
        },
{
    match conversion {
        Ok(Some(resp)) => ConversionOutcome::Deliver(resp),
        Ok(None) => ConversionOutcome::Drop,
        Err(e) => ConversionOutcome::DeliverError(e),
    }
}

} // verus!
