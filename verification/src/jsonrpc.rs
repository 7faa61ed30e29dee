//! The JSON-RPC 2.0 message model: requests, responses, notifications, the
//! numeric error-code mapping to and from the protocol's error categories,
//! and the result/error extraction helpers.

use vstd::prelude::*;

use serde_json::Value;

use crate::error::{ProtocolError, ProtocolErrorType, SerializableProtocolError};
use crate::json::{
    i64_of_value, i64_value, is_null_value, member_of, null_value, object_insert, object_new,
    object_value, str_of_value, string_value, u64_of_value,
};

verus! {

/// The id field name used by the request and response.
pub const ID_KEY: &'static str = "id";

/// The method field name used by the request and notification.
pub const METHOD_KEY: &'static str = "method";

/// The version of JSON-RPC spoken here.
pub const JSON_RPC_VERSION: &'static str = "2.0";

/// Data structure for a JSON-RPC request.
pub struct JsonRpcRequest {
    pub jsonrpc_version: String,
    pub method: String,
    pub params: Option<Value>,
    pub id: Value,
}

/// Data structure for a JSON-RPC response.
pub struct JsonRpcResponse {
    pub jsonrpc_version: String,
    pub result: Option<Value>,
    pub error: Option<JsonRpcResponseError>,
    pub id: Value,
}

/// Data structure for a JSON-RPC notification.
pub struct JsonRpcNotification {
    pub jsonrpc_version: String,
    pub method: String,
    pub params: Option<Value>,
}

/// Parameters used to return a result or an error for a notification;
/// exactly one of the two fields is set.
pub struct JsonRpcNotificationResultParams {
    pub result: Option<Value>,
    pub error: Option<JsonRpcResponseError>,
}

/// Data structure for the error in a JSON-RPC response.
pub struct JsonRpcResponseError {
    pub code: i32,
    pub message: String,
    pub data: Option<Value>,
}

/// A subset of JSON-RPC error codes.
#[derive(Clone, Copy, Debug, PartialEq, Eq, Structural)]
pub enum JsonRpcErrorCode {
    ParseError,
    InvalidRequest,
    MethodNotFound,
    InvalidParams,
    InternalError,
}

/// The numeric wire value of an error code.
pub open spec fn spec_code_number(c: JsonRpcErrorCode) -> i32 {
    match c {
        JsonRpcErrorCode::ParseError => -32700i32,
        JsonRpcErrorCode::InvalidRequest => -32600i32,
        JsonRpcErrorCode::MethodNotFound => -32601i32,
        JsonRpcErrorCode::InvalidParams => -32602i32,
        JsonRpcErrorCode::InternalError => -32603i32,
    }
}

/// The error code a numeric wire value decodes to; unknown values collapse
/// into `InternalError`.
pub open spec fn spec_code_of_number(n: i32) -> JsonRpcErrorCode {
    if n == -32700 {
        JsonRpcErrorCode::ParseError
    } else if n == -32600 {
        JsonRpcErrorCode::InvalidRequest
    } else if n == -32601 {
        JsonRpcErrorCode::MethodNotFound
    } else if n == -32602 {
        JsonRpcErrorCode::InvalidParams
    } else {
        JsonRpcErrorCode::InternalError
    }
}

/// The error category an error code decodes to: `InternalError` means
/// `Internal`, every other listed code means `BadRequest`.
pub open spec fn spec_error_type_of_code(c: JsonRpcErrorCode) -> ProtocolErrorType {
    match c {
        JsonRpcErrorCode::InternalError => ProtocolErrorType::Internal,
        _ => ProtocolErrorType::BadRequest,
    }
}

/// The error code an error category encodes to: `BadRequest` and
/// `Unauthorized` become `InvalidRequest`, everything else becomes
/// `InternalError`.
pub open spec fn spec_code_of_error_type(t: ProtocolErrorType) -> JsonRpcErrorCode {
    match t {
        ProtocolErrorType::BadRequest => JsonRpcErrorCode::InvalidRequest,
        ProtocolErrorType::Unauthorized => JsonRpcErrorCode::InvalidRequest,
        _ => JsonRpcErrorCode::InternalError,
    }
}

impl JsonRpcErrorCode {
    /// The numeric wire value of this code.
    pub fn code(&self) -> (r: i32)
        ensures
            r == spec_code_number(*self),
    {
        match self {
            JsonRpcErrorCode::ParseError => -32700,
            JsonRpcErrorCode::InvalidRequest => -32600,
            JsonRpcErrorCode::MethodNotFound => -32601,
            JsonRpcErrorCode::InvalidParams => -32602,
            JsonRpcErrorCode::InternalError => -32603,
        }
    }

    /// Decodes a numeric wire value; unknown values collapse into
    /// `InternalError`.
    pub fn from_code(code: i32) -> (r: Self)
        ensures
            r == spec_code_of_number(code),
    {
        if code == -32700 {
            JsonRpcErrorCode::ParseError
        } else if code == -32600 {
            JsonRpcErrorCode::InvalidRequest
        } else if code == -32601 {
            JsonRpcErrorCode::MethodNotFound
        } else if code == -32602 {
            JsonRpcErrorCode::InvalidParams
        } else {
            JsonRpcErrorCode::InternalError
        }
    }

    /// The error category this code decodes to.
    pub fn to_error_type(&self) -> (r: ProtocolErrorType)
        ensures
            r == spec_error_type_of_code(*self),
    {
        match self {
            JsonRpcErrorCode::InternalError => ProtocolErrorType::Internal,
            _ => ProtocolErrorType::BadRequest,
        }
    }

    /// The error code this category encodes to.
    pub fn from_error_type(t: ProtocolErrorType) -> (r: Self)
        ensures
            r == spec_code_of_error_type(t),
    {
        match t {
            ProtocolErrorType::BadRequest => JsonRpcErrorCode::InvalidRequest,
            ProtocolErrorType::Unauthorized => JsonRpcErrorCode::InvalidRequest,
            _ => JsonRpcErrorCode::InternalError,
        }
    }
}

/// Law (category round trip over JSON-RPC): encoding a category as a wire
/// code and decoding it again is lossy in a fixed way — `BadRequest` and
/// `Unauthorized` come back as `BadRequest`, everything else as `Internal`.
/// In particular a `BadRequest` never becomes `Internal`, and an `Internal`
/// never becomes `BadRequest`.
pub proof fn lemma_category_round_trip_jsonrpc(t: ProtocolErrorType)
    ensures
        spec_error_type_of_code(spec_code_of_number(spec_code_number(spec_code_of_error_type(t))))
            == (match t {
            ProtocolErrorType::BadRequest => ProtocolErrorType::BadRequest,
            ProtocolErrorType::Unauthorized => ProtocolErrorType::BadRequest,
            _ => ProtocolErrorType::Internal,
        }),
{
}

/// All supported types of JSON-RPC messages.
pub enum JsonRpcMessage {
    Request(JsonRpcRequest),
    Response(JsonRpcResponse),
    Notification(JsonRpcNotification),
}

/// The message variant a bare JSON object discriminates to: the presence of
/// a `method` key selects a request or a notification, told apart by the
/// presence of an `id` key; anything else reads as a response.
#[derive(Clone, Copy, Debug, PartialEq, Eq, Structural)]
pub enum JsonRpcMessageKind {
    Request,
    Response,
    Notification,
}

/// Discriminates which message variant a bare JSON object holds, from the
/// presence of its `method` and `id` keys.
pub fn discriminate_message(has_method: bool, has_id: bool) -> (k: JsonRpcMessageKind)
    ensures
        has_method && has_id ==> k == JsonRpcMessageKind::Request,
        has_method && !has_id ==> k == JsonRpcMessageKind::Notification,
        !has_method ==> k == JsonRpcMessageKind::Response,
{
    if has_method {
        if has_id {
            JsonRpcMessageKind::Request
        } else {
            JsonRpcMessageKind::Notification
        }
    } else {
        JsonRpcMessageKind::Response
    }
}

/// The literal protocol version, as an owned string.
fn version_string() -> (s: String)
    ensures
        s@ == JSON_RPC_VERSION@,
{
    JSON_RPC_VERSION.to_owned()
}

impl JsonRpcRequest {
    /// A fresh request with a null id; the transport assigns the real id.
    pub fn new(method: String, params: Option<Value>) -> (r: Self)
        ensures
            r.jsonrpc_version@ == JSON_RPC_VERSION@,
            r.method == method,
            r.params == params,
            u64_of_value(r.id) == None::<u64>,
    {
        Self { jsonrpc_version: version_string(), method, params, id: null_value() }
    }
}

/// How a result/error pair reads off the JSON object a notification's
/// params serialise to: the object holds exactly a `result` member and an
/// `error` member, null standing for the absent side; an error is an object
/// holding exactly its wire code, its message and a null-defaulted `data`
/// member.
pub open spec fn spec_result_params_value(
    v: Value,
    result: Option<Value>,
    error: Option<JsonRpcResponseError>,
) -> bool {
    &&& match member_of(v, "result"@) {
        Some(w) => match result {
            Some(r) => w == r,
            None => is_null_value(w),
        },
        None => false,
    }
    &&& match member_of(v, "error"@) {
        Some(w) => match error {
            Some(e) => {
                &&& !is_null_value(w)
                &&& member_of(w, "code"@) matches Some(c) && i64_of_value(c) == Some(e.code as i64)
                &&& member_of(w, "message"@) matches Some(m) && str_of_value(m) == Some(e.message@)
                &&& member_of(w, "data"@) matches Some(d) && (match e.data {
                    Some(dv) => d == dv,
                    None => is_null_value(d),
                })
                &&& forall|k: Seq<char>|
                    k != "code"@ && k != "message"@ && k != "data"@ ==> member_of(w, k)
                        == None::<Value>
            },
            None => is_null_value(w),
        },
        None => false,
    }
    &&& forall|k: Seq<char>|
        k != "result"@ && k != "error"@ ==> member_of(v, k) == None::<Value>
}

/// Splits a result into the `result`/`error` pair a response or a
/// notification carries: exactly one of the two is set, and an error is
/// carried as its wire code and description.
fn get_result_and_error(result: Result<Value, ProtocolError>) -> (r: (
    Option<Value>,
    Option<JsonRpcResponseError>,
))
    ensures
        match result {
            Ok(v) => r.0 == Some(v) && r.1 == None::<JsonRpcResponseError>,
            Err(e) => r.0 == None::<Value> && r.1 == Some(
                (JsonRpcResponseError {
                    code: spec_code_number(spec_code_of_error_type(e.error_type)),
                    message: e.error,
                    data: None,
                }),
            ),
        },
{
    match result {
        Ok(v) => (Some(v), None),
        Err(e) => {
            let code = JsonRpcErrorCode::from_error_type(e.error_type).code();
            (None, Some(JsonRpcResponseError { code, message: e.error, data: None }))
        },
    }
}

impl JsonRpcResponse {
    /// A response carrying either the given result or the given error, with
    /// the error's category encoded as a JSON-RPC code.
    pub fn new(result: Result<Value, ProtocolError>, id: Value) -> (r: Self)
        ensures
            r.jsonrpc_version@ == JSON_RPC_VERSION@,
            r.id == id,
            match result {
                Ok(v) => r.result == Some(v) && r.error == None::<JsonRpcResponseError>,
                Err(e) => r.result == None::<Value> && r.error == Some(
                    (JsonRpcResponseError {
                        code: spec_code_number(spec_code_of_error_type(e.error_type)),
                        message: e.error,
                        data: None,
                    }),
                ),
            },
    {
        let (result, error) = get_result_and_error(result);
        JsonRpcResponse { jsonrpc_version: version_string(), result, error, id }
    }

    /// Evaluates `result` and `error` from the response and returns a
    /// `Result`: an error wins and decodes its category from the wire code;
    /// otherwise the result, defaulting to null.
    pub fn get_result(self) -> (r: Result<Value, SerializableProtocolError>)
        ensures
            match self.error {
                Some(err) => r == Err::<Value, SerializableProtocolError>(
                    (SerializableProtocolError {
                        error_type: spec_error_type_of_code(spec_code_of_number(err.code)),
                        description: err.message,
                    }),
                ),
                None => match self.result {
                    Some(v) => r == Ok::<Value, SerializableProtocolError>(v),
                    None => r is Ok && u64_of_value(r->Ok_0) == None::<u64>,
                },
            },
    {
        if let Some(error) = self.error {
            let error_type = JsonRpcErrorCode::from_code(error.code).to_error_type();
            return Err(SerializableProtocolError { error_type, description: error.message });
        }
        match self.result {
            Some(v) => Ok(v),
            None => Ok(null_value()),
        }
    }
}

impl JsonRpcNotificationResultParams {
    /// Parameters carrying either the given result or the given error.
    pub fn new(result: Result<Value, ProtocolError>) -> (r: Self)
        ensures
            match result {
                Ok(v) => r.result == Some(v) && r.error == None::<JsonRpcResponseError>,
                Err(e) => r.result == None::<Value> && r.error == Some(
                    (JsonRpcResponseError {
                        code: spec_code_number(spec_code_of_error_type(e.error_type)),
                        message: e.error,
                        data: None,
                    }),
                ),
            },
    {
        let (result, error) = get_result_and_error(result);
        Self { result, error }
    }

    /// Evaluates `result` and `error` and returns a `Result`: an error wins
    /// and decodes its category from the wire code; otherwise the result,
    /// defaulting to null.
    pub fn into_result(self) -> (r: Result<Value, SerializableProtocolError>)
        ensures
            match self.error {
                Some(err) => r == Err::<Value, SerializableProtocolError>(
                    (SerializableProtocolError {
                        error_type: spec_error_type_of_code(spec_code_of_number(err.code)),
                        description: err.message,
                    }),
                ),
                None => match self.result {
                    Some(v) => r == Ok::<Value, SerializableProtocolError>(v),
                    None => r is Ok && u64_of_value(r->Ok_0) == None::<u64>,
                },
            },
    {
        if let Some(error) = self.error {
            let error_type = JsonRpcErrorCode::from_code(error.code).to_error_type();
            return Err(SerializableProtocolError { error_type, description: error.message });
        }
        match self.result {
            Some(v) => Ok(v),
            None => Ok(null_value()),
        }
    }

    /// The JSON object these parameters serialise to: a `result` member and
    /// an `error` member, with null standing for the absent side.
    pub fn to_value(self) -> (v: Value)
        ensures
            u64_of_value(v) == None::<u64>,
            spec_result_params_value(v, self.result, self.error),
    {
        proof {
            reveal_strlit("result");
            reveal_strlit("error");
            reveal_strlit("code");
            reveal_strlit("message");
            reveal_strlit("data");
            assert("result"@ != "error"@) by {
                assert("result"@.len() == 6 && "error"@.len() == 5);
            }
            assert("code"@ != "message"@) by {
                assert("code"@.len() == 4 && "message"@.len() == 7);
            }
            assert("code"@ != "data"@) by {
                assert("code"@[0] == 'c' && "data"@[0] == 'd');
            }
            assert("message"@ != "data"@) by {
                assert("message"@.len() == 7 && "data"@.len() == 4);
            }
        }
        let mut object = object_new();
        let result_value = match self.result {
            Some(v) => v,
            None => null_value(),
        };
        object_insert(&mut object, "result".to_owned(), result_value);
        let error_value = match self.error {
            Some(e) => {
                let mut error_object = object_new();
                object_insert(&mut error_object, "code".to_owned(), i64_value(e.code as i64));
                object_insert(&mut error_object, "message".to_owned(), string_value(e.message));
                let data_value = match e.data {
                    Some(d) => d,
                    None => null_value(),
                };
                object_insert(&mut error_object, "data".to_owned(), data_value);
                object_value(error_object)
            },
            None => null_value(),
        };
        object_insert(&mut object, "error".to_owned(), error_value);
        object_value(object)
    }
}

impl JsonRpcNotification {
    /// A notification with the given method and parameters.
    pub fn new(method: String, params: Option<Value>) -> (r: Self)
        ensures
            r.jsonrpc_version@ == JSON_RPC_VERSION@,
            r.method == method,
            r.params == params,
    {
        JsonRpcNotification { jsonrpc_version: version_string(), method, params }
    }

    /// A notification whose parameters carry the given result or error; the
    /// caller supplies the stringified correlation id as the method.
    pub fn new_with_result_params(
        result: Result<Value, ProtocolError>,
        method: String,
    ) -> (r: Self)
        ensures
            r.jsonrpc_version@ == JSON_RPC_VERSION@,
            r.method == method,
            r.params matches Some(pv) && match result {
                Ok(w) => spec_result_params_value(pv, Some(w), None::<JsonRpcResponseError>),
                Err(e) => spec_result_params_value(
                    pv,
                    None::<Value>,
                    Some(
                        (JsonRpcResponseError {
                            code: spec_code_number(spec_code_of_error_type(e.error_type)),
                            message: e.error,
                            data: None,
                        }),
                    ),
                ),
            },
    {
        let params = JsonRpcNotificationResultParams::new(result);
        JsonRpcNotification {
            jsonrpc_version: version_string(),
            method,
            params: Some(params.to_value()),
        }
    }
}

impl From<JsonRpcRequest> for JsonRpcMessage {
    fn from(value: JsonRpcRequest) -> (r: Self) {
        Self::Request(value)
    }
}

impl vstd::std_specs::convert::FromSpecImpl<JsonRpcRequest> for JsonRpcMessage {
    open spec fn obeys_from_spec() -> bool {
        true
    }

    open spec fn from_spec(value: JsonRpcRequest) -> Self {
        JsonRpcMessage::Request(value)
    }
}

impl From<JsonRpcResponse> for JsonRpcMessage {
    fn from(value: JsonRpcResponse) -> (r: Self) {
        Self::Response(value)
    }
}

impl vstd::std_specs::convert::FromSpecImpl<JsonRpcResponse> for JsonRpcMessage {
    open spec fn obeys_from_spec() -> bool {
        true
    }

    open spec fn from_spec(value: JsonRpcResponse) -> Self {
        JsonRpcMessage::Response(value)
    }
}

impl From<JsonRpcNotification> for JsonRpcMessage {
    fn from(value: JsonRpcNotification) -> (r: Self) {
        Self::Notification(value)
    }
}

impl vstd::std_specs::convert::FromSpecImpl<JsonRpcNotification> for JsonRpcMessage {
    open spec fn obeys_from_spec() -> bool {
        true
    }

    open spec fn from_spec(value: JsonRpcNotification) -> Self {
        JsonRpcMessage::Notification(value)
    }
}

} // verus!
