//! The JSON-RPC message model: construction, discrimination, and the
//! result/error extraction helpers.

use multilink::error::{ProtocolError, ProtocolErrorType};
use multilink::jsonrpc::{
    discriminate_message, JsonRpcMessage, JsonRpcMessageKind, JsonRpcNotification,
    JsonRpcNotificationResultParams, JsonRpcRequest, JsonRpcResponse, JsonRpcResponseError,
    JSON_RPC_VERSION,
};
use serde_json::Value;

#[test]
fn request_new_has_version_and_null_id() {
    let r = JsonRpcRequest::new("sayHello".to_string(), Some(Value::from(1)));
    assert_eq!(r.jsonrpc_version, "2.0");
    assert_eq!(JSON_RPC_VERSION, "2.0");
    assert_eq!(r.method, "sayHello");
    assert!(r.id.is_null());
    assert_eq!(r.params, Some(Value::from(1)));
}

#[test]
fn response_new_ok_carries_result() {
    let r = JsonRpcResponse::new(Ok(Value::from(5)), Value::from(3));
    assert_eq!(r.jsonrpc_version, "2.0");
    assert_eq!(r.id, Value::from(3));
    assert_eq!(r.result, Some(Value::from(5)));
    assert!(r.error.is_none());
}

#[test]
fn response_new_err_carries_code_and_message() {
    let e = ProtocolError::new(ProtocolErrorType::BadRequest, "no such name".to_string());
    let r = JsonRpcResponse::new(Err(e), Value::from(3));
    assert!(r.result.is_none());
    let err = r.error.expect("error should be set");
    assert_eq!(err.code, -32600);
    assert_eq!(err.message, "no such name");
    assert!(err.data.is_none());
}

#[test]
fn response_get_result_ok() {
    let r = JsonRpcResponse::new(Ok(Value::from(5)), Value::from(1));
    assert_eq!(r.get_result().unwrap(), Value::from(5));
}

#[test]
fn response_get_result_defaults_to_null() {
    let r = JsonRpcResponse {
        jsonrpc_version: "2.0".to_string(),
        result: None,
        error: None,
        id: Value::from(1),
    };
    assert_eq!(r.get_result().unwrap(), Value::Null);
}

#[test]
fn response_get_result_decodes_error_category() {
    let r = JsonRpcResponse {
        jsonrpc_version: "2.0".to_string(),
        result: None,
        error: Some(JsonRpcResponseError {
            code: -32600,
            message: "rejected".to_string(),
            data: None,
        }),
        id: Value::from(1),
    };
    let e = r.get_result().unwrap_err();
    assert_eq!(e.error_type, ProtocolErrorType::BadRequest);
    assert_eq!(e.description, "rejected");

    let internal = JsonRpcResponse {
        jsonrpc_version: "2.0".to_string(),
        result: None,
        error: Some(JsonRpcResponseError {
            code: -32603,
            message: "boom".to_string(),
            data: None,
        }),
        id: Value::from(1),
    };
    let e = internal.get_result().unwrap_err();
    assert_eq!(e.error_type, ProtocolErrorType::Internal);
}

#[test]
fn notification_params_split_result_xor_error() {
    let ok = JsonRpcNotificationResultParams::new(Ok(Value::from(7)));
    assert_eq!(ok.result, Some(Value::from(7)));
    assert!(ok.error.is_none());

    let e = ProtocolError::new(ProtocolErrorType::Internal, "late".to_string());
    let err = JsonRpcNotificationResultParams::new(Err(e));
    assert!(err.result.is_none());
    let inner = err.error.expect("error should be set");
    assert_eq!(inner.code, -32603);
    assert_eq!(inner.message, "late");
}

#[test]
fn notification_params_into_result() {
    let ok = JsonRpcNotificationResultParams {
        result: Some(Value::from(7)),
        error: None,
    };
    assert_eq!(ok.into_result().unwrap(), Value::from(7));

    let err = JsonRpcNotificationResultParams {
        result: None,
        error: Some(JsonRpcResponseError {
            code: -32600,
            message: "bad".to_string(),
            data: None,
        }),
    };
    let e = err.into_result().unwrap_err();
    assert_eq!(e.error_type, ProtocolErrorType::BadRequest);
    assert_eq!(e.description, "bad");

    let empty = JsonRpcNotificationResultParams { result: None, error: None };
    assert_eq!(empty.into_result().unwrap(), Value::Null);
}

#[test]
fn notification_params_to_value_shape() {
    let v = JsonRpcNotificationResultParams::new(Ok(Value::from(7))).to_value();
    assert_eq!(v.get("result"), Some(&Value::from(7)));
    assert_eq!(v.get("error"), Some(&Value::Null));

    let e = ProtocolError::new(ProtocolErrorType::Internal, "late".to_string());
    let v = JsonRpcNotificationResultParams::new(Err(e)).to_value();
    assert_eq!(v.get("result"), Some(&Value::Null));
    let err = v.get("error").expect("error key");
    assert_eq!(err.get("code"), Some(&Value::from(-32603)));
    assert_eq!(err.get("message"), Some(&Value::from("late")));
    assert_eq!(err.get("data"), Some(&Value::Null));
}

#[test]
fn notification_new_with_result_params() {
    let n = JsonRpcNotification::new_with_result_params(Ok(Value::from(1)), "9".to_string());
    assert_eq!(n.jsonrpc_version, "2.0");
    assert_eq!(n.method, "9");
    let params = n.params.expect("params should be set");
    assert_eq!(params.get("result"), Some(&Value::from(1)));
}

#[test]
fn message_discrimination() {
    // method and id present: a request; method without id: a notification;
    // no method: a response
    assert_eq!(discriminate_message(true, true), JsonRpcMessageKind::Request);
    assert_eq!(discriminate_message(true, false), JsonRpcMessageKind::Notification);
    assert_eq!(discriminate_message(false, true), JsonRpcMessageKind::Response);
    assert_eq!(discriminate_message(false, false), JsonRpcMessageKind::Response);
}

#[test]
fn message_from_variants() {
    let m: JsonRpcMessage = JsonRpcRequest::new("m".to_string(), None).into();
    assert!(matches!(m, JsonRpcMessage::Request(_)));
    let m: JsonRpcMessage = JsonRpcResponse::new(Ok(Value::Null), Value::from(1)).into();
    assert!(matches!(m, JsonRpcMessage::Response(_)));
    let m: JsonRpcMessage = JsonRpcNotification::new("1".to_string(), None).into();
    assert!(matches!(m, JsonRpcMessage::Notification(_)));
}
