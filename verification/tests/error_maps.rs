//! The error-category maps: JSON-RPC codes, HTTP statuses, and the stdio
//! error texts.

use multilink::error::{ProtocolError, ProtocolErrorType, SerializableProtocolError};
use multilink::http::{error_type_of_status, generic_error, status_of_error_type, status_text};
use multilink::jsonrpc::JsonRpcErrorCode;
use multilink::stdio::StdioError;

#[test]
fn code_numbers() {
    assert_eq!(JsonRpcErrorCode::ParseError.code(), -32700);
    assert_eq!(JsonRpcErrorCode::InvalidRequest.code(), -32600);
    assert_eq!(JsonRpcErrorCode::MethodNotFound.code(), -32601);
    assert_eq!(JsonRpcErrorCode::InvalidParams.code(), -32602);
    assert_eq!(JsonRpcErrorCode::InternalError.code(), -32603);
}

#[test]
fn code_from_number() {
    assert_eq!(JsonRpcErrorCode::from_code(-32700), JsonRpcErrorCode::ParseError);
    assert_eq!(JsonRpcErrorCode::from_code(-32600), JsonRpcErrorCode::InvalidRequest);
    assert_eq!(JsonRpcErrorCode::from_code(-32601), JsonRpcErrorCode::MethodNotFound);
    assert_eq!(JsonRpcErrorCode::from_code(-32602), JsonRpcErrorCode::InvalidParams);
    assert_eq!(JsonRpcErrorCode::from_code(-32603), JsonRpcErrorCode::InternalError);
    assert_eq!(JsonRpcErrorCode::from_code(0), JsonRpcErrorCode::InternalError);
    assert_eq!(JsonRpcErrorCode::from_code(-32000), JsonRpcErrorCode::InternalError);
}

#[test]
fn category_to_code() {
    assert_eq!(
        JsonRpcErrorCode::from_error_type(ProtocolErrorType::BadRequest),
        JsonRpcErrorCode::InvalidRequest
    );
    assert_eq!(
        JsonRpcErrorCode::from_error_type(ProtocolErrorType::Unauthorized),
        JsonRpcErrorCode::InvalidRequest
    );
    assert_eq!(
        JsonRpcErrorCode::from_error_type(ProtocolErrorType::Internal),
        JsonRpcErrorCode::InternalError
    );
    assert_eq!(
        JsonRpcErrorCode::from_error_type(ProtocolErrorType::NotFound),
        JsonRpcErrorCode::InternalError
    );
    assert_eq!(
        JsonRpcErrorCode::from_error_type(ProtocolErrorType::HttpMethodNotAllowed),
        JsonRpcErrorCode::InternalError
    );
}

#[test]
fn code_to_category() {
    assert!(matches!(
        JsonRpcErrorCode::ParseError.to_error_type(),
        ProtocolErrorType::BadRequest
    ));
    assert!(matches!(
        JsonRpcErrorCode::InvalidRequest.to_error_type(),
        ProtocolErrorType::BadRequest
    ));
    assert!(matches!(
        JsonRpcErrorCode::MethodNotFound.to_error_type(),
        ProtocolErrorType::BadRequest
    ));
    assert!(matches!(
        JsonRpcErrorCode::InvalidParams.to_error_type(),
        ProtocolErrorType::BadRequest
    ));
    assert!(matches!(
        JsonRpcErrorCode::InternalError.to_error_type(),
        ProtocolErrorType::Internal
    ));
}

#[test]
fn jsonrpc_category_round_trip() {
    // category -> code -> category: BadRequest survives; Unauthorized
    // collapses to BadRequest; the rest collapse to Internal
    let round = |t: ProtocolErrorType| {
        JsonRpcErrorCode::from_code(JsonRpcErrorCode::from_error_type(t).code()).to_error_type()
    };
    assert!(matches!(round(ProtocolErrorType::BadRequest), ProtocolErrorType::BadRequest));
    assert!(matches!(round(ProtocolErrorType::Unauthorized), ProtocolErrorType::BadRequest));
    assert!(matches!(round(ProtocolErrorType::Internal), ProtocolErrorType::Internal));
    assert!(matches!(round(ProtocolErrorType::NotFound), ProtocolErrorType::Internal));
    assert!(matches!(
        round(ProtocolErrorType::HttpMethodNotAllowed),
        ProtocolErrorType::Internal
    ));
}

#[test]
fn status_numbers() {
    assert_eq!(status_of_error_type(ProtocolErrorType::BadRequest), 400);
    assert_eq!(status_of_error_type(ProtocolErrorType::Unauthorized), 401);
    assert_eq!(status_of_error_type(ProtocolErrorType::Internal), 500);
    assert_eq!(status_of_error_type(ProtocolErrorType::NotFound), 404);
    assert_eq!(status_of_error_type(ProtocolErrorType::HttpMethodNotAllowed), 405);
}

#[test]
fn status_round_trip() {
    for t in [
        ProtocolErrorType::BadRequest,
        ProtocolErrorType::Unauthorized,
        ProtocolErrorType::Internal,
        ProtocolErrorType::NotFound,
        ProtocolErrorType::HttpMethodNotAllowed,
    ] {
        assert_eq!(error_type_of_status(status_of_error_type(t)), t);
    }
    assert_eq!(error_type_of_status(418), ProtocolErrorType::Internal);
    assert_eq!(error_type_of_status(200), ProtocolErrorType::Internal);
}

#[test]
fn status_texts() {
    assert_eq!(status_text(ProtocolErrorType::BadRequest), "400 Bad Request");
    assert_eq!(status_text(ProtocolErrorType::Unauthorized), "401 Unauthorized");
    assert_eq!(status_text(ProtocolErrorType::Internal), "500 Internal Server Error");
    assert_eq!(status_text(ProtocolErrorType::NotFound), "404 Not Found");
    assert_eq!(status_text(ProtocolErrorType::HttpMethodNotAllowed), "405 Method Not Allowed");
}

#[test]
fn generic_error_carries_status_line() {
    let e = generic_error(ProtocolErrorType::NotFound);
    assert_eq!(e.error_type, ProtocolErrorType::NotFound);
    assert_eq!(e.error, "404 Not Found");
}

#[test]
fn protocol_error_new_and_projection() {
    let e = ProtocolError::new(ProtocolErrorType::BadRequest, "bad input".to_string());
    assert_eq!(e.error_type, ProtocolErrorType::BadRequest);
    assert_eq!(e.error, "bad input");
    let s: SerializableProtocolError = e.into();
    assert_eq!(s.error_type, ProtocolErrorType::BadRequest);
    assert_eq!(s.description, "bad input");
    let back: ProtocolError = s.into();
    assert_eq!(back.error_type, ProtocolErrorType::BadRequest);
    assert_eq!(back.error, "bad input");
}

#[test]
fn stdio_error_categories_and_texts() {
    assert_eq!(
        StdioError::SendRequestCommTask.message(),
        "unable to send stdio request to comm task"
    );
    assert_eq!(StdioError::Timeout.message(), "request timed out");
    assert_eq!(
        StdioError::RecvResponseCommTask.message(),
        "unable to recv response for stdio request from comm task"
    );
    assert_eq!(
        StdioError::ClientRequestUnsupported.message(),
        "client does not support serving requests"
    );
    let timeout = StdioError::Timeout.to_protocol_error();
    assert_eq!(timeout.error_type, ProtocolErrorType::Internal);
    assert_eq!(timeout.error, "request timed out");
    let unsupported = StdioError::ClientRequestUnsupported.to_protocol_error();
    assert_eq!(unsupported.error_type, ProtocolErrorType::BadRequest);
}
