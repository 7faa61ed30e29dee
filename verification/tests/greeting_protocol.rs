//! A small greeting protocol driven end to end at the message level: the
//! client's single call and streaming call over the stdio wire shapes.

use multilink::correlation::{ClientCorrelation, NotificationRouting};
use multilink::error::ProtocolError;
use multilink::jsonrpc::{
    discriminate_message, JsonRpcMessage, JsonRpcMessageKind, JsonRpcNotification,
    JsonRpcRequest, JsonRpcResponse,
};
use multilink::stdio::{
    assign_request_id, frame_line, numeric_id, parse_stream_id, RequestJsonRpcConvert,
    ResponseJsonRpcConvert,
};
use serde_json::Value;

#[derive(Clone, Debug, PartialEq)]
enum GreetingRequest {
    SayHello { name: String },
    SayHelloStream { name: String },
}

#[derive(Clone, Debug, PartialEq)]
enum GreetingResponse {
    Hello(String),
    HelloChunk(String),
}

fn name_params(name: &str) -> Value {
    let mut map = serde_json::Map::new();
    map.insert("name".to_string(), Value::from(name));
    Value::Object(map)
}

impl RequestJsonRpcConvert<GreetingRequest> for GreetingRequest {
    fn from_jsonrpc_request(
        value: JsonRpcRequest,
    ) -> Result<Option<GreetingRequest>, ProtocolError> {
        let name = value
            .params
            .as_ref()
            .and_then(|p| p.get("name"))
            .and_then(|n| n.as_str())
            .unwrap_or_default()
            .to_string();
        match value.method.as_str() {
            "sayHello" => Ok(Some(GreetingRequest::SayHello { name })),
            "sayHelloStream" => Ok(Some(GreetingRequest::SayHelloStream { name })),
            _ => Ok(None),
        }
    }

    fn into_jsonrpc_request(&self) -> JsonRpcRequest {
        match self {
            GreetingRequest::SayHello { name } => {
                JsonRpcRequest::new("sayHello".to_string(), Some(name_params(name)))
            }
            GreetingRequest::SayHelloStream { name } => {
                JsonRpcRequest::new("sayHelloStream".to_string(), Some(name_params(name)))
            }
        }
    }
}

impl ResponseJsonRpcConvert<GreetingRequest, GreetingResponse> for GreetingResponse {
    fn from_jsonrpc_message(
        value: JsonRpcMessage,
        original_request: &GreetingRequest,
    ) -> Result<Option<GreetingResponse>, ProtocolError> {
        match value {
            JsonRpcMessage::Response(response) => {
                let result = response.get_result().map_err(ProtocolError::from)?;
                match original_request {
                    GreetingRequest::SayHello { .. } => Ok(result
                        .get("result")
                        .and_then(|r| r.as_str())
                        .map(|s| GreetingResponse::Hello(s.to_string()))),
                    _ => Ok(None),
                }
            }
            JsonRpcMessage::Notification(notification) => Ok(notification
                .params
                .as_ref()
                .and_then(|p| p.get("result"))
                .and_then(|r| r.get("character"))
                .and_then(|c| c.as_str())
                .map(|s| GreetingResponse::HelloChunk(s.to_string()))),
            JsonRpcMessage::Request(_) => Ok(None),
        }
    }

    fn into_jsonrpc_message(response: GreetingResponse, id: Value) -> JsonRpcMessage {
        match response {
            GreetingResponse::Hello(text) => {
                let mut map = serde_json::Map::new();
                map.insert("result".to_string(), Value::from(text));
                JsonRpcMessage::Response(JsonRpcResponse::new(Ok(Value::Object(map)), id))
            }
            GreetingResponse::HelloChunk(c) => {
                let mut inner = serde_json::Map::new();
                inner.insert("character".to_string(), Value::from(c));
                let mut map = serde_json::Map::new();
                map.insert("result".to_string(), Value::Object(inner));
                JsonRpcMessage::Notification(JsonRpcNotification::new(
                    id.as_u64().unwrap_or_default().to_string(),
                    Some(Value::Object(map)),
                ))
            }
        }
    }
}

/// What the transport around the library does before writing: the wire
/// object of a request.
fn encode_request(r: &JsonRpcRequest) -> Value {
    let mut map = serde_json::Map::new();
    map.insert("jsonrpc".to_string(), Value::from(r.jsonrpc_version.clone()));
    map.insert("method".to_string(), Value::from(r.method.clone()));
    map.insert(
        "params".to_string(),
        r.params.clone().unwrap_or(Value::Null),
    );
    map.insert("id".to_string(), r.id.clone());
    Value::Object(map)
}

/// What the transport does after reading: the library's view of a response
/// object.
fn decode_response(v: &Value) -> JsonRpcResponse {
    JsonRpcResponse {
        jsonrpc_version: v
            .get("jsonrpc")
            .and_then(|j| j.as_str())
            .unwrap_or_default()
            .to_string(),
        result: v.get("result").cloned(),
        error: None,
        id: v.get("id").cloned().unwrap_or(Value::Null),
    }
}

/// The library's view of a notification object.
fn decode_notification(v: &Value) -> JsonRpcNotification {
    let params = match v.get("params") {
        None => None,
        Some(Value::Null) => None,
        Some(p) => Some(p.clone()),
    };
    JsonRpcNotification {
        jsonrpc_version: v
            .get("jsonrpc")
            .and_then(|j| j.as_str())
            .unwrap_or_default()
            .to_string(),
        method: v
            .get("method")
            .and_then(|m| m.as_str())
            .unwrap_or_default()
            .to_string(),
        params,
    }
}

#[test]
fn single_call_over_the_stdio_wire() {
    let request = GreetingRequest::SayHello { name: "Bob".to_string() };
    let mut engine: ClientCorrelation<GreetingRequest> = ClientCorrelation::new();

    // outgoing: convert, assign id 1, frame
    let mut jsonrpc_request = request.into_jsonrpc_request();
    let id = engine.submit(request.clone());
    assert_eq!(id, 1);
    assign_request_id(&mut jsonrpc_request, id);
    let wire = encode_request(&jsonrpc_request);
    let expected: Value = serde_json::from_str(
        "{\"jsonrpc\":\"2.0\",\"method\":\"sayHello\",\"params\":{\"name\":\"Bob\"},\"id\":1}",
    )
    .unwrap();
    assert_eq!(wire, expected);
    let line = frame_line(serde_json::to_string(&wire).unwrap());
    assert!(line.ends_with('\n'));

    // incoming: the child's reply with the same id
    let reply: Value = serde_json::from_str(
        "{\"jsonrpc\":\"2.0\",\"result\":{\"result\":\"Hello, Bob!\"},\"id\":1}",
    )
    .unwrap();
    let kind = discriminate_message(reply.get("method").is_some(), reply.get("id").is_some());
    assert_eq!(kind, JsonRpcMessageKind::Response);
    let response = decode_response(&reply);
    let rid = numeric_id(&response.id);
    let original = engine.route_response(rid).expect("the call should be pending");
    assert_eq!(original, request);
    let converted =
        GreetingResponse::from_jsonrpc_message(JsonRpcMessage::Response(response), &original)
            .unwrap();
    assert_eq!(converted, Some(GreetingResponse::Hello("Hello, Bob!".to_string())));
}

#[test]
fn streaming_call_over_the_stdio_wire() {
    let request = GreetingRequest::SayHelloStream { name: "Bo".to_string() };
    let mut engine: ClientCorrelation<GreetingRequest> = ClientCorrelation::new();

    let mut jsonrpc_request = request.into_jsonrpc_request();
    let id = engine.submit(request.clone());
    assert_eq!(id, 1);
    assign_request_id(&mut jsonrpc_request, id);

    // the child streams two items and then the sentinel
    let lines = [
        "{\"jsonrpc\":\"2.0\",\"method\":\"1\",\"params\":{\"result\":{\"character\":\"H\"}}}",
        "{\"jsonrpc\":\"2.0\",\"method\":\"1\",\"params\":{\"result\":{\"character\":\"i\"}}}",
        "{\"jsonrpc\":\"2.0\",\"method\":\"1\",\"params\":null}",
    ];
    let mut delivered: Vec<GreetingResponse> = Vec::new();
    let mut closed = false;
    for line in lines {
        let v: Value = serde_json::from_str(line).unwrap();
        let kind = discriminate_message(v.get("method").is_some(), v.get("id").is_some());
        assert_eq!(kind, JsonRpcMessageKind::Notification);
        let notification = decode_notification(&v);
        let nid = parse_stream_id(&notification.method);
        assert_eq!(nid, 1);
        let has_params = notification.params.is_some();
        match engine.route_notification(nid, has_params) {
            NotificationRouting::OpenAndForward | NotificationRouting::Forward => {
                let original = engine.stream_request(nid).expect("stream should be open");
                let item = GreetingResponse::from_jsonrpc_message(
                    JsonRpcMessage::Notification(notification),
                    original,
                )
                .unwrap()
                .expect("the item should convert");
                delivered.push(item);
            }
            NotificationRouting::Close => closed = true,
            other => panic!("unexpected routing: {:?}", other),
        }
    }
    assert!(closed);
    assert_eq!(
        delivered,
        vec![
            GreetingResponse::HelloChunk("H".to_string()),
            GreetingResponse::HelloChunk("i".to_string()),
        ]
    );
    // the stream is gone: later notifications for the id are ignored
    assert!(matches!(engine.route_notification(1, true), NotificationRouting::Ignore));
}
