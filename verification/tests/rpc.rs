use novelsaga::bridge::error::BridgeError;
use novelsaga::bridge::rpc::client::RpcClient;
use novelsaga::bridge::rpc::error_codes;
use novelsaga::bridge::rpc::types::{
    lookup, write_request_object, Member, RequestId, RpcError, RpcRequest, RpcResponse,
};
use novelsaga::bridge::transport::stdio::{classify_line, LineVerdict};
use novelsaga::bridge::transport::Transport;
use novelsaga::json::{Json, JsonShape};

/// A transport that answers every request with the next of its lines, and
/// keeps what was sent. `{id}` in a line stands for the identifier of the
/// request.
struct ScriptedTransport {
    replies: Vec<String>,
    sent: Vec<String>,
    sent_ids: Vec<RequestId>,
    last_id: String,
    closed: bool,
}

impl ScriptedTransport {
    fn new(replies: &[&str]) -> Self {
        ScriptedTransport {
            replies: replies.iter().rev().map(|r| r.to_string()).collect(),
            sent: Vec::new(),
            sent_ids: Vec::new(),
            last_id: String::new(),
            closed: false,
        }
    }
}

impl Transport for ScriptedTransport {
    fn send(&mut self, message: &RpcRequest) -> Result<(), BridgeError> {
        if self.closed {
            return Err(BridgeError::TransportClosed);
        }
        self.sent.push(message.to_json_string().map_err(|e| BridgeError::JsonParseError(e.message))?);
        self.sent_ids.push(message.id.clone());
        self.last_id = message.id.label();
        Ok(())
    }

    fn receive(&mut self) -> Result<RpcResponse, BridgeError> {
        let line = self.replies.pop().ok_or(BridgeError::TransportClosed)?;
        match classify_line(&line.replace("{id}", &self.last_id)) {
            LineVerdict::Response(r) => Ok(r),
            LineVerdict::Malformed(e) => Err(BridgeError::JsonParseError(e.message)),
            _ => Err(BridgeError::TransportClosed),
        }
    }

    fn close(&mut self) -> Result<(), BridgeError> {
        self.closed = true;
        Ok(())
    }

    fn is_closed(&self) -> bool {
        self.closed
    }
}

#[test]
fn test_rpc_request_creation() {
    let req = RpcRequest::new(RequestId::Number(1), "config.get", Json::empty_object());
    assert_eq!(req.jsonrpc, "2.0");
    assert_eq!(req.id, RequestId::Number(1));
    assert_eq!(req.method, "config.get");
}

#[test]
fn test_rpc_request_serialization() {
    let req = RpcRequest::new(RequestId::Number(1), "config.get", Json::empty_object());
    let json_str = req.to_json_string().unwrap();
    assert!(json_str.contains("\"jsonrpc\":\"2.0\""));
    assert!(json_str.contains("\"method\":\"config.get\""));
}

#[test]
fn test_parse_success_response() {
    let json = r#"{"jsonrpc":"2.0","id":1,"result":{"foo":"bar"}}"#;
    let response = RpcResponse::from_json_str(json).unwrap();
    assert!(response.is_success());
    assert_eq!(response.id(), &RequestId::Number(1));
}

#[test]
fn test_parse_error_response() {
    let json = r#"{"jsonrpc":"2.0","id":1,"error":{"code":-32600,"message":"Invalid Request"}}"#;
    let response = RpcResponse::from_json_str(json).unwrap();
    assert!(response.is_error());
    if let RpcResponse::Error(err_resp) = response {
        assert_eq!(err_resp.error.code, error_codes::INVALID_REQUEST);
        assert_eq!(err_resp.error.message, "Invalid Request");
    }
}

#[test]
fn request_line_is_exact() {
    let req = RpcRequest::new(RequestId::Number(7), "config.get", Json::parse("{ \"a\" : [1, 2] }").unwrap());
    assert_eq!(
        req.to_json_string().unwrap(),
        r#"{"jsonrpc":"2.0","id":7,"method":"config.get","params":{"a":[1,2]}}"#
    );
    let req = RpcRequest::new(RequestId::Text("a\"b".to_string()), "say \"hi\"\n", Json::null());
    assert_eq!(
        req.to_json_string().unwrap(),
        r#"{"jsonrpc":"2.0","id":"a\"b","method":"say \"hi\"\n","params":null}"#
    );
    let req = RpcRequest::new(RequestId::Null, "m", Json::empty_object());
    assert_eq!(req.to_json_string().unwrap(), r#"{"jsonrpc":"2.0","id":null,"method":"m","params":{}}"#);
    let req = RpcRequest::new(RequestId::Number(-12), "m", Json::empty_object());
    assert_eq!(req.to_json_string().unwrap(), r#"{"jsonrpc":"2.0","id":-12,"method":"m","params":{}}"#);
}

#[test]
fn request_round_trip_recovers_the_id() {
    for id in [
        RequestId::Number(1),
        RequestId::Number(0),
        RequestId::Number(18446744073709551615),
        RequestId::Number(-9223372036854775808),
        RequestId::Text("abc".to_string()),
        RequestId::Text("quote \" and \\ and \u{4f60}".to_string()),
        RequestId::Null,
    ] {
        let line = RpcRequest::new(id.clone(), "config.get", Json::empty_object()).to_json_string().unwrap();
        assert!(!line.contains('\n'));
        let parsed = Json::parse(&line).unwrap();
        let back = RequestId::from_json(&parsed.get("id").unwrap()).unwrap();
        assert_eq!(back, id);
        assert_eq!(parsed.get("method").unwrap().as_str(), "\"config.get\"");
        assert_eq!(parsed.get("params").unwrap().as_str(), "{}");
        // The same line with a result in place of the method is a success
        // with that id, and only a success.
        let reply = line.replace("\"method\":\"config.get\"", "\"result\":true");
        let response = RpcResponse::from_json_str(&reply).unwrap();
        assert!(response.is_success());
        assert!(!response.is_error());
        assert_eq!(response.id(), &id);
    }
}

#[test]
fn a_response_is_a_success_or_an_error_never_both() {
    let lines = [
        r#"{"jsonrpc":"2.0","id":1,"result":null}"#,
        r#"{"jsonrpc":"2.0","id":"x","result":{"a":1}}"#,
        r#"{"jsonrpc":"2.0","id":null,"error":{"code":-32700,"message":"Parse error"}}"#,
        r#"{"jsonrpc":"2.0","id":3,"error":{"code":1,"message":"m","data":[1]},"extra":true}"#,
        r#"{"jsonrpc":"2.0","id":4,"result":1,"error":{"code":1,"message":"both"}}"#,
    ];
    for line in lines {
        let response = RpcResponse::from_json_str(line).unwrap();
        assert_ne!(response.is_success(), response.is_error());
    }
    // With both members the result wins.
    assert!(RpcResponse::from_json_str(lines[4]).unwrap().is_success());
}

#[test]
fn error_response_keeps_code_message_and_data() {
    let line = r#"{"jsonrpc":"2.0","id":9,"error":{"code":-32001,"message":"no such service","data":{"service":"x"}}}"#;
    match RpcResponse::from_json_str(line).unwrap() {
        RpcResponse::Error(e) => {
            assert_eq!(e.jsonrpc, "2.0");
            assert_eq!(e.id, RequestId::Number(9));
            assert_eq!(e.error.code, error_codes::SERVICE_NOT_FOUND);
            assert_eq!(e.error.message, "no such service");
            assert_eq!(e.error.data.unwrap().as_str(), r#"{"service":"x"}"#);
        }
        other => panic!("unexpected: {:?}", other),
    }
    let line = r#"{"jsonrpc":"2.0","id":9,"error":{"code":2147483647,"message":"","data":null}}"#;
    match RpcResponse::from_json_str(line).unwrap() {
        RpcResponse::Error(e) => {
            assert_eq!(e.error.code, 2147483647);
            assert!(e.error.data.is_none());
        }
        other => panic!("unexpected: {:?}", other),
    }
    let line = r#"{"jsonrpc":"2.0","id":9,"error":{"code":-2147483648,"message":"low"}}"#;
    match RpcResponse::from_json_str(line).unwrap() {
        RpcResponse::Error(e) => assert_eq!(e.error.code, -2147483648),
        other => panic!("unexpected: {:?}", other),
    }
}

#[test]
fn lines_that_are_no_response_are_refused() {
    let lines = [
        "",
        "{",
        "[1,2]",
        "null",
        r#"{"id":1,"result":1}"#,
        r#"{"jsonrpc":"2.0","result":1}"#,
        r#"{"jsonrpc":2,"id":1,"result":1}"#,
        r#"{"jsonrpc":"2.0","id":1}"#,
        r#"{"jsonrpc":"2.0","id":1.5,"result":1}"#,
        r#"{"jsonrpc":"2.0","id":true,"result":1}"#,
        r#"{"jsonrpc":"2.0","id":[1],"result":1}"#,
        r#"{"jsonrpc":"2.0","id":1,"error":"boom"}"#,
        r#"{"jsonrpc":"2.0","id":1,"error":{"message":"no code"}}"#,
        r#"{"jsonrpc":"2.0","id":1,"error":{"code":1}}"#,
        r#"{"jsonrpc":"2.0","id":1,"error":{"code":1.5,"message":"m"}}"#,
        r#"{"jsonrpc":"2.0","id":1,"error":{"code":2147483648,"message":"m"}}"#,
        r#"{"jsonrpc":"2.0","id":1,"error":{"code":-2147483649,"message":"m"}}"#,
        r#"{"jsonrpc":"2.0","id":1,"error":{"code":"1","message":"m"}}"#,
        r#"{"jsonrpc":"2.0","id":1,"error":{"code":1,"message":2}}"#,
    ];
    for line in lines {
        assert!(RpcResponse::from_json_str(line).is_err(), "{}", line);
    }
    let e = RpcResponse::from_json_str("{").unwrap_err();
    assert!(e.message.contains("EOF"), "{}", e.message);
}

#[test]
fn rpc_error_from_json() {
    let e = RpcError::from_json(&Json::parse(r#"{"code": 5, "message": "five"}"#).unwrap()).unwrap();
    assert_eq!(e.code, 5);
    assert_eq!(e.message, "five");
    assert!(e.data.is_none());
    assert!(RpcError::from_json(&Json::parse("[]").unwrap()).is_none());
}

#[test]
fn request_ids_count_up_from_one() {
    let mut client = RpcClient::new(ScriptedTransport::new(&[]));
    for n in 1..=5 {
        let request = client.begin_call("config.get", Json::empty_object());
        assert_eq!(request.id, RequestId::Number(n));
        assert_eq!(request.jsonrpc, "2.0");
        assert_eq!(request.method, "config.get");
        assert_eq!(request.params.as_str(), "{}");
    }
}

#[test]
fn calls_are_matched_by_id() {
    let reply = r#"{"jsonrpc":"2.0","id":{id},"result":{"n":{id}}}"#;
    let mut client = RpcClient::new(ScriptedTransport::new(&[reply, reply, reply]));
    for n in 1..=3 {
        let result = client.call("config.get", Json::empty_object()).unwrap();
        assert_eq!(result.as_str(), format!("{{\"n\":{}}}", n));
    }
    // The stream has ended: the call fails, and still takes its id.
    assert!(matches!(client.call("config.get", Json::empty_object()), Err(BridgeError::TransportClosed)));
    let request = client.begin_call("m", Json::null());
    assert_eq!(request.id, RequestId::Number(5));
}

#[test]
fn a_response_to_another_request_is_an_error() {
    let mut client = RpcClient::new(ScriptedTransport::new(&[r#"{"jsonrpc":"2.0","id":2,"result":1}"#]));
    match client.call("config.get", Json::empty_object()) {
        Err(BridgeError::InvalidResponseId { expected, actual }) => {
            assert_eq!(expected, RequestId::Number(1));
            assert_eq!(actual, RequestId::Number(2));
        }
        other => panic!("unexpected: {:?}", other),
    }
    let mut client = RpcClient::new(ScriptedTransport::new(&[r#"{"jsonrpc":"2.0","id":"1","result":1}"#]));
    match client.call("config.get", Json::empty_object()) {
        Err(e @ BridgeError::InvalidResponseId { .. }) => {
            assert_eq!(e.message(), "Invalid response: expected id 1, got \"1\"");
        }
        other => panic!("unexpected: {:?}", other),
    }
}

#[test]
fn an_error_of_the_peer_is_handed_on() {
    let reply = r#"{"jsonrpc":"2.0","id":1,"error":{"code":-32601,"message":"Method not found","data":"x"}}"#;
    let mut client = RpcClient::new(ScriptedTransport::new(&[reply]));
    match client.call("nope", Json::empty_object()) {
        Err(BridgeError::RpcError { code, message, data }) => {
            assert_eq!(code, error_codes::METHOD_NOT_FOUND);
            assert_eq!(message, "Method not found");
            assert_eq!(data.unwrap().as_str(), "\"x\"");
        }
        other => panic!("unexpected: {:?}", other),
    }
}

#[test]
fn resolve_for_each_kind_of_response() {
    let success = RpcResponse::from_json_str(r#"{"jsonrpc":"2.0","id":4,"result":[1]}"#).unwrap();
    let r = RpcClient::<ScriptedTransport>::resolve(&RequestId::Number(4), success);
    assert_eq!(r.unwrap().as_str(), "[1]");
    let success = RpcResponse::from_json_str(r#"{"jsonrpc":"2.0","id":4,"result":[1]}"#).unwrap();
    let r = RpcClient::<ScriptedTransport>::resolve(&RequestId::Text("4".to_string()), success);
    assert!(matches!(r, Err(BridgeError::InvalidResponseId { .. })));
    // A wrong id counts before the kind of the response.
    let error = RpcResponse::from_json_str(r#"{"jsonrpc":"2.0","id":5,"error":{"code":1,"message":"m"}}"#).unwrap();
    let r = RpcClient::<ScriptedTransport>::resolve(&RequestId::Number(4), error);
    assert!(matches!(r, Err(BridgeError::InvalidResponseId { .. })));
}

#[test]
fn client_timeout_and_close() {
    let client = RpcClient::new(ScriptedTransport::new(&[]));
    assert_eq!(client.timeout_ms(), 30_000);
    let client = client.with_timeout(1_500);
    assert_eq!(client.timeout_ms(), 1_500);
    assert!(!client.is_closed());
    client.close().unwrap();
}

#[test]
fn error_codes_of_the_protocol() {
    assert_eq!(error_codes::PARSE_ERROR, -32700);
    assert_eq!(error_codes::INVALID_REQUEST, -32600);
    assert_eq!(error_codes::METHOD_NOT_FOUND, -32601);
    assert_eq!(error_codes::INVALID_PARAMS, -32602);
    assert_eq!(error_codes::INTERNAL_ERROR, -32603);
    assert_eq!(error_codes::SERVICE_NOT_FOUND, -32001);
    assert_eq!(error_codes::SERVICE_ERROR, -32002);
    assert_eq!(error_codes::TIMEOUT_ERROR, -32003);
}

#[test]
fn error_messages() {
    assert_eq!(BridgeError::JsonParseError("bad".to_string()).message(), "JSON parse error: bad");
    let e = BridgeError::RpcError { code: -32600, message: "Invalid Request".to_string(), data: None };
    assert_eq!(e.message(), "RPC error: code=-32600, message=Invalid Request");
    let e = BridgeError::RpcError { code: i32::MIN, message: String::new(), data: None };
    assert_eq!(e.message(), "RPC error: code=-2147483648, message=");
    let e = BridgeError::IoError { context: "ctx".to_string(), source: "cause".to_string() };
    assert_eq!(e.message(), "ctx\n\nCause: cause");
    assert_eq!(BridgeError::from_io("cause".to_string()).message(), "IO operation failed\n\nCause: cause");
    assert_eq!(BridgeError::TransportClosed.message(), "Transport closed");
    assert_eq!(BridgeError::Timeout(30_000).message(), "Request timeout after 30s");
    assert_eq!(BridgeError::Timeout(1_500).message(), "Request timeout after 1.5s");
    assert_eq!(BridgeError::Timeout(100).message(), "Request timeout after 100ms");
    assert_eq!(BridgeError::Timeout(0).message(), "Request timeout after 0ns");
    let e = BridgeError::InvalidResponseId { expected: RequestId::Number(1), actual: RequestId::Null };
    assert_eq!(e.message(), "Invalid response: expected id 1, got null");
    assert_eq!(BridgeError::NotInitialized.message(), "Bridge not initialized");
    let e = BridgeError::BridgeNotFound { name: "cfg".to_string(), suggestion: "register it".to_string() };
    assert_eq!(e.message(), "Bridge not found: cfg\n\nregister it");
    let e = BridgeError::RuntimeNotFound {
        runtime_type: "Deno".to_string(),
        searched_paths: "  - $PATH".to_string(),
        suggestion: "install".to_string(),
    };
    assert_eq!(e.message(), "Runtime not found: Deno\n\nSearched paths:\n  - $PATH\n\nSuggestion:\ninstall");
    assert_eq!(BridgeError::Other("x".to_string()).message(), "x");
}

fn part(text: &str) -> Option<Member> {
    let shape = novelsaga::json::inspect(text).ok().map(|d| d.shape);
    Some(Member { text: Json { text: text.to_string() }, shape })
}

#[test]
fn identifiers_from_the_form_of_a_document() {
    assert_eq!(RequestId::from_shape(JsonShape::Null), Some(RequestId::Null));
    assert_eq!(RequestId::from_shape(JsonShape::Text("7".to_string())), Some(RequestId::Text("7".to_string())));
    assert_eq!(RequestId::from_shape(JsonShape::Number("7".to_string())), Some(RequestId::Number(7)));
    assert_eq!(RequestId::from_shape(JsonShape::Number("-7".to_string())), Some(RequestId::Number(-7)));
    assert_eq!(
        RequestId::from_shape(JsonShape::Number("18446744073709551615".to_string())),
        Some(RequestId::Number(18446744073709551615))
    );
    assert_eq!(RequestId::from_shape(JsonShape::Number("18446744073709551616".to_string())), None);
    assert_eq!(RequestId::from_shape(JsonShape::Number("-9223372036854775809".to_string())), None);
    assert_eq!(RequestId::from_shape(JsonShape::Number("1.0".to_string())), None);
    assert_eq!(RequestId::from_shape(JsonShape::Number("1e2".to_string())), None);
    assert_eq!(RequestId::from_shape(JsonShape::Bool(false)), None);
    assert_eq!(RequestId::from_shape(JsonShape::Array(Vec::new())), None);
    assert_eq!(RequestId::from_shape(JsonShape::Object(Vec::new())), None);
    assert!(RequestId::Number(1).same_as(&RequestId::Number(1)));
    assert!(!RequestId::Number(1).same_as(&RequestId::Text("1".to_string())));
    assert!(!RequestId::Null.same_as(&RequestId::Number(0)));
    assert!(RequestId::Text("a".to_string()).same_as(&RequestId::Text("a".to_string()).duplicate()));
    assert_eq!(RequestId::Text("a b".to_string()).label(), "\"a b\"");
    assert_eq!(RequestId::Number(-3).to_json().unwrap().as_str(), "-3");
    assert_eq!(RequestId::Text("a\"b".to_string()).to_json().unwrap().as_str(), "\"a\\\"b\"");
}

#[test]
fn responses_from_their_members() {
    let r = RpcResponse::from_parts(part("\"2.0\""), part("1"), Some(Json::null()), None).unwrap();
    assert!(r.is_success());
    // A result wins over an error.
    let error = RpcError { code: 1, message: "m".to_string(), data: None };
    let r = RpcResponse::from_parts(part("\"2.0\""), part("1"), Some(Json::null()), Some(error)).unwrap();
    assert!(r.is_success());
    let error = RpcError { code: 1, message: "m".to_string(), data: None };
    let r = RpcResponse::from_parts(part("\"2.0\""), part("\"x\""), None, Some(error)).unwrap();
    assert!(r.is_error());
    assert_eq!(r.id(), &RequestId::Text("x".to_string()));
    assert!(RpcResponse::from_parts(part("\"2.0\""), part("1"), None, None).is_none());
    assert!(RpcResponse::from_parts(None, part("1"), Some(Json::null()), None).is_none());
    assert!(RpcResponse::from_parts(part("2.0"), part("1"), Some(Json::null()), None).is_none());
    assert!(RpcResponse::from_parts(part("\"2.0\""), None, Some(Json::null()), None).is_none());
    assert!(RpcResponse::from_parts(part("\"2.0\""), part("[]"), Some(Json::null()), None).is_none());

    let e = RpcError::from_parts(part("-5"), part("\"five\""), part("{\"a\":1}")).unwrap();
    assert_eq!(e.code, -5);
    assert_eq!(e.message, "five");
    assert_eq!(e.data.unwrap().as_str(), "{\"a\":1}");
    assert!(RpcError::from_parts(part("-5"), part("\"five\""), part("null")).unwrap().data.is_none());
    assert!(RpcError::from_parts(part("-5"), part("\"five\""), None).unwrap().data.is_none());
    assert!(RpcError::from_parts(None, part("\"five\""), None).is_none());
    assert!(RpcError::from_parts(part("-5"), None, None).is_none());
    assert!(RpcError::from_parts(part("\"-5\""), part("\"five\""), None).is_none());
    assert!(RpcError::from_parts(part("5"), part("5"), None).is_none());
}

#[test]
fn members_are_looked_up_with_their_form() {
    let members = match novelsaga::json::inspect(r#"{"a":[1],"b":"x"}"#).unwrap().shape {
        JsonShape::Object(members) => members,
        other => panic!("unexpected: {:?}", other),
    };
    let a = lookup(&members, "a").unwrap();
    assert_eq!(a.text.as_str(), "[1]");
    assert!(matches!(a.shape, Some(JsonShape::Array(_))));
    let b = lookup(&members, "b").unwrap();
    assert!(matches!(b.shape, Some(JsonShape::Text(ref s)) if s == "x"));
    assert!(lookup(&members, "c").is_none());
}

#[test]
fn request_object_from_its_members() {
    let text = |t: &str| Json { text: t.to_string() };
    assert_eq!(
        write_request_object(&text("\"2.0\""), &text("1"), &text("\"m\""), &text("[]")),
        r#"{"jsonrpc":"2.0","id":1,"method":"m","params":[]}"#
    );
}

#[test]
fn the_counter_of_a_client_can_be_read() {
    let mut client = RpcClient::new(ScriptedTransport::new(&[]));
    assert_eq!(client.next_id(), 1);
    let _ = client.begin_call("m", Json::null());
    assert_eq!(client.next_id(), 2);
    let _ = client.call("m", Json::null());
    assert_eq!(client.next_id(), 3);
}

#[test]
fn a_request_that_is_written_can_be_read_back() {
    let params = [r#"{}"#, r#"[]"#, r#"{"a":[1,2.5,"x\ny"],"b":{"c":null}}"#, r#"[true,false]"#];
    let ids = [
        RequestId::Number(1),
        RequestId::Number(18446744073709551615),
        RequestId::Number(-7),
        RequestId::Text("id \"7\"\n".to_string()),
        RequestId::Null,
    ];
    for id in &ids {
        for text in params {
            let request = RpcRequest::new(id.clone(), "config.get\tnow", Json::parse(text).unwrap());
            let line = request.to_json_string().unwrap();
            assert!(!line.contains('\n'), "{}", line);
            let back = RpcRequest::from_json_str(&line).unwrap();
            assert_eq!(back.jsonrpc, "2.0");
            assert_eq!(&back.id, id);
            assert_eq!(back.method, "config.get\tnow");
            assert_eq!(back.params.as_str(), request.params.as_str());
        }
    }
    for line in ["", "[]", "{}", r#"{"jsonrpc":"2.0","id":1,"method":"m"}"#, r#"{"jsonrpc":"2.0","id":1,"params":[]}"#,
        r#"{"jsonrpc":"2.0","method":"m","params":[]}"#, r#"{"id":1,"method":"m","params":[]}"#,
        r#"{"jsonrpc":"2.0","id":1,"method":2,"params":[]}"#, r#"{"jsonrpc":"2.0","id":1.5,"method":"m","params":[]}"#]
    {
        assert!(RpcRequest::from_json_str(line).is_err(), "{}", line);
    }
    let request = RpcRequest::from_parts(part("\"2.0\""), part("3"), part("\"m\""), Some(Json::null())).unwrap();
    assert_eq!(request.id, RequestId::Number(3));
    assert!(RpcRequest::from_parts(part("\"2.0\""), part("3"), part("\"m\""), None).is_none());
}
