use json_rpc2::{
    conversion_outcome, from_reader, from_slice, from_str, from_value, request_from_parts,
    Error, Request, Response, RpcError, TextField,
};
use serde_json::Value;

#[test]
fn new_reply_generates_an_id() {
    let request = Request::new_reply("hello", None);
    assert_eq!("hello", request.method());
    let id = request.id().clone().expect("a reply expects an id");
    let n = id.as_u64().expect("the generated id is a number");
    assert!(n >= 1);
}

#[test]
fn new_notification_has_no_id() {
    let request = Request::new_notification("hello", Some(Value::from(1u64)));
    assert_eq!(&None, request.id());
    assert_eq!(&Some(Value::from(1u64)), request.params());
}

#[test]
fn matches_is_exact_string_equality() {
    let request = Request::new_notification("hello", None);
    assert!(request.matches("hello"));
    assert!(!request.matches("hell"));
    assert!(!request.matches("hello "));
}

#[test]
fn id_mut_allows_taking_the_id() {
    let mut request = Request::new(Some(Value::from(5u64)), "x".to_string(), None);
    let id = request.id_mut().take();
    assert_eq!(Some(Value::from(5u64)), id);
    assert_eq!(&None, request.id());
}

#[test]
fn params_extraction_is_one_shot() {
    let mut request = Request::new(
        Some(Value::from(2u64)),
        "greet".to_string(),
        Some(Value::String("world".to_string())),
    );
    let first: String = request.deserialize().expect("valid params convert");
    assert_eq!("world", first);
    let second: Result<String, Error> = request.deserialize();
    match second {
        Err(Error::InvalidParams { id, data }) => {
            assert_eq!(Some(Value::from(2u64)), id);
            assert_eq!("No parameters given", data);
        }
        other => panic!("expected InvalidParams, got {:?}", other),
    }
}

#[test]
fn deserialize_without_params_reports_invalid_params() {
    let mut request = Request::new(None, "greet".to_string(), None);
    let r: Result<String, Error> = request.deserialize();
    match r {
        Err(Error::InvalidParams { id, data }) => {
            assert_eq!(None, id);
            assert_eq!("No parameters given", data);
        }
        other => panic!("expected InvalidParams, got {:?}", other),
    }
}

#[test]
fn deserialize_wrong_shape_reports_invalid_params() {
    let mut request =
        Request::new(Some(Value::from(4u64)), "greet".to_string(), Some(Value::Bool(true)));
    let r: Result<String, Error> = request.deserialize();
    match r {
        Err(Error::InvalidParams { id, data }) => {
            assert_eq!(Some(Value::from(4u64)), id);
            assert_eq!("invalid type: boolean `true`, expected a string", data);
        }
        other => panic!("expected InvalidParams, got {:?}", other),
    }
    assert_eq!(&None, request.params());
}

#[test]
fn conversion_outcome_maps_failure_to_invalid_params() {
    let ok: Result<u64, Error> = conversion_outcome(Ok(3u64), None);
    assert_eq!(3u64, ok.unwrap());
    let err: Result<u64, Error> =
        conversion_outcome(Err("boom".to_string()), Some(Value::from(1u64)));
    match err {
        Err(Error::InvalidParams { id, data }) => {
            assert_eq!(Some(Value::from(1u64)), id);
            assert_eq!("boom", data);
        }
        other => panic!("expected InvalidParams, got {:?}", other),
    }
}

#[test]
fn error_taxonomy_codes_and_data() {
    let parse = Error::Parse { data: "bad".to_string() };
    let invalid = Error::InvalidRequest { data: "odd".to_string() };
    let missing = Error::MethodNotFound { id: None, name: "m".to_string() };
    let params = Error::InvalidParams { id: None, data: "shape".to_string() };
    let internal = Error::Internal { message: "oops".to_string() };

    assert_eq!(-32700, parse.code());
    assert_eq!(-32600, invalid.code());
    assert_eq!(-32601, missing.code());
    assert_eq!(-32602, params.code());
    assert_eq!(-32603, internal.code());

    assert_eq!(
        RpcError {
            code: -32700,
            message: "Parsing failed, invalid JSON data".to_string(),
            data: Some("bad".to_string()),
        },
        parse.to_rpc_error()
    );
    assert_eq!(
        RpcError {
            code: -32601,
            message: "Service method not found: m".to_string(),
            data: None,
        },
        missing.to_rpc_error()
    );
    assert_eq!(
        RpcError {
            code: -32603,
            message: "oops".to_string(),
            data: None,
        },
        internal.to_rpc_error()
    );
}

#[test]
fn from_str_parses_a_full_request() {
    let text = r#"{"jsonrpc": "2.0", "method": "greet", "id": 12, "params": ["a"]}"#;
    let request = from_str(text).expect("well-formed request parses");
    assert_eq!("greet", request.method());
    assert_eq!(&Some(Value::from(12u64)), request.id());
    assert_eq!(
        &Some(Value::Array(vec![Value::String("a".to_string())])),
        request.params()
    );
}

#[test]
fn from_str_null_id_means_notification() {
    let text = r#"{"jsonrpc": "2.0", "method": "greet", "id": null}"#;
    let request = from_str(text).expect("well-formed request parses");
    assert_eq!(&None, request.id());
    assert_eq!(&None, request.params());
}

#[test]
fn from_str_rejects_wrong_version() {
    let text = r#"{"jsonrpc": "1.0", "method": "greet"}"#;
    match from_str(text) {
        Err(Error::InvalidRequest { data }) => {
            assert_eq!("invalid value for field `jsonrpc`, expected \"2.0\"", data);
        }
        other => panic!("expected InvalidRequest, got {:?}", other),
    }
}

#[test]
fn from_str_rejects_missing_method() {
    let text = r#"{"jsonrpc": "2.0"}"#;
    match from_str(text) {
        Err(Error::InvalidRequest { data }) => {
            assert_eq!("missing field `method`", data);
        }
        other => panic!("expected InvalidRequest, got {:?}", other),
    }
}

#[test]
fn from_str_rejects_non_string_method() {
    let text = r#"{"jsonrpc": "2.0", "method": 3}"#;
    match from_str(text) {
        Err(Error::InvalidRequest { data }) => {
            assert_eq!("invalid type for field `method`, expected a string", data);
        }
        other => panic!("expected InvalidRequest, got {:?}", other),
    }
}

#[test]
fn from_str_rejects_empty_method() {
    let text = r#"{"jsonrpc": "2.0", "method": ""}"#;
    match from_str(text) {
        Err(Error::InvalidRequest { data }) => {
            assert_eq!("invalid value for field `method`, expected a non-empty string", data);
        }
        other => panic!("expected InvalidRequest, got {:?}", other),
    }
}

#[test]
fn from_str_truncated_object_is_a_parse_error() {
    match from_str(r#"{"jsonrpc": "2.0""#) {
        Err(Error::Parse { data }) => {
            assert!(!data.is_empty());
        }
        other => panic!("expected Parse, got {:?}", other),
    }
}

#[test]
fn from_slice_parses_bytes() {
    let bytes = br#"{"jsonrpc": "2.0", "method": "greet"}"#;
    let request = from_slice(bytes).expect("well-formed request parses");
    assert_eq!("greet", request.method());
}

#[test]
fn from_slice_bad_bytes_is_a_parse_error() {
    match from_slice(b"{\"jsonrpc\"") {
        Err(Error::Parse { data }) => {
            assert!(!data.is_empty());
        }
        other => panic!("expected Parse, got {:?}", other),
    }
}

#[test]
fn from_reader_parses_a_stream() {
    let bytes: &[u8] = br#"{"jsonrpc": "2.0", "method": "greet", "id": 1}"#;
    let request = from_reader(bytes).expect("well-formed request parses");
    assert_eq!("greet", request.method());
    assert_eq!(&Some(Value::from(1u64)), request.id());
}

#[test]
fn from_value_rejects_non_objects() {
    match from_value(Value::Bool(true)) {
        Err(Error::InvalidRequest { data }) => {
            assert_eq!("invalid type: expected a JSON object", data);
        }
        other => panic!("expected InvalidRequest, got {:?}", other),
    }
}

#[test]
fn from_value_accepts_an_object() {
    let mut doc = serde_json::Map::new();
    doc.insert("jsonrpc".to_string(), Value::String("2.0".to_string()));
    doc.insert("method".to_string(), Value::String("greet".to_string()));
    doc.insert("params".to_string(), Value::Null);
    let request = from_value(Value::Object(doc)).expect("well-formed request parses");
    assert_eq!("greet", request.method());
    assert_eq!(&None, request.params());
}

#[test]
fn request_from_parts_enforces_the_schema() {
    let ok = request_from_parts(
        TextField::Text("2.0".to_string()),
        TextField::Text("greet".to_string()),
        Some(Value::from(1u64)),
        None,
    )
    .expect("valid parts build a request");
    assert_eq!("greet", ok.method());
    assert_eq!(&Some(Value::from(1u64)), ok.id());

    match request_from_parts(TextField::Missing, TextField::Text("m".to_string()), None, None) {
        Err(Error::InvalidRequest { data }) => assert_eq!("missing field `jsonrpc`", data),
        other => panic!("expected InvalidRequest, got {:?}", other),
    }
    match request_from_parts(TextField::NotText, TextField::Text("m".to_string()), None, None) {
        Err(Error::InvalidRequest { data }) => {
            assert_eq!("invalid type for field `jsonrpc`, expected a string", data)
        }
        other => panic!("expected InvalidRequest, got {:?}", other),
    }
    match request_from_parts(
        TextField::Text("2.0".to_string()),
        TextField::Missing,
        None,
        None,
    ) {
        Err(Error::InvalidRequest { data }) => assert_eq!("missing field `method`", data),
        other => panic!("expected InvalidRequest, got {:?}", other),
    }
}

#[test]
fn response_constructors_set_exactly_one_outcome() {
    let request = Request::new(Some(Value::from(6u64)), "m".to_string(), None);

    let ok = Response::from_result(&request, Value::String("done".to_string()));
    assert_eq!(&Some(Value::from(6u64)), ok.id());
    assert_eq!(&Some(Value::String("done".to_string())), ok.result());
    assert_eq!(&None, ok.error());

    let err = Response::from_request_error(
        &request,
        &Error::Internal { message: "oops".to_string() },
    );
    assert_eq!(&Some(Value::from(6u64)), err.id());
    assert_eq!(&None, err.result());
    assert_eq!(-32603, err.error().as_ref().unwrap().code);

    let parse_err = Response::from_error(&Error::Parse { data: "bad".to_string() });
    assert_eq!(&None, parse_err.id());
    assert_eq!(-32700, parse_err.error().as_ref().unwrap().code);

    let bare = Response::from_value(Value::from(1u64));
    assert_eq!(&None, bare.id());
    assert_eq!(&Some(Value::from(1u64)), bare.result());
}

#[test]
fn response_into_parts_takes_it_apart() {
    let request = Request::new(Some(Value::from(8u64)), "m".to_string(), None);
    let response = Response::from_result(&request, Value::Bool(true));
    let (id, error, result) = response.into_parts();
    assert_eq!(Some(Value::from(8u64)), id);
    assert_eq!(None, error);
    assert_eq!(Some(Value::Bool(true)), result);
}

#[test]
fn from_str_rejects_a_non_object_document() {
    match from_str("[1, 2]") {
        Err(Error::InvalidRequest { data }) => {
            assert_eq!("invalid type: expected a JSON object", data);
        }
        other => panic!("expected InvalidRequest, got {:?}", other),
    }
}
