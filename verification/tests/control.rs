use json_ops::decode_control;
use json_ops::AsyncArgs;
use json_ops::Category;
use json_ops::DecodeKinds;
use json_ops::OpError;
use serde_json::Value;

const KINDS: DecodeKinds = DecodeKinds { io: 10, syntax: 12, data: 13, eof: 17 };

fn parse(bytes: &[u8]) -> Value {
    serde_json::from_slice(bytes).unwrap()
}

#[test]
fn kind_of_reads_the_table() {
    assert_eq!(KINDS.kind_of(Category::Io), 10);
    assert_eq!(KINDS.kind_of(Category::Syntax), 12);
    assert_eq!(KINDS.kind_of(Category::Data), 13);
    assert_eq!(KINDS.kind_of(Category::Eof), 17);
}

#[test]
fn missing_promise_id_is_synchronous() {
    let (args, promise_id) = decode_control(b"{\"path\":\"/tmp\"}", &KINDS).unwrap();
    assert_eq!(promise_id, None);
    assert_eq!(args, parse(b"{\"path\":\"/tmp\"}"));
}

#[test]
fn null_promise_id_is_synchronous() {
    let (args, promise_id) = decode_control(b"{\"promiseId\":null,\"n\":1}", &KINDS).unwrap();
    assert_eq!(promise_id, None);
    assert_eq!(args, parse(b"{\"promiseId\":null,\"n\":1}"));
}

#[test]
fn empty_object_is_synchronous() {
    let (args, promise_id) = decode_control(b"{}", &KINDS).unwrap();
    assert_eq!(promise_id, None);
    assert_eq!(args, parse(b"{}"));
}

#[test]
fn promise_id_is_read() {
    let (args, promise_id) = decode_control(b" { \"rid\": 3, \"promiseId\": 7 } ", &KINDS).unwrap();
    assert_eq!(promise_id, Some(7));
    assert_eq!(args.get("rid"), Some(&Value::from(3u64)));
    assert_eq!(args.get("promiseId"), Some(&Value::from(7u64)));
}

#[test]
fn promise_id_zero_is_asynchronous() {
    let (_, promise_id) = decode_control(b"{\"promiseId\":0}", &KINDS).unwrap();
    assert_eq!(promise_id, Some(0));
}

#[test]
fn largest_promise_id_is_read() {
    let (_, promise_id) = decode_control(b"{\"promiseId\":18446744073709551615}", &KINDS).unwrap();
    assert_eq!(promise_id, Some(u64::MAX));
}

#[test]
fn promise_id_beyond_u64_is_rejected() {
    let err = decode_control(b"{\"promiseId\":18446744073709551616}", &KINDS).unwrap_err();
    assert_eq!(
        err,
        OpError {
            message: "invalid promiseId: expected a non-negative integer or null".to_string(),
            kind: 13,
        }
    );
}

#[test]
fn negative_promise_id_is_rejected() {
    let err = decode_control(b"{\"promiseId\":-1}", &KINDS).unwrap_err();
    assert_eq!(err.message, "invalid promiseId: expected a non-negative integer or null");
    assert_eq!(err.kind, 13);
}

#[test]
fn fractional_promise_id_is_rejected() {
    let err = decode_control(b"{\"promiseId\":7.0}", &KINDS).unwrap_err();
    assert_eq!(err.message, "invalid promiseId: expected a non-negative integer or null");
    assert_eq!(err.kind, 13);
}

#[test]
fn textual_promise_id_is_rejected() {
    let err = decode_control(b"{\"promiseId\":\"7\"}", &KINDS).unwrap_err();
    assert_eq!(err.message, "invalid promiseId: expected a non-negative integer or null");
    assert_eq!(err.kind, 13);
}

#[test]
fn boolean_promise_id_is_rejected() {
    let err = decode_control(b"{\"promiseId\":false}", &KINDS).unwrap_err();
    assert_eq!(err.kind, 13);
    assert!(!err.message.is_empty());
}

#[test]
fn control_that_is_no_object_is_rejected() {
    for control in [&b"[7]"[..], b"7", b"\"promiseId\"", b"null", b"true", b"[]"] {
        let err = decode_control(control, &KINDS).unwrap_err();
        assert_eq!(
            err,
            OpError {
                message: "invalid control buffer: expected a JSON object".to_string(),
                kind: 13,
            }
        );
    }
}

#[test]
fn text_that_is_no_json_is_a_syntax_error() {
    let err = decode_control(b"{\"promiseId\" 1}", &KINDS).unwrap_err();
    assert_eq!(err.message, "expected `:` at line 1 column 14");
    assert_eq!(err.kind, 12);
}

#[test]
fn trailing_text_is_a_syntax_error() {
    let err = decode_control(b"{} x", &KINDS).unwrap_err();
    assert_eq!(err.message, "trailing characters at line 1 column 4");
    assert_eq!(err.kind, 12);
}

#[test]
fn empty_control_is_an_eof_error() {
    let err = decode_control(b"", &KINDS).unwrap_err();
    assert_eq!(err.message, "EOF while parsing a value at line 1 column 0");
    assert_eq!(err.kind, 17);
}

#[test]
fn truncated_control_is_an_eof_error() {
    let err = decode_control(b"{\"promiseId\":7", &KINDS).unwrap_err();
    assert_eq!(err.message, "EOF while parsing an object at line 1 column 14");
    assert_eq!(err.kind, 17);
}

#[test]
fn invalid_utf8_is_reported() {
    let err = decode_control(b"{\"a\":\"\xff\"}", &KINDS).unwrap_err();
    assert!(!err.message.is_empty());
    assert_eq!(err.kind, 12);
}

#[test]
fn async_args_from_value() {
    let args = parse(b"{\"promiseId\":41,\"other\":[1,2]}");
    assert_eq!(AsyncArgs::from_value(&args, &KINDS), Ok(AsyncArgs { promise_id: Some(41) }));
    let args = parse(b"{\"other\":[1,2]}");
    assert_eq!(AsyncArgs::from_value(&args, &KINDS), Ok(AsyncArgs { promise_id: None }));
    let args = parse(b"{\"promiseId\":null}");
    assert_eq!(AsyncArgs::from_value(&args, &KINDS), Ok(AsyncArgs { promise_id: None }));
    let args = parse(b"{\"promiseid\":3}");
    assert_eq!(AsyncArgs::from_value(&args, &KINDS), Ok(AsyncArgs { promise_id: None }));
}

#[test]
fn async_args_from_value_rejects_bad_shapes() {
    let args = parse(b"[1]");
    let err = AsyncArgs::from_value(&args, &KINDS).unwrap_err();
    assert_eq!(err.message, "invalid control buffer: expected a JSON object");
    assert_eq!(err.kind, 13);
    let args = parse(b"{\"promiseId\":{}}");
    let err = AsyncArgs::from_value(&args, &KINDS).unwrap_err();
    assert_eq!(err.message, "invalid promiseId: expected a non-negative integer or null");
    assert_eq!(err.kind, 13);
}

#[test]
fn nested_promise_id_is_not_read() {
    let (_, promise_id) = decode_control(b"{\"inner\":{\"promiseId\":5}}", &KINDS).unwrap();
    assert_eq!(promise_id, None);
}

#[test]
fn decode_errors_follow_the_table() {
    let other = DecodeKinds { io: 0, syntax: 1, data: 2, eof: 3 };
    assert_eq!(decode_control(b"x", &other).unwrap_err().kind, 1);
    assert_eq!(decode_control(b"[", &other).unwrap_err().kind, 3);
    assert_eq!(decode_control(b"[]", &other).unwrap_err().kind, 2);
}
