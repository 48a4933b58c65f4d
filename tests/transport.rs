use velocity::error::{ClientError, VelocityError};
use velocity::json::JsonValue;
use velocity::transport::{reply_body, reply_done, reply_list, reply_status, reply_value, HttpReply};
use velocity::user::UUserListPOSTRes;
use velocity::group::UGroupPUTRes;

fn obj(members: Vec<(&str, JsonValue)>) -> JsonValue {
    JsonValue::Object(members.into_iter().map(|(k, v)| (k.to_string(), v)).collect())
}

fn text(s: &str) -> JsonValue {
    JsonValue::Text(s.to_string())
}

fn api_error<T: std::fmt::Debug>(r: Result<T, VelocityError>) -> (u32, String) {
    match r {
        Err(VelocityError::APIError(e)) => (e.code, e.message),
        other => panic!("expected an API error, got {:?}", other),
    }
}

fn transport_error<T: std::fmt::Debug>(r: Result<T, VelocityError>) -> String {
    match r {
        Err(VelocityError::Transport(m)) => m,
        other => panic!("expected a transport error, got {:?}", other),
    }
}

#[test]
fn bad_request_reason_is_api_error() {
    let reply = HttpReply { status: 400, body: Ok(obj(vec![("reason", text("bad gid"))])) };
    assert_eq!(api_error(reply_done(reply)), (400, "bad gid".to_string()));
}

#[test]
fn server_error_code_and_message_is_api_error() {
    let reply = HttpReply {
        status: 500,
        body: Ok(obj(vec![("code", JsonValue::Integer(500)), ("message", text("internal"))])),
    };
    assert_eq!(api_error(reply_value::<UGroupPUTRes>(reply)), (500, "internal".to_string()));
}

#[test]
fn error_code_comes_from_the_body() {
    let reply = HttpReply {
        status: 403,
        body: Ok(obj(vec![("code", JsonValue::Integer(1101)), ("message", text("no permission"))])),
    };
    assert_eq!(api_error(reply_status(reply)), (1101, "no permission".to_string()));
}

#[test]
fn bad_request_without_reason_is_transport_error() {
    let reply = HttpReply { status: 400, body: Ok(obj(vec![("message", text("x"))])) };
    assert_eq!(
        transport_error(reply_done(reply)),
        "the reply body does not have the expected form"
    );
}

#[test]
fn error_code_out_of_range_is_transport_error() {
    let reply = HttpReply {
        status: 500,
        body: Ok(obj(vec![("code", JsonValue::Integer(-1)), ("message", text("x"))])),
    };
    transport_error(reply_done(reply));
    let reply = HttpReply {
        status: 500,
        body: Ok(obj(vec![("code", JsonValue::Integer(4294967296)), ("message", text("x"))])),
    };
    transport_error(reply_done(reply));
}

#[test]
fn unreadable_body_is_transport_error() {
    let reply = HttpReply { status: 502, body: Err("expected value at line 1 column 1".to_string()) };
    assert_eq!(transport_error(reply_done(reply)), "expected value at line 1 column 1");
    let reply = HttpReply { status: 200, body: Err("EOF".to_string()) };
    assert_eq!(transport_error(reply_body(reply)), "EOF");
}

#[test]
fn success_without_payload_ignores_the_body() {
    let reply = HttpReply { status: 200, body: Err("EOF".to_string()) };
    assert_eq!(reply_status(reply).unwrap(), 200);
    let reply = HttpReply { status: 200, body: Ok(JsonValue::Null) };
    assert!(reply_done(reply).is_ok());
}

#[test]
fn success_with_wrong_shape_is_transport_error() {
    let reply = HttpReply { status: 200, body: Ok(obj(vec![("gid", text("seven"))])) };
    transport_error(reply_value::<UGroupPUTRes>(reply));
}

#[test]
fn list_reply_reads_items_under_key() {
    let users = JsonValue::Array(vec![
        obj(vec![("uid", JsonValue::Integer(0)), ("name", text("root"))]),
        obj(vec![("uid", JsonValue::Integer(7)), ("name", text("bob"))]),
    ]);
    let reply = HttpReply { status: 200, body: Ok(obj(vec![("users", users)])) };
    let list: Vec<UUserListPOSTRes> = reply_list(reply, "users").unwrap();
    assert_eq!(list.len(), 2);
    assert_eq!(list[1].uid, 7);
    assert_eq!(list[1].name, "bob");
}

#[test]
fn list_reply_with_a_bad_item_is_transport_error() {
    let users = JsonValue::Array(vec![
        obj(vec![("uid", JsonValue::Integer(0)), ("name", text("root"))]),
        obj(vec![("uid", JsonValue::Fraction), ("name", text("bob"))]),
    ]);
    let reply = HttpReply { status: 200, body: Ok(obj(vec![("users", users)])) };
    transport_error(reply_list::<UUserListPOSTRes>(reply, "users"));
    let reply = HttpReply { status: 200, body: Ok(obj(vec![("people", JsonValue::Array(vec![]))])) };
    transport_error(reply_list::<UUserListPOSTRes>(reply, "users"));
}

#[test]
fn error_descriptions() {
    let reply = HttpReply {
        status: 500,
        body: Ok(obj(vec![("code", JsonValue::Integer(500)), ("message", text("internal"))])),
    };
    let e = reply_done(reply).unwrap_err();
    assert_eq!(e.describe(), "500: internal");
    let c = VelocityError::not_authenticated();
    assert_eq!(c.describe(), "This client is not authenticated");
    assert_eq!(ClientError::NotAuthenticated.message(), "This client is not authenticated");
    assert_eq!(VelocityError::Transport("down".to_string()).describe(), "down");
}
