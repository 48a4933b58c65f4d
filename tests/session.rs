use velocity::error::{ClientError, VelocityError};
use velocity::json::JsonValue;
use velocity::session::{Authkey, Velocity};
use velocity::transport::{HttpReply, Method, Request};

fn obj(members: Vec<(&str, JsonValue)>) -> JsonValue {
    JsonValue::Object(members.into_iter().map(|(k, v)| (k.to_string(), v)).collect())
}

fn text(s: &str) -> JsonValue {
    JsonValue::Text(s.to_string())
}

fn key_reply(key: &str, expires: i128) -> HttpReply {
    HttpReply {
        status: 200,
        body: Ok(obj(vec![("authkey", text(key)), ("expires", JsonValue::Integer(expires))])),
    }
}

fn authenticated(key: &str) -> Velocity {
    let mut v = Velocity::new("http://localhost:8090");
    v.authenticate_reply(key_reply(key, 9999999999)).unwrap();
    v
}

fn is_not_authenticated<T>(r: &Result<T, VelocityError>) -> bool {
    matches!(r, Err(VelocityError::Client(ClientError::NotAuthenticated)))
}

fn member<'a>(body: &'a JsonValue, key: &str) -> Option<&'a JsonValue> {
    match body {
        JsonValue::Object(m) => m.iter().find(|(k, _)| k == key).map(|(_, v)| v),
        _ => None,
    }
}

fn text_of(v: Option<&JsonValue>) -> Option<String> {
    match v {
        Some(JsonValue::Text(s)) => Some(s.clone()),
        _ => None,
    }
}

fn keys(body: &JsonValue) -> Vec<String> {
    match body {
        JsonValue::Object(m) => m.iter().map(|(k, _)| k.clone()).collect(),
        _ => Vec::new(),
    }
}

#[test]
fn operations_without_authkey_fail_with_client_error() {
    let v = Velocity::new("http://localhost:8090");
    assert!(is_not_authenticated(&v.get_authkey()));
    assert!(is_not_authenticated(&v.reauthenticate()));
    assert!(is_not_authenticated(&v.deauthenticate()));
    assert!(is_not_authenticated(&v.user_create("bob", "pw")));
    assert!(is_not_authenticated(&v.user_remove(3)));
    assert!(is_not_authenticated(&v.user_info(None)));
    assert!(is_not_authenticated(&v.user_list()));
    assert!(is_not_authenticated(&v.user_add_permission(1, 2, "p")));
    assert!(is_not_authenticated(&v.user_revoke_permission(1, 2, "p")));
    assert!(is_not_authenticated(&v.group_info(0)));
    assert!(is_not_authenticated(&v.group_create(0, "eng")));
    assert!(is_not_authenticated(&v.group_remove(4)));
    assert!(is_not_authenticated(&v.group_list()));
    assert!(is_not_authenticated(&v.pool_list(0)));
    assert!(is_not_authenticated(&v.pool_assign(0, 1, 100, true, false)));
    assert!(is_not_authenticated(&v.pool_revoke(0, 1)));
    assert!(is_not_authenticated(&v.media_list(0)));
    assert!(is_not_authenticated(&v.media_allocate(1, 0, "disk", "DISK", 1024)));
    assert!(is_not_authenticated(&v.media_upload(1, 0, "iso", "ISO", true, 10)));
    assert!(is_not_authenticated(&v.media_remove("abc".to_string())));
    assert!(is_not_authenticated(&v.nic_list()));
    assert!(v.close().is_none());
}

#[test]
fn authenticate_then_get_authkey_returns_received_key() {
    let mut v = Velocity::new("http://localhost:8090");
    let k = v.authenticate_reply(key_reply("k1", 1700000000)).unwrap();
    assert_eq!(k.key(), "k1");
    assert_eq!(k.expires(), 1700000000);
    let stored = v.get_authkey().unwrap();
    assert_eq!(stored.key(), "k1");
    assert_eq!(stored.expires(), 1700000000);
}

#[test]
fn authenticate_overwrites_previous_key() {
    let mut v = authenticated("first");
    v.authenticate_reply(key_reply("second", 5)).unwrap();
    assert_eq!(v.get_authkey().unwrap().key(), "second");
}

#[test]
fn failed_authenticate_keeps_state() {
    let mut v = Velocity::new("http://h");
    let r = v.authenticate_reply(HttpReply {
        status: 400,
        body: Ok(obj(vec![("reason", text("bad credentials"))])),
    });
    match r {
        Err(VelocityError::APIError(e)) => {
            assert_eq!(e.code, 400);
            assert_eq!(e.message, "bad credentials");
        }
        other => panic!("unexpected {:?}", other),
    }
    assert!(is_not_authenticated(&v.get_authkey()));
}

#[test]
fn authenticate_reply_without_expiry_is_transport_error() {
    let mut v = Velocity::new("http://h");
    let r = v.authenticate_reply(HttpReply { status: 200, body: Ok(obj(vec![("authkey", text("k"))])) });
    assert!(matches!(r, Err(VelocityError::Transport(_))));
    assert!(is_not_authenticated(&v.get_authkey()));
}

#[test]
fn authenticate_request_carries_credentials() {
    let q: Request = Velocity::authenticate("root", "secret");
    assert_eq!(q.method, Method::Post);
    assert_eq!(q.endpoint, "/u/auth");
    assert_eq!(keys(&q.body), vec!["username", "password"]);
    assert_eq!(text_of(member(&q.body, "username")).as_deref(), Some("root"));
    assert_eq!(text_of(member(&q.body, "password")).as_deref(), Some("secret"));
}

#[test]
fn reauthenticate_replaces_stored_key() {
    let mut v = authenticated("old");
    let q = v.reauthenticate().unwrap();
    assert_eq!(q.method, Method::Patch);
    assert_eq!(q.endpoint, "/u/auth");
    assert_eq!(text_of(member(&q.body, "authkey")).as_deref(), Some("old"));
    let k = v.reauthenticate_reply(key_reply("new", 42)).unwrap();
    assert_eq!(k.key(), "new");
    let stored = v.get_authkey().unwrap();
    assert_eq!(stored.key(), "new");
    assert_ne!(stored.key(), "old");
    assert_eq!(stored.expires(), 42);
}

#[test]
fn failed_reauthenticate_keeps_old_key() {
    let mut v = authenticated("old");
    let r = v.reauthenticate_reply(HttpReply {
        status: 403,
        body: Ok(obj(vec![("code", JsonValue::Integer(403)), ("message", text("expired"))])),
    });
    assert!(matches!(r, Err(VelocityError::APIError(_))));
    assert_eq!(v.get_authkey().unwrap().key(), "old");
}

#[test]
fn deauthenticate_success_clears_key() {
    let mut v = authenticated("abc");
    v.deauthenticate().unwrap();
    v.deauthenticate_reply(HttpReply { status: 200, body: Err("EOF while parsing a value".to_string()) })
        .unwrap();
    assert!(is_not_authenticated(&v.get_authkey()));
}

#[test]
fn deauthenticate_failure_keeps_key() {
    let mut v = authenticated("abc");
    let r = v.deauthenticate_reply(HttpReply {
        status: 500,
        body: Ok(obj(vec![("code", JsonValue::Integer(500)), ("message", text("internal"))])),
    });
    assert!(matches!(r, Err(VelocityError::APIError(_))));
    assert_eq!(v.get_authkey().unwrap().key(), "abc");
}

#[test]
fn authenticate_root_then_deauthenticate() {
    let mut v = Velocity::new("http://localhost:8090");
    let q = Velocity::authenticate("root", "root");
    assert_eq!(q.endpoint, "/u/auth");
    assert_eq!(v.url(&q.endpoint), "http://localhost:8090/u/auth");
    v.authenticate_reply(key_reply("abc", 9999999999)).unwrap();
    assert_eq!(v.get_authkey().unwrap().key(), "abc");
    assert_eq!(v.get_authkey().unwrap().expires(), 9999999999);

    let d = v.deauthenticate().unwrap();
    assert_eq!(d.method, Method::Delete);
    assert_eq!(d.endpoint, "/u/auth");
    assert_eq!(keys(&d.body), vec!["authkey"]);
    assert_eq!(text_of(member(&d.body, "authkey")).as_deref(), Some("abc"));

    v.deauthenticate_reply(HttpReply { status: 200, body: Ok(JsonValue::Null) }).unwrap();
    assert!(is_not_authenticated(&v.get_authkey()));
}

#[test]
fn close_revokes_a_held_key() {
    let v = authenticated("live");
    let q = v.close().unwrap();
    assert_eq!(q.method, Method::Delete);
    assert_eq!(q.endpoint, "/u/auth");
    assert_eq!(text_of(member(&q.body, "authkey")).as_deref(), Some("live"));
}

#[test]
fn url_joins_base_and_endpoint() {
    let v = Velocity::new("http://host:8090");
    assert_eq!(v.url("/u/user"), "http://host:8090/u/user");
}

#[test]
fn authkey_new_and_getters() {
    let k = Authkey::new("xyz", 17);
    assert_eq!(k.key(), "xyz");
    assert_eq!(k.expires(), 17);
    let c = k.clone();
    assert_eq!(c.key(), "xyz");
}
