use velocity::json::JsonValue;
use velocity::media::MMediaUploadPUTRes;
use velocity::session::Velocity;
use velocity::transport::{reply_value, HttpReply, Method};
use velocity::upload::UploadProgress;

fn authenticated(key: &str) -> Velocity {
    let mut v = Velocity::new("http://localhost:8090");
    let body = JsonValue::Object(vec![
        ("authkey".to_string(), JsonValue::Text(key.to_string())),
        ("expires".to_string(), JsonValue::Integer(100)),
    ]);
    v.authenticate_reply(HttpReply { status: 200, body: Ok(body) }).unwrap();
    v
}

#[test]
fn progress_reports_once_per_chunk_up_to_total() {
    let chunks: Vec<u64> = vec![4, 4, 2];
    let mut p = UploadProgress::new(10);
    let reports: Vec<(u64, u64)> = chunks.iter().map(|c| p.advance(*c)).collect();
    assert_eq!(reports, vec![(10, 4), (10, 8), (10, 10)]);
    assert_eq!(p.uploaded(), 10);
    assert_eq!(p.total(), 10);
}

#[test]
fn progress_with_empty_chunk_does_not_decrease() {
    let mut p = UploadProgress::new(3);
    assert_eq!(p.advance(0), (3, 0));
    assert_eq!(p.advance(3), (3, 3));
    assert_eq!(p.advance(0), (3, 3));
}

#[test]
fn progress_saturates_at_largest_count() {
    let mut p = UploadProgress::new(u64::MAX);
    assert_eq!(p.advance(u64::MAX - 1), (u64::MAX, u64::MAX - 1));
    assert_eq!(p.advance(5), (u64::MAX, u64::MAX));
}

#[test]
fn upload_request_headers() {
    let v = authenticated("abc");
    let q = v.media_upload(-3, 12, "disk image", "ISO", true, 1048576).unwrap();
    assert_eq!(q.method, Method::Put);
    assert_eq!(q.endpoint, "/m/media/upload");
    assert_eq!(q.content_length, 1048576);
    let expected: Vec<(String, String)> = vec![
        ("Content-Length", "1048576"),
        ("x-velocity-authkey", "abc"),
        ("x-velocity-mpid", "-3"),
        ("x-velocity-gid", "12"),
        ("x-velocity-name", "disk image"),
        ("x-velocity-type", "ISO"),
        ("x-velocity-readonly", "true"),
    ]
    .into_iter()
    .map(|(k, v)| (k.to_string(), v.to_string()))
    .collect();
    assert_eq!(q.headers, expected);
    let q = v.media_upload(0, i64::MIN, "n", "t", false, 0).unwrap();
    assert_eq!(q.headers[0].1, "0");
    assert_eq!(q.headers[3].1, "-9223372036854775808");
    assert_eq!(q.headers[6].1, "false");
}

#[test]
fn upload_reply_gives_media_id_and_size() {
    let body = JsonValue::Object(vec![
        ("mid".to_string(), JsonValue::Text("m-1".to_string())),
        ("size".to_string(), JsonValue::Integer(10)),
    ]);
    let r: MMediaUploadPUTRes = reply_value(HttpReply { status: 200, body: Ok(body) }).unwrap();
    assert_eq!(r.mid, "m-1");
    assert_eq!(r.size, 10);
}
