use pb_async::client::{classify_response, finish_push, finish_upload, read_upload_slot};
use pb_async::push::push_members;
use pb_async::{Client, JsonError, Method, PushData, PushTarget, RequestError, StartupError};

fn json(text: &str) -> serde_json::Value {
    serde_json::from_str(text).unwrap()
}

fn client() -> Client {
    Client::new("tok").unwrap()
}

fn pairs(headers: &[(String, String)]) -> Vec<(&str, &str)> {
    headers.iter().map(|(k, v)| (k.as_str(), v.as_str())).collect()
}

#[test]
fn server_error_wins_over_failing_status() {
    let body = br#"{"error":{"code":"invalid_access_token","message":"bad token"}}"#.to_vec();
    match classify_response(401, body) {
        Err(RequestError::Server { code, message }) => {
            assert_eq!(code, "invalid_access_token");
            assert_eq!(message, "bad token");
        }
        other => panic!("unexpected: {:?}", other),
    }
}

#[test]
fn server_error_with_success_status() {
    let body = br#"{"error":{"code":"c","message":"m","cat":"~"},"x":1}"#.to_vec();
    match classify_response(200, body) {
        Err(RequestError::Server { code, message }) => {
            assert_eq!(code, "c");
            assert_eq!(message, "m");
        }
        other => panic!("unexpected: {:?}", other),
    }
}

#[test]
fn malformed_error_object_with_failing_status_is_status() {
    let body = br#"{"error":{"code":7}}"#.to_vec();
    match classify_response(500, body.clone()) {
        Err(RequestError::Status { status, bytes }) => {
            assert_eq!(status, 500);
            assert_eq!(bytes, body);
        }
        other => panic!("unexpected: {:?}", other),
    }
}

#[test]
fn malformed_error_object_with_success_status_is_ok() {
    let body = br#"{"error":"text only"}"#.to_vec();
    let doc = classify_response(204, body.clone()).unwrap();
    assert_eq!(doc.bytes(), &body);
}

#[test]
fn failing_status_without_error_object_keeps_bytes() {
    let body = br#"[1, 2, 3]"#.to_vec();
    match classify_response(404, body.clone()) {
        Err(RequestError::Status { status, bytes }) => {
            assert_eq!(status, 404);
            assert_eq!(bytes, body);
        }
        other => panic!("unexpected: {:?}", other),
    }
}

#[test]
fn status_bounds() {
    assert!(classify_response(199, b"{}".to_vec()).is_err());
    assert!(classify_response(200, b"{}".to_vec()).is_ok());
    assert!(classify_response(299, b"{}".to_vec()).is_ok());
    assert!(classify_response(300, b"{}".to_vec()).is_err());
}

#[test]
fn invalid_json_keeps_bytes() {
    let body = b"<html>gateway \xff timeout</html>".to_vec();
    match classify_response(502, body.clone()) {
        Err(RequestError::Json { error: JsonError::Decode(_), bytes }) => assert_eq!(bytes, body),
        other => panic!("unexpected: {:?}", other),
    }
}

#[test]
fn empty_body_is_invalid_json() {
    match classify_response(200, Vec::new()) {
        Err(RequestError::Json { error: JsonError::Decode(_), bytes }) => assert!(bytes.is_empty()),
        other => panic!("unexpected: {:?}", other),
    }
}

#[test]
fn success_document_parts() {
    let body = br#"{"devices":[]}"#.to_vec();
    let doc = classify_response(200, body.clone()).unwrap();
    let (bytes, value) = doc.into_parts();
    assert_eq!(bytes, body);
    assert_eq!(value, json(r#"{"devices":[]}"#));
}

#[test]
fn finish_push_results() {
    assert!(finish_push(200, br#"{"iden":"p"}"#.to_vec()).is_ok());
    match finish_push(400, br#"{"error":{"code":"c","message":"m"}}"#.to_vec()) {
        Err(RequestError::Server { code, .. }) => assert_eq!(code, "c"),
        other => panic!("unexpected: {:?}", other),
    }
}

#[test]
fn invalid_token_control_character() {
    match Client::new("abc\ndef") {
        Err(StartupError::InvalidToken(_, token)) => assert_eq!(token, "abc\ndef"),
        other => panic!("unexpected: {:?}", other.map(|c| c.token().to_string())),
    }
    assert!(Client::new("abc\u{7f}").is_err());
}

#[test]
fn valid_tokens() {
    assert_eq!(Client::new("o.AbC123").unwrap().token(), "o.AbC123");
    assert!(Client::new("tab\tand space ok").is_ok());
    assert!(Client::new("caf\u{e9}").is_ok());
    assert!(Client::new("").is_ok());
}

#[test]
fn get_requests() {
    let c = client();
    let r = c.get_user();
    assert_eq!(r.method, Method::Get);
    assert_eq!(r.url, "https://api.pushbullet.com/v2/users/me");
    assert_eq!(pairs(&r.headers), vec![("Access-Token", "tok")]);
    assert_eq!(r.body, "");
    let r = c.list_devices();
    assert_eq!(r.url, "https://api.pushbullet.com/v2/devices");
}

#[test]
fn push_flattens_target_and_data() {
    let r = client().push(
        PushTarget::Device { iden: "d1" },
        PushData::Note { title: "T", body: "B" },
    );
    assert_eq!(r.method, Method::Post);
    assert_eq!(r.url, "https://api.pushbullet.com/v2/pushes");
    assert_eq!(
        pairs(&r.headers),
        vec![("Access-Token", "tok"), ("Content-Type", "application/json")]
    );
    assert_eq!(
        json(&r.body),
        json(r#"{"type":"note","title":"T","body":"B","device_iden":"d1"}"#)
    );
}

#[test]
fn push_targets_and_links() {
    let data = PushData::Link { title: "t", body: "b", url: "https://u" };
    let cases = [
        (PushTarget::SelfUser {}, r#"{"type":"link","title":"t","body":"b","url":"https://u"}"#),
        (
            PushTarget::User { email: "a@b.c" },
            r#"{"type":"link","title":"t","body":"b","url":"https://u","email":"a@b.c"}"#,
        ),
        (
            PushTarget::Channel { tag: "news" },
            r#"{"type":"link","title":"t","body":"b","url":"https://u","channel_tag":"news"}"#,
        ),
        (
            PushTarget::Client { iden: "oc" },
            r#"{"type":"link","title":"t","body":"b","url":"https://u","client_iden":"oc"}"#,
        ),
    ];
    for (target, expected) in cases.iter() {
        assert_eq!(json(&client().push(*target, data).body), json(expected));
    }
}

#[test]
fn push_members_order() {
    let m = push_members(PushTarget::Channel { tag: "x" }, PushData::Note { title: "a", body: "\"q\"" });
    let names: Vec<&str> = m.iter().map(|(k, _)| k.as_str()).collect();
    assert_eq!(names, vec!["type", "title", "body", "channel_tag"]);
    assert_eq!(m[2].1, "\"q\"");
}

#[test]
fn push_body_escapes_strings() {
    let r = client().push(PushTarget::SelfUser {}, PushData::Note { title: "a\"b", body: "line\nnext" });
    assert_eq!(json(&r.body), json(r#"{"type":"note","title":"a\"b","body":"line\nnext"}"#));
}

#[test]
fn upload_request_body() {
    let r = client().upload_request("hello.txt", "text/plain");
    assert_eq!(r.method, Method::Post);
    assert_eq!(r.url, "https://api.pushbullet.com/v2/upload-request");
    assert_eq!(json(&r.body), json(r#"{"file_name":"hello.txt","file_type":"text/plain"}"#));
}

#[test]
fn upload_then_push() {
    let c = client();
    let answer = br#"{"file_name":"a.txt","file_type":"text/plain","file_url":"https://x/a.txt","upload_url":"https://y/put"}"#;
    let slot = read_upload_slot(200, answer.to_vec()).unwrap();
    assert_eq!(slot.upload_url, "https://y/put");
    let transfer = c.upload_transfer(&slot, "AaB03x");
    assert_eq!(transfer.url, "https://y/put");
    assert_eq!(
        pairs(&transfer.headers),
        vec![("Access-Token", "tok"), ("Content-Type", "multipart/form-data; boundary=AaB03x")]
    );
    let done = finish_upload(slot, 200, Vec::new()).unwrap();
    assert_eq!(done.file_name, "a.txt");
    assert_eq!(done.file_type, "text/plain");
    assert_eq!(done.file_url, "https://x/a.txt");
    let r = c.push(
        PushTarget::SelfUser {},
        PushData::File {
            body: "",
            file_name: &done.file_name,
            file_type: &done.file_type,
            file_url: &done.file_url,
        },
    );
    assert_eq!(
        json(&r.body),
        json(r#"{"type":"file","body":"","file_name":"a.txt","file_type":"text/plain","file_url":"https://x/a.txt"}"#)
    );
}

#[test]
fn multipart_framing_round_trip() {
    let answer = br#"{"file_name":"test.txt","file_type":"text/plain","file_url":"u","upload_url":"v"}"#;
    let slot = read_upload_slot(200, answer.to_vec()).unwrap();
    let t = client().upload_transfer(&slot, "AaB03x");
    assert_eq!(
        t.head,
        b"--AaB03x\r\nContent-Disposition: form-data; name=\"file\"; filename=\"test.txt\"\r\nContent-Type: text/plain\r\n\r\n".to_vec()
    );
    assert_eq!(t.tail, b"\r\n--AaB03x--\r\n".to_vec());
    let payload: &[u8] = b"Hello, world!\n\x00\xff";
    let mut body = t.head.clone();
    body.extend_from_slice(payload);
    body.extend_from_slice(&t.tail);
    // Read it back as a boundary-aware reader does.
    let opening = b"--AaB03x\r\n";
    assert!(body.starts_with(opening));
    let rest = &body[opening.len()..];
    let blank = rest.windows(4).position(|w| w == b"\r\n\r\n").unwrap();
    assert_eq!(
        &rest[..blank],
        &b"Content-Disposition: form-data; name=\"file\"; filename=\"test.txt\"\r\nContent-Type: text/plain"[..]
    );
    let delimiter = b"\r\n--AaB03x";
    let end = rest.windows(delimiter.len()).position(|w| w == delimiter).unwrap();
    assert_eq!(&rest[blank + 4..end], payload);
    assert_eq!(&rest[end..], &b"\r\n--AaB03x--\r\n"[..]);
}

#[test]
fn multipart_empty_payload_and_unicode_name() {
    let answer = r#"{"file_name":"résumé.pdf","file_type":"application/pdf","file_url":"u","upload_url":"v"}"#;
    let slot = read_upload_slot(200, answer.as_bytes().to_vec()).unwrap();
    let t = client().upload_transfer(&slot, "b");
    assert_eq!(
        t.head,
        "--b\r\nContent-Disposition: form-data; name=\"file\"; filename=\"résumé.pdf\"\r\nContent-Type: application/pdf\r\n\r\n".as_bytes().to_vec()
    );
    assert_eq!(pb_async::multipart::closing("b"), b"\r\n--b--\r\n".to_vec());
}

#[test]
fn upload_slot_missing_member() {
    let body = br#"{"file_name":"a","file_type":"t","file_url":"u"}"#.to_vec();
    match read_upload_slot(200, body.clone()) {
        Err(RequestError::Json { error: JsonError::Missing(p), bytes }) => {
            assert_eq!(p, "/upload_url");
            assert_eq!(bytes, body);
        }
        other => panic!("unexpected: {:?}", other),
    }
    match read_upload_slot(200, br#"{"file_name":1}"#.to_vec()) {
        Err(RequestError::Json { error: JsonError::Missing(p), .. }) => assert_eq!(p, "/file_name"),
        other => panic!("unexpected: {:?}", other),
    }
}

#[test]
fn upload_slot_failing_status() {
    match read_upload_slot(503, b"{}".to_vec()) {
        Err(RequestError::Status { status, .. }) => assert_eq!(status, 503),
        other => panic!("unexpected: {:?}", other),
    }
}

#[test]
fn finish_upload_failing_status() {
    let answer = br#"{"file_name":"a","file_type":"t","file_url":"u","upload_url":"v"}"#;
    let slot = read_upload_slot(200, answer.to_vec()).unwrap();
    match finish_upload(slot, 403, b"denied".to_vec()) {
        Err(RequestError::Status { status, bytes }) => {
            assert_eq!(status, 403);
            assert_eq!(bytes, b"denied".to_vec());
        }
        other => panic!("unexpected: {:?}", other),
    }
}

#[test]
fn other_error_variants_carry_text() {
    let e = RequestError::Transport("connection reset".to_string());
    assert!(matches!(e, RequestError::Transport(ref s) if s == "connection reset"));
    let e = RequestError::Http("bad header".to_string());
    assert!(matches!(e, RequestError::Http(_)));
    let e = StartupError::Tls("no backend".to_string());
    assert!(matches!(e, StartupError::Tls(_)));
}
