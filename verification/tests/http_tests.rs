use store_service::http::{
    activation_code_reply, created_reply, error_reply, id_from_path, json_reply, user_created_reply, Body,
    Reply, Status,
};

fn text(status: Status, t: &str) -> Reply<()> {
    Reply { status, body: Body::Text(t.to_string()) }
}

#[test]
fn error_reply_wraps_message() {
    assert_eq!(error_reply::<()>("boom"), text(Status::BadRequest, r#"{"error":"boom"}"#));
}

#[test]
fn created_reply_cases() {
    assert_eq!(created_reply(&Ok(())), Reply { status: Status::Created, body: Body::Empty });
    assert_eq!(created_reply(&Err("no".to_string())), text(Status::BadRequest, r#"{"error":"no"}"#));
}

#[test]
fn activation_code_reply_cases() {
    assert_eq!(
        activation_code_reply(&Ok(0x550e8400e29b41d4a716446655440000)),
        text(Status::Created, r#"{"activation_code":"550e8400-e29b-41d4-a716-446655440000"}"#)
    );
    assert_eq!(activation_code_reply(&Err("x".to_string())), text(Status::BadRequest, r#"{"error":"x"}"#));
}

#[test]
fn user_created_reply_cases() {
    assert_eq!(
        user_created_reply(&Ok(1)),
        text(Status::Success, r#"{"userid":"00000000-0000-0000-0000-000000000001"}"#)
    );
    assert_eq!(user_created_reply(&Err("dup".to_string())), text(Status::BadRequest, r#"{"error":"dup"}"#));
}

#[test]
fn json_reply_cases() {
    assert_eq!(json_reply(Ok(5u32)), Reply { status: Status::Success, body: Body::Json(5u32) });
    assert_eq!(
        json_reply::<u32>(Err("e".to_string())),
        Reply { status: Status::BadRequest, body: Body::Text(r#"{"error":"e"}"#.to_string()) }
    );
}

#[test]
fn id_from_path_cases() {
    assert_eq!(
        id_from_path::<()>("a1a2a3a4-b1b2-c1c2-d1d2-d3d4d5d6d7d8"),
        Ok(0xa1a2a3a4b1b2c1c2d1d2d3d4d5d6d7d8)
    );
    assert_eq!(id_from_path::<()>("a1a2a3a4b1b2c1c2d1d2d3d4d5d6d7d8"), Ok(0xa1a2a3a4b1b2c1c2d1d2d3d4d5d6d7d8));
    match id_from_path::<()>("not-a-uuid") {
        Err(Reply { status: Status::BadRequest, body: Body::Text(t) }) => {
            assert!(t.starts_with(r#"{"error":"invalid"#), "{}", t);
        }
        other => panic!("unexpected {:?}", other),
    }
}

#[test]
fn shown_id_parses_back() {
    let id: u128 = 0x0123456789abcdef0011223344556677;
    let reply = user_created_reply(&Ok(id));
    let shown = match reply.body {
        Body::Text(t) => t,
        _ => panic!("no text"),
    };
    let inner = shown.trim_start_matches(r#"{"userid":""#).trim_end_matches(r#""}"#).to_string();
    assert_eq!(inner, "01234567-89ab-cdef-0011-223344556677");
    assert_eq!(id_from_path::<()>(&inner), Ok(id));
}
