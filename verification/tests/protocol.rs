use passhub::envelope::{encode, Vault};
use passhub::error::SyncError;
use passhub::protocol::{
    alive, delete, delete_request, fetch, fetch_request, fetched, health_request, logged_in,
    login_outcome, login_request, logout, logout_request, read_reply, register_outcome,
    register_request, registered, update, update_request, Answer, Method, Reply,
};

fn http(status: u16) -> Answer {
    Answer::Http { status, field: None }
}

fn with_field(status: u16, field: &str) -> Answer {
    Answer::Http { status, field: Some(String::from(field)) }
}

fn reply(status: u16, body: &str) -> Reply {
    Reply::Http { status, body: String::from(body) }
}

#[test]
fn register_request_posts_the_proof_to_the_register_endpoint() {
    let request = register_request("https://vault.example", "a@b.com", "$argon2id$proof");
    assert_eq!(request.method, Method::Post);
    assert_eq!(request.url, "https://vault.example/api/v1/auth/register");
    assert_eq!(request.authorization, None);
    assert_eq!(
        request.body,
        Some(String::from(r#"{"email":"a@b.com","password_hash":"$argon2id$proof"}"#))
    );
}

#[test]
fn login_request_uses_its_own_endpoint() {
    let request = login_request("https://vault.example", "a@b.com", "$argon2id$proof");
    assert_eq!(request.method, Method::Post);
    assert_eq!(request.url, "https://vault.example/api/v1/auth/login");
    assert_eq!(request.authorization, None);
    assert_eq!(
        request.body,
        Some(String::from(r#"{"email":"a@b.com","password_hash":"$argon2id$proof"}"#))
    );
}

#[test]
fn fetch_request_is_bearer_authenticated() {
    let request = fetch_request("http://localhost:8080", "tok");
    assert_eq!(request.method, Method::Get);
    assert_eq!(request.url, "http://localhost:8080/api/v1/sync/fetch");
    assert_eq!(request.authorization, Some(String::from("Bearer tok")));
    assert_eq!(request.body, None);
}

#[test]
fn update_request_carries_the_envelope() {
    let request = update_request("http://localhost:8080", "tok", "QUJD+/==");
    assert_eq!(request.method, Method::Post);
    assert_eq!(request.url, "http://localhost:8080/api/v1/sync/update");
    assert_eq!(request.authorization, Some(String::from("Bearer tok")));
    assert_eq!(request.body, Some(String::from(r#"{"encrypted_data":"QUJD+/=="}"#)));
}

#[test]
fn bodies_are_json_whatever_the_text() {
    let request = register_request("http://h", "a\"b@c.d", "line\nbreak\\");
    assert_eq!(
        request.body,
        Some(String::from(r#"{"email":"a\"b@c.d","password_hash":"line\nbreak\\"}"#))
    );
}

#[test]
fn logout_delete_and_health_requests() {
    let request = logout_request("http://h", "t");
    assert_eq!(request.method, Method::Get);
    assert_eq!(request.url, "http://h/api/v1/account/logout");
    assert_eq!(request.authorization, Some(String::from("Bearer t")));
    let request = delete_request("http://h", "t");
    assert_eq!(request.method, Method::Get);
    assert_eq!(request.url, "http://h/api/v1/account/delete");
    assert_eq!(request.authorization, Some(String::from("Bearer t")));
    let request = health_request("http://h");
    assert_eq!(request.method, Method::Get);
    assert_eq!(request.url, "http://h/api/v1/health");
    assert_eq!(request.authorization, None);
    assert_eq!(request.body, None);
}

#[test]
fn register_outcomes() {
    assert_eq!(register_outcome(&with_field(200, "tok")), Ok(String::from("tok")));
    assert_eq!(register_outcome(&with_field(201, "tok")), Ok(String::from("tok")));
    assert_eq!(register_outcome(&with_field(299, "tok")), Ok(String::from("tok")));
    assert_eq!(register_outcome(&http(200)), Err(SyncError::MalformedReply));
    assert_eq!(register_outcome(&http(400)), Err(SyncError::MalformedRequest));
    assert_eq!(register_outcome(&http(409)), Err(SyncError::AccountExists));
    assert_eq!(register_outcome(&http(500)), Err(SyncError::BackendFault));
    assert_eq!(register_outcome(&http(401)), Err(SyncError::UnexpectedStatus(401)));
    assert_eq!(register_outcome(&http(404)), Err(SyncError::UnexpectedStatus(404)));
    assert_eq!(register_outcome(&http(300)), Err(SyncError::UnexpectedStatus(300)));
    assert_eq!(register_outcome(&http(199)), Err(SyncError::UnexpectedStatus(199)));
    assert_eq!(register_outcome(&with_field(409, "tok")), Err(SyncError::AccountExists));
    assert_eq!(register_outcome(&Answer::Failed), Err(SyncError::Network));
}

#[test]
fn login_outcomes() {
    assert_eq!(login_outcome(&with_field(200, "tok")), Ok(String::from("tok")));
    assert_eq!(login_outcome(&http(204)), Err(SyncError::MalformedReply));
    assert_eq!(login_outcome(&http(400)), Err(SyncError::MalformedRequest));
    assert_eq!(login_outcome(&http(401)), Err(SyncError::Unauthorized));
    assert_eq!(login_outcome(&http(404)), Err(SyncError::UnknownAccount));
    assert_eq!(login_outcome(&http(500)), Err(SyncError::BackendFault));
    assert_eq!(login_outcome(&http(409)), Err(SyncError::UnexpectedStatus(409)));
    assert_eq!(login_outcome(&http(503)), Err(SyncError::UnexpectedStatus(503)));
    assert_eq!(login_outcome(&Answer::Failed), Err(SyncError::Network));
}

#[test]
fn fetch_outcomes() {
    let key = [3u8; 32];
    let blob = encode(b"[]", &key).unwrap();
    assert_eq!(fetch(&with_field(200, &blob), &key), Ok(Vault::Entries(b"[]".to_vec())));
    assert_eq!(fetch(&http(200), &key), Ok(Vault::Empty));
    assert_eq!(fetch(&with_field(200, ""), &key), Ok(Vault::Empty));
    assert_eq!(fetch(&with_field(200, "%%%"), &key), Err(SyncError::MalformedEnvelope));
    assert_eq!(fetch(&with_field(200, &blob), &[4u8; 32]), Err(SyncError::Decryption));
    assert_eq!(fetch(&http(500), &key), Err(SyncError::BackendFault));
    assert_eq!(fetch(&http(400), &key), Err(SyncError::UnexpectedStatus(400)));
    assert_eq!(fetch(&with_field(201, &blob), &key), Err(SyncError::UnexpectedStatus(201)));
    assert_eq!(fetch(&Answer::Failed, &key), Err(SyncError::Network));
}

#[test]
fn expired_token_is_an_authentication_error_and_never_an_empty_vault() {
    let key = [3u8; 32];
    assert_eq!(fetch(&http(401), &key), Err(SyncError::Unauthorized));
    assert_eq!(fetch(&with_field(401, ""), &key), Err(SyncError::Unauthorized));
    let blob = encode(b"[]", &key).unwrap();
    assert_eq!(fetch(&with_field(401, &blob), &key), Err(SyncError::Unauthorized));
}

#[test]
fn update_and_logout_outcomes() {
    assert_eq!(update(&reply(200, "")), Ok(()));
    assert_eq!(update(&reply(200, "anything")), Ok(()));
    assert_eq!(update(&reply(401, "")), Err(SyncError::Unauthorized));
    assert_eq!(update(&reply(500, "")), Err(SyncError::BackendFault));
    assert_eq!(update(&reply(400, "")), Err(SyncError::UnexpectedStatus(400)));
    assert_eq!(update(&reply(204, "")), Err(SyncError::UnexpectedStatus(204)));
    assert_eq!(update(&Reply::Failed), Err(SyncError::Network));
    assert_eq!(logout(&reply(200, "")), Ok(()));
    assert_eq!(logout(&reply(401, "")), Err(SyncError::Unauthorized));
    assert_eq!(logout(&Reply::Failed), Err(SyncError::Network));
}

#[test]
fn delete_outcomes() {
    assert_eq!(delete(&reply(200, "")), Ok(()));
    assert_eq!(delete(&reply(400, "")), Err(SyncError::MalformedRequest));
    assert_eq!(delete(&reply(401, "")), Err(SyncError::Unauthorized));
    assert_eq!(delete(&reply(500, "")), Err(SyncError::BackendFault));
    assert_eq!(delete(&reply(404, "")), Err(SyncError::UnexpectedStatus(404)));
    assert_eq!(delete(&Reply::Failed), Err(SyncError::Network));
}

#[test]
fn only_200_is_alive() {
    assert!(alive(&reply(200, "")));
    assert!(!alive(&reply(204, "")));
    assert!(!alive(&reply(500, "")));
    assert!(!alive(&Reply::Failed));
}

fn field_of(answer: Answer) -> Option<String> {
    match answer {
        Answer::Http { field, .. } => field,
        Answer::Failed => panic!("no answer"),
    }
}

#[test]
fn a_reply_is_read_for_one_string_field() {
    let body = r#"{"token":"abc","other":1}"#;
    assert_eq!(field_of(read_reply(&reply(200, body), "token")), Some(String::from("abc")));
    assert_eq!(field_of(read_reply(&reply(200, body), "other")), None);
    assert_eq!(field_of(read_reply(&reply(200, body), "missing")), None);
    assert_eq!(field_of(read_reply(&reply(200, r#"{"token":null}"#), "token")), None);
    assert_eq!(field_of(read_reply(&reply(200, r#"{"token":["abc"]}"#), "token")), None);
    assert_eq!(field_of(read_reply(&reply(200, r#"["token"]"#), "token")), None);
    assert_eq!(field_of(read_reply(&reply(200, "null"), "token")), None);
    assert_eq!(field_of(read_reply(&reply(200, ""), "token")), None);
    assert_eq!(field_of(read_reply(&reply(200, "<html>"), "token")), None);
    assert_eq!(
        field_of(read_reply(&reply(200, r#"{"token":"a\"b\u00e4"}"#), "token")),
        Some(String::from("a\"b\u{e4}"))
    );
    assert!(matches!(read_reply(&reply(503, body), "token"), Answer::Http { status: 503, .. }));
    assert!(matches!(read_reply(&Reply::Failed, "token"), Answer::Failed));
}

#[test]
fn the_token_is_read_from_the_body() {
    assert_eq!(registered(&reply(201, r#"{"token":"fresh"}"#)), Ok(String::from("fresh")));
    assert_eq!(registered(&reply(200, r#"{"jwt":"fresh"}"#)), Err(SyncError::MalformedReply));
    assert_eq!(registered(&reply(200, "")), Err(SyncError::MalformedReply));
    assert_eq!(registered(&reply(409, r#"{"token":"fresh"}"#)), Err(SyncError::AccountExists));
    assert_eq!(registered(&Reply::Failed), Err(SyncError::Network));
    assert_eq!(logged_in(&reply(200, r#"{"token":"t"}"#)), Ok(String::from("t")));
    assert_eq!(logged_in(&reply(200, r#"{"token":5}"#)), Err(SyncError::MalformedReply));
    assert_eq!(logged_in(&reply(401, "")), Err(SyncError::Unauthorized));
    assert_eq!(logged_in(&reply(404, "")), Err(SyncError::UnknownAccount));
}

#[test]
fn the_envelope_is_read_from_the_body() {
    let key = [3u8; 32];
    let blob = encode(b"[]", &key).unwrap();
    let body = format!(r#"{{"encrypted_data":"{}"}}"#, blob);
    assert_eq!(fetched(&reply(200, &body), &key), Ok(Vault::Entries(b"[]".to_vec())));
    assert_eq!(fetched(&reply(200, &body), &[4u8; 32]), Err(SyncError::Decryption));
    assert_eq!(fetched(&reply(200, r#"{"encrypted_data":null}"#), &key), Ok(Vault::Empty));
    assert_eq!(fetched(&reply(200, r#"{"encrypted_data":""}"#), &key), Ok(Vault::Empty));
    assert_eq!(fetched(&reply(200, "{}"), &key), Ok(Vault::Empty));
    assert_eq!(fetched(&reply(200, "null"), &key), Ok(Vault::Empty));
    assert_eq!(fetched(&reply(200, ""), &key), Ok(Vault::Empty));
    assert_eq!(
        fetched(&reply(200, r#"{"encrypted_data":"%%%"}"#), &key),
        Err(SyncError::MalformedEnvelope)
    );
    assert_eq!(fetched(&reply(401, &body), &key), Err(SyncError::Unauthorized));
    assert_eq!(fetched(&reply(401, ""), &key), Err(SyncError::Unauthorized));
    assert_eq!(fetched(&reply(500, ""), &key), Err(SyncError::BackendFault));
    assert_eq!(fetched(&Reply::Failed, &key), Err(SyncError::Network));
}

#[test]
fn what_an_update_sends_a_fetch_reads() {
    let key = [9u8; 32];
    let blob = encode(br#"[{"id":"1"}]"#, &key).unwrap();
    let request = update_request("http://h", "t", &blob);
    let stored = request.body.unwrap();
    assert_eq!(
        fetched(&reply(200, &stored), &key),
        Ok(Vault::Entries(br#"[{"id":"1"}]"#.to_vec()))
    );
}

#[test]
fn fields_have_their_wire_names() {
    assert_eq!(passhub::protocol::EMAIL_KEY, "email");
    assert_eq!(passhub::protocol::PASSWORD_HASH_KEY, "password_hash");
    assert_eq!(passhub::protocol::ENCRYPTED_DATA_KEY, "encrypted_data");
    assert_eq!(passhub::protocol::TOKEN_KEY, "token");
}
