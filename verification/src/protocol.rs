//! The backend's REST surface: which request each operation sends, and what
//! each response means. Nothing here touches the network; the caller sends a
//! `Request` and hands back the `Reply`.

use crate::envelope::{decode, decode_of, Vault};
use crate::error::SyncError;
use serde_json::Value;
use vstd::prelude::*;
use vstd::string::StringExecFns;

verus! {

/// Seconds after which a request that got no answer counts as failed.
pub const REQUEST_TIMEOUT_SECONDS: u64 = 10;

/// Name of the e-mail address in the JSON object of a registration or a login.
pub const EMAIL_KEY: &'static str = "email";

/// Name of the authentication proof in the JSON object of a registration or
/// a login.
pub const PASSWORD_HASH_KEY: &'static str = "password_hash";

/// Name of the envelope in the JSON object of an update and of the response
/// to a fetch.
pub const ENCRYPTED_DATA_KEY: &'static str = "encrypted_data";

/// Name of the session token in the JSON object of the response to a
/// registration or a login.
pub const TOKEN_KEY: &'static str = "token";

/// The HTTP method of a request.
#[derive(Debug, Clone, Copy, PartialEq, Eq, Structural)]
pub enum Method {
    Get,
    Post,
}

/// One request to the backend.
#[derive(Debug, Clone)]
pub struct Request {
    pub method: Method,
    pub url: String,
    /// The value of the `Authorization` header, if the request is authenticated.
    pub authorization: Option<String>,
    /// The JSON text of the body, if the request has one.
    pub body: Option<String>,
}

/// What came back for a request.
#[derive(Debug, Clone)]
pub enum Reply {
    /// The transport failed: no HTTP response arrived.
    Failed,
    /// An HTTP response, with the text of its body.
    Http { status: u16, body: String },
}

/// What an operation reads from a reply.
#[derive(Debug, Clone)]
pub enum Answer {
    /// The transport failed: no HTTP response arrived.
    Failed,
    /// An HTTP response. `field` is the string that the body, a JSON object,
    /// holds under the name that the operation reads; it is `None` where the
    /// body is no JSON object, or the field is absent, null or no string.
    Http { status: u16, field: Option<String> },
}

/// The mathematical value of a `Request`.
pub struct RequestView {
    pub method: Method,
    pub url: Seq<char>,
    pub authorization: Option<Seq<char>>,
    pub body: Option<Seq<char>>,
}

/// The mathematical value of a `Reply`.
pub enum ReplyView {
    Failed,
    Http { status: u16, body: Seq<char> },
}

/// The mathematical value of an `Answer`.
pub enum AnswerView {
    Failed,
    Http { status: u16, field: Option<Seq<char>> },
}

impl View for Request {
    type V = RequestView;

    open spec fn view(&self) -> RequestView {
        RequestView {
            method: self.method,
            url: self.url@,
            authorization: match self.authorization {
                Some(value) => Some(value@),
                None => None,
            },
            body: match self.body {
                Some(text) => Some(text@),
                None => None,
            },
        }
    }
}

impl View for Reply {
    type V = ReplyView;

    open spec fn view(&self) -> ReplyView {
        match self {
            Reply::Failed => ReplyView::Failed,
            Reply::Http { status, body } => ReplyView::Http { status: *status, body: body@ },
        }
    }
}

impl View for Answer {
    type V = AnswerView;

    open spec fn view(&self) -> AnswerView {
        match self {
            Answer::Failed => AnswerView::Failed,
            Answer::Http { status, field } => AnswerView::Http {
                status: *status,
                field: match field {
                    Some(text) => Some(text@),
                    None => None,
                },
            },
        }
    }
}

/// The text that `serde_json` writes for the JSON object with these fields,
/// each a name and a string.
pub uninterp spec fn json_object(fields: Seq<(Seq<char>, Seq<char>)>) -> Seq<char>;

/// The string that the JSON object `text` holds under `name`, as `serde_json`
/// reads it; nothing where the text is no JSON object, or the field is
/// absent, null or no string.
pub uninterp spec fn json_field(text: Seq<char>, name: Seq<char>) -> Option<Seq<char>>;

/// The fields as names and strings.
pub open spec fn fields_of(fields: Seq<(String, String)>) -> Seq<(Seq<char>, Seq<char>)> {
    Seq::new(fields.len(), |i: int| (fields[i].0@, fields[i].1@))
}

/// `Value::to_string` of the `Value::Object` whose `Map` is collected from
/// the fields, each value a `Value::String`.
#[verifier::external_body]
fn write_object(fields: &Vec<(String, String)>) -> (text: String)
    ensures
        text@ == json_object(fields_of(fields@)),
{
    Value::Object(
        fields.iter().map(|field| (field.0.clone(), Value::String(field.1.clone()))).collect(),
    ).to_string()
}

/// `serde_json::from_str` into a `Value`, then `Value::get` for the name and
/// `Value::as_str` on what is found.
#[verifier::external_body]
fn read_field(text: &str, name: &str) -> (value: Option<String>)
    ensures
        match value {
            Some(found) => json_field(text@, name@) == Some(found@),
            None => json_field(text@, name@) is None,
        },
{
    let parsed: Value = serde_json::from_str(text).ok()?;
    parsed.get(name)?.as_str().map(str::to_owned)
}

/// The `Authorization` header that carries a session token.
pub open spec fn bearer(token: Seq<char>) -> Seq<char> {
    "Bearer "@ + token
}

/// The body of a registration or a login: the e-mail address, and the
/// authentication proof in the place of the password.
pub open spec fn credentials_of(email: Seq<char>, proof: Seq<char>) -> Seq<char> {
    json_object(seq![(EMAIL_KEY@, email), (PASSWORD_HASH_KEY@, proof)])
}

/// The body of an update: the envelope under its one name.
pub open spec fn envelope_body_of(envelope: Seq<char>) -> Seq<char> {
    json_object(seq![(ENCRYPTED_DATA_KEY@, envelope)])
}

/// `POST {base}/api/v1/auth/register` with the credentials.
pub open spec fn register_request_of(
    base: Seq<char>,
    email: Seq<char>,
    proof: Seq<char>,
) -> RequestView {
    RequestView {
        method: Method::Post,
        url: base + "/api/v1/auth/register"@,
        authorization: None,
        body: Some(credentials_of(email, proof)),
    }
}

/// `POST {base}/api/v1/auth/login` with the credentials.
pub open spec fn login_request_of(
    base: Seq<char>,
    email: Seq<char>,
    proof: Seq<char>,
) -> RequestView {
    RequestView {
        method: Method::Post,
        url: base + "/api/v1/auth/login"@,
        authorization: None,
        body: Some(credentials_of(email, proof)),
    }
}

/// `GET {base}/api/v1/sync/fetch`, authenticated.
pub open spec fn fetch_request_of(base: Seq<char>, token: Seq<char>) -> RequestView {
    RequestView {
        method: Method::Get,
        url: base + "/api/v1/sync/fetch"@,
        authorization: Some(bearer(token)),
        body: None,
    }
}

/// `POST {base}/api/v1/sync/update` with the envelope, authenticated.
pub open spec fn update_request_of(
    base: Seq<char>,
    token: Seq<char>,
    envelope: Seq<char>,
) -> RequestView {
    RequestView {
        method: Method::Post,
        url: base + "/api/v1/sync/update"@,
        authorization: Some(bearer(token)),
        body: Some(envelope_body_of(envelope)),
    }
}

/// `GET {base}/api/v1/account/logout`, authenticated.
pub open spec fn logout_request_of(base: Seq<char>, token: Seq<char>) -> RequestView {
    RequestView {
        method: Method::Get,
        url: base + "/api/v1/account/logout"@,
        authorization: Some(bearer(token)),
        body: None,
    }
}

/// `GET {base}/api/v1/account/delete`, authenticated.
pub open spec fn delete_request_of(base: Seq<char>, token: Seq<char>) -> RequestView {
    RequestView {
        method: Method::Get,
        url: base + "/api/v1/account/delete"@,
        authorization: Some(bearer(token)),
        body: None,
    }
}

/// `GET {base}/api/v1/health`, the liveness probe.
pub open spec fn health_request_of(base: Seq<char>) -> RequestView {
    RequestView {
        method: Method::Get,
        url: base + "/api/v1/health"@,
        authorization: None,
        body: None,
    }
}

/// What an operation that reads the field `name` finds in a reply.
pub open spec fn answer_of(reply: ReplyView, name: Seq<char>) -> AnswerView {
    match reply {
        ReplyView::Failed => AnswerView::Failed,
        ReplyView::Http { status, body } => AnswerView::Http {
            status,
            field: json_field(body, name),
        },
    }
}

/// Whether a status code is one of the 2xx codes.
pub open spec fn is_success(status: u16) -> bool {
    200 <= status < 300
}

/// What the answer to a registration means: any 2xx with a token is the
/// session token; 400, 409 and 500 have their own failures.
pub open spec fn register_outcome_of(answer: AnswerView) -> Result<Seq<char>, SyncError> {
    match answer {
        AnswerView::Failed => Err(SyncError::Network),
        AnswerView::Http { status, field } => if is_success(status) {
            match field {
                Some(token) => Ok(token),
                None => Err(SyncError::MalformedReply),
            }
        } else if status == 400 {
            Err(SyncError::MalformedRequest)
        } else if status == 409 {
            Err(SyncError::AccountExists)
        } else if status == 500 {
            Err(SyncError::BackendFault)
        } else {
            Err(SyncError::UnexpectedStatus(status))
        },
    }
}

/// What the answer to a login means: any 2xx with a token is the session
/// token; 400, 401, 404 and 500 have their own failures.
pub open spec fn login_outcome_of(answer: AnswerView) -> Result<Seq<char>, SyncError> {
    match answer {
        AnswerView::Failed => Err(SyncError::Network),
        AnswerView::Http { status, field } => if is_success(status) {
            match field {
                Some(token) => Ok(token),
                None => Err(SyncError::MalformedReply),
            }
        } else if status == 400 {
            Err(SyncError::MalformedRequest)
        } else if status == 401 {
            Err(SyncError::Unauthorized)
        } else if status == 404 {
            Err(SyncError::UnknownAccount)
        } else if status == 500 {
            Err(SyncError::BackendFault)
        } else {
            Err(SyncError::UnexpectedStatus(status))
        },
    }
}

/// What the answer to a fetch means under `key`: 200 without the envelope
/// field is the empty vault, 200 with it is whatever the envelope decodes to;
/// 401 is never the empty vault.
pub open spec fn fetch_outcome_of(answer: AnswerView, key: Seq<u8>) -> Result<
    Option<Seq<u8>>,
    SyncError,
> {
    match answer {
        AnswerView::Failed => Err(SyncError::Network),
        AnswerView::Http { status, field } => if status == 200 {
            match field {
                Some(blob) => decode_of(blob, key),
                None => Ok(None),
            }
        } else if status == 401 {
            Err(SyncError::Unauthorized)
        } else if status == 500 {
            Err(SyncError::BackendFault)
        } else {
            Err(SyncError::UnexpectedStatus(status))
        },
    }
}

/// What the answer to an update or a logout means: 200 acknowledges.
pub open spec fn acknowledgement_of(reply: ReplyView) -> Result<(), SyncError> {
    match reply {
        ReplyView::Failed => Err(SyncError::Network),
        ReplyView::Http { status, body } => if status == 200 {
            Ok(())
        } else if status == 401 {
            Err(SyncError::Unauthorized)
        } else if status == 500 {
            Err(SyncError::BackendFault)
        } else {
            Err(SyncError::UnexpectedStatus(status))
        },
    }
}

/// What the answer to an account deletion means: 200 acknowledges; 400, 401
/// and 500 have their own failures.
pub open spec fn delete_outcome_of(reply: ReplyView) -> Result<(), SyncError> {
    match reply {
        ReplyView::Failed => Err(SyncError::Network),
        ReplyView::Http { status, body } => if status == 200 {
            Ok(())
        } else if status == 400 {
            Err(SyncError::MalformedRequest)
        } else if status == 401 {
            Err(SyncError::Unauthorized)
        } else if status == 500 {
            Err(SyncError::BackendFault)
        } else {
            Err(SyncError::UnexpectedStatus(status))
        },
    }
}

/// Whether a response to the liveness probe shows the backend alive: 200 only.
pub open spec fn is_alive(reply: ReplyView) -> bool {
    reply matches ReplyView::Http { status, .. } && status == 200
}

/// The address of an endpoint under a base address.
fn endpoint(base: &str, path: &str) -> (url: String)
    ensures
        url@ == base@ + path@,
{
    let mut url = String::from_str(base);
    url.append(path);
    url
}

/// The `Authorization` header for a token.
fn bearer_header(token: &str) -> (value: String)
    ensures
        value@ == bearer(token@),
{
    let mut value = String::from_str("Bearer ");
    value.append(token);
    value
}

/// The body of a registration or a login.
fn credentials(email: &str, proof: &str) -> (body: String)
    ensures
        body@ == credentials_of(email@, proof@),
{
    let mut fields: Vec<(String, String)> = Vec::new();
    fields.push((String::from_str(EMAIL_KEY), String::from_str(email)));
    fields.push((String::from_str(PASSWORD_HASH_KEY), String::from_str(proof)));
    assert(fields_of(fields@) =~= seq![(EMAIL_KEY@, email@), (PASSWORD_HASH_KEY@, proof@)]);
    write_object(&fields)
}

/// The body of an update.
fn envelope_body(envelope: &str) -> (body: String)
    ensures
        body@ == envelope_body_of(envelope@),
{
    let mut fields: Vec<(String, String)> = Vec::new();
    fields.push((String::from_str(ENCRYPTED_DATA_KEY), String::from_str(envelope)));
    assert(fields_of(fields@) =~= seq![(ENCRYPTED_DATA_KEY@, envelope@)]);
    write_object(&fields)
}

/// The request that registers an account.
pub fn register_request(base: &str, email: &str, proof: &str) -> (request: Request)
    ensures
        request@ == register_request_of(base@, email@, proof@),
{
    Request {
        method: Method::Post,
        url: endpoint(base, "/api/v1/auth/register"),
        authorization: None,
        body: Some(credentials(email, proof)),
    }
}

/// The request that logs in.
pub fn login_request(base: &str, email: &str, proof: &str) -> (request: Request)
    ensures
        request@ == login_request_of(base@, email@, proof@),
{
    Request {
        method: Method::Post,
        url: endpoint(base, "/api/v1/auth/login"),
        authorization: None,
        body: Some(credentials(email, proof)),
    }
}

/// The request that fetches the vault.
pub fn fetch_request(base: &str, token: &str) -> (request: Request)
    ensures
        request@ == fetch_request_of(base@, token@),
{
    Request {
        method: Method::Get,
        url: endpoint(base, "/api/v1/sync/fetch"),
        authorization: Some(bearer_header(token)),
        body: None,
    }
}

/// The request that stores the vault.
pub fn update_request(base: &str, token: &str, envelope: &str) -> (request: Request)
    ensures
        request@ == update_request_of(base@, token@, envelope@),
{
    Request {
        method: Method::Post,
        url: endpoint(base, "/api/v1/sync/update"),
        authorization: Some(bearer_header(token)),
        body: Some(envelope_body(envelope)),
    }
}

/// The request that ends the session on the backend.
pub fn logout_request(base: &str, token: &str) -> (request: Request)
    ensures
        request@ == logout_request_of(base@, token@),
{
    Request {
        method: Method::Get,
        url: endpoint(base, "/api/v1/account/logout"),
        authorization: Some(bearer_header(token)),
        body: None,
    }
}

/// The request that deletes the account.
pub fn delete_request(base: &str, token: &str) -> (request: Request)
    ensures
        request@ == delete_request_of(base@, token@),
{
    Request {
        method: Method::Get,
        url: endpoint(base, "/api/v1/account/delete"),
        authorization: Some(bearer_header(token)),
        body: None,
    }
}

/// The liveness probe of a backend address.
pub fn health_request(base: &str) -> (request: Request)
    ensures
        request@ == health_request_of(base@),
{
    Request {
        method: Method::Get,
        url: endpoint(base, "/api/v1/health"),
        authorization: None,
        body: None,
    }
}

/// Reads from a reply what an operation asks for: the status, and the string
/// under `name` in the body.
pub fn read_reply(reply: &Reply, name: &str) -> (answer: Answer)
    ensures
        answer@ == answer_of(reply@, name@),
{
    match reply {
        Reply::Failed => Answer::Failed,
        Reply::Http { status, body } => Answer::Http {
            status: *status,
            field: read_field(body.as_str(), name),
        },
    }
}

/// The failure that a status code stands for where an operation treats it as
/// no success: 400, 401 and 500 by their meaning, every other code as
/// unexpected.
fn common_failure(status: u16) -> (e: SyncError)
    ensures
        e == if status == 400 {
            SyncError::MalformedRequest
        } else if status == 401 {
            SyncError::Unauthorized
        } else if status == 500 {
            SyncError::BackendFault
        } else {
            SyncError::UnexpectedStatus(status)
        },
{
    if status == 400 {
        SyncError::MalformedRequest
    } else if status == 401 {
        SyncError::Unauthorized
    } else if status == 500 {
        SyncError::BackendFault
    } else {
        SyncError::UnexpectedStatus(status)
    }
}

/// Takes the session token out of the answer to a registration.
pub fn register_outcome(answer: &Answer) -> (r: Result<String, SyncError>)
    ensures
        match r {
            Ok(token) => register_outcome_of(answer@) == Ok::<Seq<char>, SyncError>(token@),
            Err(e) => register_outcome_of(answer@) == Err::<Seq<char>, SyncError>(e),
        },
{
    match answer {
        Answer::Failed => Err(SyncError::Network),
        Answer::Http { status, field } => {
            let status: u16 = *status;
            if 200 <= status && status < 300 {
                match field {
                    Some(token) => Ok(token.clone()),
                    None => Err(SyncError::MalformedReply),
                }
            } else if status == 409 {
                Err(SyncError::AccountExists)
            } else if status == 401 {
                Err(SyncError::UnexpectedStatus(status))
            } else {
                Err(common_failure(status))
            }
        },
    }
}

/// Takes the session token out of the answer to a login.
pub fn login_outcome(answer: &Answer) -> (r: Result<String, SyncError>)
    ensures
        match r {
            Ok(token) => login_outcome_of(answer@) == Ok::<Seq<char>, SyncError>(token@),
            Err(e) => login_outcome_of(answer@) == Err::<Seq<char>, SyncError>(e),
        },
{
    match answer {
        Answer::Failed => Err(SyncError::Network),
        Answer::Http { status, field } => {
            let status: u16 = *status;
            if 200 <= status && status < 300 {
                match field {
                    Some(token) => Ok(token.clone()),
                    None => Err(SyncError::MalformedReply),
                }
            } else if status == 404 {
                Err(SyncError::UnknownAccount)
            } else {
                Err(common_failure(status))
            }
        },
    }
}

/// Opens the answer to a fetch with the vault's key. A 401 is an
/// `Unauthorized` failure and never an empty vault; an envelope that fails
/// authentication is a `Decryption` failure.
pub fn fetch(answer: &Answer, key: &[u8; 32]) -> (r: Result<Vault, SyncError>)
    ensures
        match r {
            Ok(vault) => fetch_outcome_of(answer@, key@) == Ok::<Option<Seq<u8>>, SyncError>(
                vault@,
            ),
            Err(e) => fetch_outcome_of(answer@, key@) == Err::<Option<Seq<u8>>, SyncError>(e),
        },
{
    match answer {
        Answer::Failed => Err(SyncError::Network),
        Answer::Http { status, field } => {
            let status: u16 = *status;
            if status == 200 {
                match field {
                    Some(blob) => decode(blob.as_str(), key),
                    None => Ok(Vault::Empty),
                }
            } else if status == 400 {
                Err(SyncError::UnexpectedStatus(status))
            } else {
                Err(common_failure(status))
            }
        },
    }
}

/// Reads the session token out of the reply to a registration.
pub fn registered(reply: &Reply) -> (r: Result<String, SyncError>)
    ensures
        match r {
            Ok(token) => register_outcome_of(answer_of(reply@, TOKEN_KEY@)) == Ok::<
                Seq<char>,
                SyncError,
            >(token@),
            Err(e) => register_outcome_of(answer_of(reply@, TOKEN_KEY@)) == Err::<
                Seq<char>,
                SyncError,
            >(e),
        },
{
    register_outcome(&read_reply(reply, TOKEN_KEY))
}

/// Reads the session token out of the reply to a login.
pub fn logged_in(reply: &Reply) -> (r: Result<String, SyncError>)
    ensures
        match r {
            Ok(token) => login_outcome_of(answer_of(reply@, TOKEN_KEY@)) == Ok::<
                Seq<char>,
                SyncError,
            >(token@),
            Err(e) => login_outcome_of(answer_of(reply@, TOKEN_KEY@)) == Err::<
                Seq<char>,
                SyncError,
            >(e),
        },
{
    login_outcome(&read_reply(reply, TOKEN_KEY))
}

/// Reads the envelope out of the reply to a fetch and opens it with the
/// vault's key.
pub fn fetched(reply: &Reply, key: &[u8; 32]) -> (r: Result<Vault, SyncError>)
    ensures
        match r {
            Ok(vault) => fetch_outcome_of(answer_of(reply@, ENCRYPTED_DATA_KEY@), key@) == Ok::<
                Option<Seq<u8>>,
                SyncError,
            >(vault@),
            Err(e) => fetch_outcome_of(answer_of(reply@, ENCRYPTED_DATA_KEY@), key@) == Err::<
                Option<Seq<u8>>,
                SyncError,
            >(e),
        },
{
    fetch(&read_reply(reply, ENCRYPTED_DATA_KEY), key)
}

/// Reads the acknowledgement of an update or a logout.
fn acknowledgement(reply: &Reply) -> (r: Result<(), SyncError>)
    ensures
        r == acknowledgement_of(reply@),
{
    match reply {
        Reply::Failed => Err(SyncError::Network),
        Reply::Http { status, body } => {
            let status: u16 = *status;
            if status == 200 {
                Ok(())
            } else if status == 400 {
                Err(SyncError::UnexpectedStatus(status))
            } else {
                Err(common_failure(status))
            }
        },
    }
}

/// Reads the acknowledgement of an update.
pub fn update(reply: &Reply) -> (r: Result<(), SyncError>)
    ensures
        r == acknowledgement_of(reply@),
{
    acknowledgement(reply)
}

/// Reads the acknowledgement of a logout.
pub fn logout(reply: &Reply) -> (r: Result<(), SyncError>)
    ensures
        r == acknowledgement_of(reply@),
{
    acknowledgement(reply)
}

/// Reads the acknowledgement of an account deletion.
pub fn delete(reply: &Reply) -> (r: Result<(), SyncError>)
    ensures
        r == delete_outcome_of(reply@),
{
    match reply {
        Reply::Failed => Err(SyncError::Network),
        Reply::Http { status, body } => {
            let status: u16 = *status;
            if status == 200 {
                Ok(())
            } else {
                Err(common_failure(status))
            }
        },
    }
}

/// Whether the response to a liveness probe shows the backend alive.
pub fn alive(reply: &Reply) -> (alive: bool)
    ensures
        alive == is_alive(reply@),
{
    match reply {
        Reply::Failed => false,
        Reply::Http { status, body } => *status == 200,
    }
}

} // verus!
