//! The two calls to the web API: what is sent, and how the reply is read.
//!
//! A [`Request`] describes an HTTP request as plain data, for the caller to
//! send. A [`Reply`] is what the caller got back, also as plain data.

use crate::decode::{
    all_devices, decode_devices, decode_token, device_of, devices_in, text_member, token_in,
    PayloadError,
};
use crate::json::{json_text, member_of, Json};
use crate::model::{AuthToken, DeviceModel, Devices, TokenModel};
use vstd::prelude::*;
use vstd::string::*;

verus! {

/// The variable of the environment that holds the client id.
pub const CLIENT_ID_VARIABLE: &'static str = "CLIENT_ID";

/// The variable of the environment that holds the client secret.
pub const CLIENT_SECRET_VARIABLE: &'static str = "CLIENT_SECRET";

/// The HTTP method of a request.
#[derive(Debug, Clone, Copy, PartialEq, Eq)]
pub enum Method {
    Get,
    Post,
}

/// An HTTP request to send.
#[derive(Debug, PartialEq, Eq)]
pub struct Request {
    pub method: Method,
    pub url: String,
    /// The token to authorize with, sent as `Authorization: Bearer <token>`.
    pub bearer: Option<String>,
    /// The fields of a form-encoded body, in order; `None` for no body.
    pub form: Option<Vec<(String, String)>>,
}

/// A [`Request`] as a mathematical value.
pub struct RequestModel {
    pub method: Method,
    pub url: Seq<char>,
    pub bearer: Option<Seq<char>>,
    pub form: Option<Seq<(Seq<char>, Seq<char>)>>,
}

impl View for Request {
    type V = RequestModel;

    open spec fn view(&self) -> RequestModel {
        RequestModel {
            method: self.method,
            url: self.url@,
            bearer: match self.bearer {
                Some(token) => Some(token@),
                None => None,
            },
            form: match self.form {
                Some(fields) => Some(
                    fields@.map_values(|field: (String, String)| (field.0@, field.1@)),
                ),
                None => None,
            },
        }
    }
}

/// What came back for a request.
#[derive(Debug, PartialEq, Eq)]
pub enum Reply {
    /// No answer was received; the string says what went wrong.
    Failed(String),
    /// The server answered with this status code and body.
    Answered { status: u16, body: Vec<u8> },
}

/// Why a call to the API gave no result.
#[derive(Debug, PartialEq, Eq)]
pub enum FetchError {
    /// No answer was received; the string is the one of [`Reply::Failed`].
    Transport(String),
    /// The server answered with a status code outside `200 ..= 299`.
    Status(u16),
    /// The server answered with success, but the body could not be read.
    Payload(PayloadError),
}

/// The address of the authorization endpoint.
pub open spec fn token_endpoint() -> Seq<char> {
    "https://accounts.spotify.com/api/token"@
}

/// The address of the endpoint that lists the user's devices.
pub open spec fn devices_endpoint() -> Seq<char> {
    "https://api.spotify.com/v1/me/player/devices"@
}

/// The form that asks for a token under the client-credentials grant.
pub open spec fn token_form(
    client_id: Seq<char>,
    client_secret: Seq<char>,
) -> Seq<(Seq<char>, Seq<char>)> {
    seq![
        ("grant_type"@, "client_credentials"@),
        ("client_id"@, client_id),
        ("client_secret"@, client_secret),
    ]
}

/// The request for an access token under the client-credentials grant.
pub open spec fn token_request_model(
    client_id: Seq<char>,
    client_secret: Seq<char>,
) -> RequestModel {
    RequestModel {
        method: Method::Post,
        url: token_endpoint(),
        bearer: None,
        form: Some(token_form(client_id, client_secret)),
    }
}

/// The request for the device list, authorized by `access_token`.
pub open spec fn devices_request_model(access_token: Seq<char>) -> RequestModel {
    RequestModel {
        method: Method::Get,
        url: devices_endpoint(),
        bearer: Some(access_token),
        form: None,
    }
}

/// A status code that reports success.
pub open spec fn is_success(status: u16) -> bool {
    200 <= status <= 299
}

/// The body of a reply that reports success, or why there is none.
pub open spec fn body_of(reply: Reply) -> Result<Seq<u8>, FetchError> {
    match reply {
        Reply::Failed(why) => Err(FetchError::Transport(why)),
        Reply::Answered { status, body } => if is_success(status) {
            Ok(body@)
        } else {
            Err(FetchError::Status(status))
        },
    }
}

/// What reading `reply` as the answer to a token request comes to.
pub open spec fn token_reading(reply: Reply) -> Result<TokenModel, FetchError> {
    match body_of(reply) {
        Err(e) => Err(e),
        Ok(bytes) => match token_in(bytes) {
            Ok(token) => Ok(token),
            Err(e) => Err(FetchError::Payload(e)),
        },
    }
}

/// What reading `reply` as the answer to a devices request comes to.
pub open spec fn devices_reading(reply: Reply) -> Result<Seq<DeviceModel>, FetchError> {
    match body_of(reply) {
        Err(e) => Err(e),
        Ok(bytes) => match devices_in(bytes) {
            Ok(devices) => Ok(devices),
            Err(e) => Err(FetchError::Payload(e)),
        },
    }
}

/// Builds the request for an access token: a form-encoded POST to the
/// authorization endpoint that names the grant and carries both credentials
/// unchanged.
pub fn token_request(client_id: &str, client_secret: &str) -> (request: Request)
    ensures
        request@ == token_request_model(client_id@, client_secret@),
{
    let mut form: Vec<(String, String)> = Vec::new();
    form.push((String::from_str("grant_type"), String::from_str("client_credentials")));
    form.push((String::from_str("client_id"), String::from_str(client_id)));
    form.push((String::from_str("client_secret"), String::from_str(client_secret)));
    let request = Request {
        method: Method::Post,
        url: String::from_str("https://accounts.spotify.com/api/token"),
        bearer: None,
        form: Some(form),
    };
    assert(request@.form->0 =~= token_form(client_id@, client_secret@));
    request
}

/// Builds the request for the device list: a GET to the devices endpoint
/// with `access_token` as bearer token. The token is not inspected.
pub fn devices_request(access_token: &str) -> (request: Request)
    ensures
        request@ == devices_request_model(access_token@),
{
    Request {
        method: Method::Get,
        url: String::from_str("https://api.spotify.com/v1/me/player/devices"),
        bearer: Some(String::from_str(access_token)),
        form: None,
    }
}

/// Takes the body out of a reply. A reply without answer and an answer with
/// a status outside `200 ..= 299` are errors, whatever the body holds.
pub fn take_body(reply: Reply) -> (r: Result<Vec<u8>, FetchError>)
    ensures
        body_of(reply) == (match r {
            Ok(body) => Ok(body@),
            Err(e) => Err(e),
        }),
{
    match reply {
        Reply::Failed(why) => Err(FetchError::Transport(why)),
        Reply::Answered { status, body } => if 200 <= status && status <= 299 {
            Ok(body)
        } else {
            Err(FetchError::Status(status))
        },
    }
}

/// Reads the reply to a token request.
pub fn read_token(reply: Reply) -> (r: Result<AuthToken, FetchError>)
    ensures
        token_reading(reply) == (match r {
            Ok(token) => Ok(token@),
            Err(e) => Err(e),
        }),
{
    match take_body(reply) {
        Ok(body) => match decode_token(body.as_slice()) {
            Ok(token) => Ok(token),
            Err(e) => Err(FetchError::Payload(e)),
        },
        Err(e) => Err(e),
    }
}

/// Reads the reply to a devices request.
pub fn read_devices(reply: Reply) -> (r: Result<Devices, FetchError>)
    ensures
        devices_reading(reply) == (match r {
            Ok(list) => Ok(list@),
            Err(e) => Err(e),
        }),
{
    match take_body(reply) {
        Ok(body) => match decode_devices(body.as_slice()) {
            Ok(list) => Ok(list),
            Err(e) => Err(FetchError::Payload(e)),
        },
        Err(e) => Err(e),
    }
}

/// The form of the token request names each field once.
pub proof fn token_form_names_differ(client_id: Seq<char>, client_secret: Seq<char>)
    ensures
        ({
            let form = token_form(client_id, client_secret);
            forall|i: int, j: int| 0 <= i < j < form.len() ==> form[i].0 != form[j].0
        }),
{
    reveal_strlit("grant_type");
    reveal_strlit("client_id");
    reveal_strlit("client_secret");
    assert("grant_type"@[0] != "client_id"@[0]);
    assert("grant_type"@[0] != "client_secret"@[0]);
    assert("client_id"@.len() != "client_secret"@.len());
}

/// A successful answer whose document holds the three fields of a token,
/// each of its type, is read as the token with exactly those values,
/// whatever else the document holds.
pub proof fn token_fields_are_kept(
    status: u16,
    body: Vec<u8>,
    document: Json,
    access_token: Seq<char>,
    token_type: Seq<char>,
    expires_in: int,
)
    requires
        is_success(status),
        json_text(body@) == Some(document),
        member_of(document, "access_token"@) == Some(Json::Text(access_token)),
        member_of(document, "token_type"@) == Some(Json::Text(token_type)),
        member_of(document, "expires_in"@) == Some(Json::Integer(expires_in)),
        i32::MIN <= expires_in <= i32::MAX,
    ensures
        token_reading(Reply::Answered { status, body }) matches Ok(token) && token == (TokenModel {
            access_token,
            token_type,
            expires_in,
        }),
{
}

/// An answer whose document lacks one of the three fields of a token is
/// refused: no value is made up for the field.
pub proof fn token_needs_every_field(status: u16, body: Vec<u8>, document: Json, name: Seq<char>)
    requires
        json_text(body@) == Some(document),
        name == "access_token"@ || name == "token_type"@ || name == "expires_in"@,
        member_of(document, name) is None,
    ensures
        token_reading(Reply::Answered { status, body }) is Err,
        is_success(status) ==> (token_reading(Reply::Answered { status, body }) matches Err(e)
            && e == FetchError::Payload(PayloadError::WrongShape)),
{
}

/// A successful answer whose `devices` member is an array of devices is read
/// as a list of the same length, with the device of each element at the
/// element's place, and with the element's `type` as the device's `kind`.
/// An empty array is read as the empty list.
pub proof fn devices_keep_their_order(
    status: u16,
    body: Vec<u8>,
    document: Json,
    items: Seq<Json>,
)
    requires
        is_success(status),
        json_text(body@) == Some(document),
        member_of(document, "devices"@) == Some(Json::Array(items)),
        all_devices(items),
    ensures
        devices_reading(Reply::Answered { status, body }) matches Ok(list) && list.len()
            == items.len() && forall|i: int|
            0 <= i < items.len() ==> device_of(items[i]) == Some(#[trigger] list[i])
                && text_member(items[i], "type"@) == Some(list[i].kind),
{
}

} // verus!
