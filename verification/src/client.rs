//! What the HTTP client decides: its credentials, request URLs, and how a
//! response becomes data or an error.
use vstd::prelude::*;

use crate::config::ResolvedConfig;
use crate::error::{opt_view, res_view, CliError, ErrorV};
use crate::json::{get_spec, str_eq, Json, JsonV};
use crate::text::{decimal, trim_end_char, trim_end_matches_char, u64_to_string};
use vstd::string::StringSliceAdditionalSpecFns;

verus! {

/// A successful API response: its JSON body and HTTP status.
#[derive(Debug)]
pub struct ApiResponse {
    pub data: Json,
    pub status: u16,
}

/// The content of an [`ApiResponse`].
pub struct ResponseV {
    pub data: JsonV,
    pub status: u16,
}

impl View for ApiResponse {
    type V = ResponseV;

    open spec fn view(&self) -> ResponseV {
        ResponseV { data: self.data@, status: self.status }
    }
}

/// A byte that may stand in an HTTP header value: visible ASCII, tab, or any
/// byte from 128 up.
pub open spec fn header_byte_ok(b: u8) -> bool {
    (b >= 32 && b != 127) || b == 9
}

/// Whether every byte of a text may stand in a header value.
pub open spec fn header_text_ok(bytes: Seq<u8>) -> bool {
    forall|i: int| 0 <= i < bytes.len() ==> header_byte_ok(#[trigger] bytes[i])
}

/// `reqwest::header::HeaderValue::from_str(value).is_ok()`: the `http`
/// crate accepts a value exactly when each of its bytes passes
/// `header_byte_ok`.
#[verifier::external_body]
fn header_value_accepted(value: &str) -> (r: bool)
    ensures
        r == header_text_ok(value.spec_bytes()),
{
    reqwest::header::HeaderValue::from_str(value).is_ok()
}

/// The error for a missing API key.
pub open spec fn missing_auth_error() -> ErrorV {
    ErrorV::Api {
        code: "ERR_MISSING_AUTH"@,
        message: "No API key configured"@,
        status: 401,
        request_id: None,
        meta: None,
    }
}

/// The text of the error for a key that cannot be sent in a header.
pub open spec fn bad_key_message() -> Seq<char> {
    "The API key contains invalid header characters"@
}

/// The `Authorization` header the client sends for a key: `Bearer <key>`,
/// refused when the key is empty or cannot stand in a header.
pub open spec fn authorization_spec(api_key: Seq<char>) -> Result<Seq<char>, ErrorV> {
    if api_key.len() == 0 {
        Err(missing_auth_error())
    } else if !header_text_ok(vstd::utf8::encode_utf8("Bearer "@ + api_key)) {
        Err(ErrorV::Config(bad_key_message()))
    } else {
        Ok("Bearer "@ + api_key)
    }
}

/// Checks the client's credentials and gives its `Authorization` header.
pub fn authorization_header(config: &ResolvedConfig) -> (r: Result<String, CliError>)
    ensures
        res_view(r) == authorization_spec(config.api_key@),
{
    if config.api_key.as_str().unicode_len() == 0 {
        return Err(CliError::Api {
            code: String::from_str("ERR_MISSING_AUTH"),
            message: String::from_str("No API key configured"),
            status: 401,
            request_id: None,
            meta: None,
        });
    }
    let mut header = String::from_str("Bearer ");
    header.append(config.api_key.as_str());
    if !header_value_accepted(header.as_str()) {
        return Err(CliError::Config(String::from_str("The API key contains invalid header characters")));
    }
    Ok(header)
}

/// The text of the error for a command that needs a project.
pub open spec fn project_required_message() -> Seq<char> {
    "--project-id is required. Set a default with: llmpulse config set default_project_id <id>"@
}

/// The project a command works on; required.
pub fn project_id(project: Option<u64>) -> (r: Result<u64, CliError>)
    ensures
        r matches Ok(id) ==> project == Some(id),
        r matches Err(e) ==> project is None && e@ == ErrorV::Usage(project_required_message()),
        project is Some ==> r is Ok,
{
    match project {
        Some(id) => Ok(id),
        None => Err(CliError::Usage(String::from_str(
            "--project-id is required. Set a default with: llmpulse config set default_project_id <id>",
        ))),
    }
}

/// The URL of an API path: the base URL without trailing slashes, then the
/// path.
pub fn request_url(base_url: &str, path: &str) -> (r: String)
    ensures
        r@ == trim_end_char(base_url@, '/') + path@,
{
    let mut url = trim_end_matches_char(base_url, '/');
    url.append(path);
    url
}

/// What came back as the body of a response.
#[derive(Debug)]
pub enum ResponseBody {
    /// No bytes.
    Empty,
    /// A JSON document.
    Parsed(Json),
    /// Bytes that are not JSON; the text is the parser's message.
    Invalid(String),
}

/// A status in the 2xx range.
pub open spec fn is_success(status: u16) -> bool {
    200 <= status && status <= 299
}

/// The reason phrase `reqwest::StatusCode::canonical_reason` gives a status
/// code, if the code is valid and has one.
pub uninterp spec fn canonical_reason(status: u16) -> Option<Seq<char>>;

/// `StatusCode::from_u16(status)` followed by `canonical_reason()`.
#[verifier::external_body]
fn status_reason(status: u16) -> (r: Option<&'static str>)
    ensures
        r is None <==> canonical_reason(status) is None,
        r matches Some(t) ==> canonical_reason(status) == Some(t@),
{
    match reqwest::StatusCode::from_u16(status) {
        Ok(code) => code.canonical_reason(),
        Err(_) => None,
    }
}

/// The text shown for a status: its reason phrase, or `Unknown status`.
pub open spec fn status_text_spec(status: u16) -> Seq<char> {
    match canonical_reason(status) {
        Some(t) => t,
        None => "Unknown status"@,
    }
}

/// A member that is a string.
pub open spec fn str_member(value: Option<JsonV>, key: Seq<char>) -> Option<Seq<char>> {
    match value {
        Some(v) => match get_spec(v, key) {
            Some(JsonV::Str(s)) => Some(s),
            _ => None,
        },
        None => None,
    }
}

/// The body's data: an empty object for an empty body.
pub open spec fn body_data(body: ResponseBody) -> Option<JsonV> {
    match body {
        ResponseBody::Empty => Some(JsonV::Object(Seq::empty())),
        ResponseBody::Parsed(j) => Some(j@),
        ResponseBody::Invalid(_) => None,
    }
}

/// What a response with this data gives: the data for a status in the 2xx
/// range; otherwise an API error built from the data's `error.code`,
/// `error.message`, `request_id` and `error.meta` (code `HTTP_<status>` and
/// the status text when they are missing).
pub open spec fn data_result_spec(status: u16, status_text: Seq<char>, data: JsonV) -> Result<ResponseV, ErrorV> {
    if is_success(status) {
        Ok(ResponseV { data, status })
    } else {
        let error = get_spec(data, "error"@);
        Err(ErrorV::Api {
            code: match str_member(error, "code"@) {
                Some(c) => c,
                None => "HTTP_"@ + decimal(status as nat),
            },
            message: match str_member(error, "message"@) {
                Some(m) => m,
                None => status_text,
            },
            status,
            request_id: match get_spec(data, "request_id"@) {
                Some(JsonV::Str(r)) => Some(r),
                _ => None,
            },
            meta: match error {
                Some(e) => get_spec(e, "meta"@),
                None => None,
            },
        })
    }
}

/// The error for a body that is not JSON; `m` is the reader's message.
pub open spec fn non_json_error(status: u16, m: Seq<char>) -> ErrorV {
    ErrorV::Api {
        code: "HTTP_"@ + decimal(status as nat),
        message: "The API returned a non-JSON response: "@ + m,
        status,
        request_id: None,
        meta: None,
    }
}

/// What a response gives: a body that is not JSON is an error; an empty body
/// counts as an empty object; otherwise as [`data_result_spec`].
pub open spec fn api_result_spec(status: u16, status_text: Seq<char>, body: ResponseBody) -> Result<ResponseV, ErrorV> {
    match body {
        ResponseBody::Invalid(m) => Err(non_json_error(status, m@)),
        _ => data_result_spec(status, status_text, body_data(body)->Some_0),
    }
}

/// What a response with these body bytes gives: no bytes count as an empty
/// object; other bytes are read as JSON.
pub open spec fn bytes_result_spec(status: u16, bytes: Seq<u8>) -> Result<ResponseV, ErrorV> {
    if bytes.len() == 0 {
        data_result_spec(status, status_text_spec(status), JsonV::Object(Seq::empty()))
    } else {
        match crate::json_io::parsed_json_bytes(bytes) {
            Ok(data) => data_result_spec(status, status_text_spec(status), data),
            Err(m) => Err(non_json_error(status, m)),
        }
    }
}

/// A string member of an optional value.
fn string_member(value: Option<&Json>, key: &str) -> (r: Option<String>)
    ensures
        opt_view(r) == str_member(
            match value {
                Some(v) => Some(v@),
                None => None,
            },
            key@,
        ),
{
    match value {
        Some(v) => match v.get(key) {
            Some(Json::String(s)) => Some(s.clone()),
            _ => None,
        },
        None => None,
    }
}

/// `HTTP_<status>`.
fn http_code(status: u16) -> (r: String)
    ensures
        r@ == "HTTP_"@ + decimal(status as nat),
{
    let mut code = String::from_str("HTTP_");
    code.append(u64_to_string(status as u64).as_str());
    code
}

/// Turns a response into data or an error, given the status text.
pub fn api_result(status: u16, status_text: &str, body: ResponseBody) -> (r: Result<ApiResponse, CliError>)
    ensures
        res_view(r) == api_result_spec(status, status_text@, body),
{
    let ghost original = body;
    let data = match body {
        ResponseBody::Invalid(m) => {
            let mut message = String::from_str("The API returned a non-JSON response: ");
            message.append(m.as_str());
            return Err(CliError::Api {
                code: http_code(status),
                message,
                status,
                request_id: None,
                meta: None,
            });
        },
        ResponseBody::Empty => {
            let d = Json::Object(Vec::new());
            assert(d@ == JsonV::Object(Seq::empty())) by {
                assert(d@->Object_0 =~= Seq::<(Seq<char>, JsonV)>::empty());
            }
            d
        },
        ResponseBody::Parsed(j) => j,
    };
    assert(data@ == body_data(original)->Some_0);
    if 200 <= status && status <= 299 {
        return Ok(ApiResponse { data, status });
    }
    let error = data.get("error");
    let code = match string_member(error, "code") {
        Some(c) => c,
        None => http_code(status),
    };
    let message = match string_member(error, "message") {
        Some(m) => m,
        None => String::from_str(status_text),
    };
    let request_id = match data.get("request_id") {
        Some(Json::String(r)) => Some(r.clone()),
        _ => None,
    };
    let meta = match error {
        Some(e) => match e.get("meta") {
            Some(m) => Some(m.duplicate()),
            None => None,
        },
        None => None,
    };
    Err(CliError::Api { code, message, status, request_id, meta })
}

/// Turns a response into data or an error.
pub fn interpret_response(status: u16, body: ResponseBody) -> (r: Result<ApiResponse, CliError>)
    ensures
        res_view(r) == api_result_spec(status, status_text_spec(status), body),
{
    let text = match status_reason(status) {
        Some(t) => t,
        None => "Unknown status",
    };
    api_result(status, text, body)
}

/// Turns a response's status and body bytes into data or an error.
pub fn interpret_bytes(status: u16, bytes: &Vec<u8>) -> (r: Result<ApiResponse, CliError>)
    ensures
        res_view(r) == bytes_result_spec(status, bytes@),
{
    let body = if bytes.len() == 0 {
        ResponseBody::Empty
    } else {
        match crate::json_io::read_json_bytes(bytes) {
            Ok(data) => ResponseBody::Parsed(data),
            Err(m) => ResponseBody::Invalid(m),
        }
    };
    interpret_response(status, body)
}

} // verus!
