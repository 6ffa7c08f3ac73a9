use vstd::prelude::*;
use vstd::string::*;
use vstd::utf8::encode_utf8;
use crate::errors::{JsonError, RequestError, StartupError};
use crate::json::{
    json_object_text, json_string_at, json_well_formed, members_view, object_text, Document,
};
use crate::multipart::{
    ascii_bytes, closing, closing_bytes, part_header, part_header_bytes,
};
use crate::push::{push_body, push_members_spec, PushData, PushTarget};

verus! {

#[verifier::external_type_specification]
#[verifier::external_body]
pub struct ExHeaderValue(http::header::HeaderValue);

/// Whether `c` may stand in an HTTP header value: tab, or no control character.
pub open spec fn header_char_ok(c: char) -> bool {
    c == '\t' || (c as u32 >= 32 && c as u32 != 127)
}

/// Whether `s` is a legal HTTP header value.
pub open spec fn header_value_ok(s: Seq<char>) -> bool {
    forall|i: int| 0 <= i < s.len() ==> header_char_ok(#[trigger] s[i])
}

/// Relies on `http::header::HeaderValue::from_str`: it refuses the value
/// exactly when one of its bytes is below 32 but for tab, or is 127; every
/// byte of a non-ASCII character is above 127.
pub assume_specification[ http::header::HeaderValue::from_str ](src: &str) -> (r: Result<
    http::header::HeaderValue,
    http::header::InvalidHeaderValue,
>)
    ensures
        r is Ok <==> header_value_ok(src@),
;

/// Root that every endpoint path is appended to.
pub const API_ROOT: &'static str = "https://api.pushbullet.com/v2/";

/// Header that carries the access token.
pub const TOKEN_HEADER: &'static str = "Access-Token";

/// Header that declares the body's media type.
pub const CONTENT_TYPE: &'static str = "Content-Type";

/// Media type of every JSON request body.
pub const JSON_TYPE: &'static str = "application/json";

/// Media type of an upload body, before its boundary parameter.
pub const MULTIPART_TYPE: &'static str = "multipart/form-data; boundary=";

/// Whether an HTTP status is a success (2xx).
pub open spec fn is_success(status: u16) -> bool {
    200 <= status <= 299
}

/// The application error object of a JSON document: the strings at
/// `error.code` and `error.message`, when both are there.
pub open spec fn server_error_of(bytes: Seq<u8>) -> Option<(Seq<char>, Seq<char>)> {
    match (json_string_at(bytes, "/error/code"@), json_string_at(bytes, "/error/message"@)) {
        (Some(code), Some(message)) => Some((code, message)),
        _ => None,
    }
}

/// Whether a response is a success: well-formed JSON, no application error
/// object, and a 2xx status.
pub open spec fn response_ok(status: u16, bytes: Seq<u8>) -> bool {
    json_well_formed(bytes) && server_error_of(bytes) is None && is_success(status)
}

/// The error that a response which is no success is classified as, in this
/// order: malformed JSON, application error object, failing status.
pub open spec fn classified_error(status: u16, bytes: Seq<u8>, e: RequestError) -> bool {
    if !json_well_formed(bytes) {
        e matches RequestError::Json { error: JsonError::Decode(_), bytes: b } && b@ == bytes
    } else if server_error_of(bytes) is Some {
        e matches RequestError::Server { code, message } && server_error_of(bytes) == Some(
            (code@, message@),
        )
    } else {
        e matches RequestError::Status { status: s, bytes: b } && s == status && b@ == bytes
    }
}

/// HTTP method of a request.
#[derive(Clone, Copy, Debug, PartialEq, Eq, Structural)]
pub enum Method {
    /// GET, with an empty body.
    Get,
    /// POST, with a JSON body.
    Post,
}

/// A request ready to be sent: method, absolute URL, headers and body.
#[derive(Debug)]
pub struct Request {
    /// HTTP method.
    pub method: Method,
    /// Absolute URL: the API root and the endpoint path.
    pub url: String,
    /// Header names and values, in order.
    pub headers: Vec<(String, String)>,
    /// Body text; sent with its length in bytes as Content-Length on a POST.
    pub body: String,
}

/// Whether `r` is the GET of endpoint `target` with access token `token`.
pub open spec fn is_get(r: Request, token: Seq<char>, target: Seq<char>) -> bool {
    &&& r.method == Method::Get
    &&& r.url@ == API_ROOT@ + target
    &&& members_view(r.headers@) == seq![(TOKEN_HEADER@, token)]
    &&& r.body@ == Seq::<char>::empty()
}

/// Whether `r` is the POST of the JSON text `body` to endpoint `target` with
/// access token `token`.
pub open spec fn is_post(r: Request, token: Seq<char>, target: Seq<char>, body: Seq<char>) -> bool {
    &&& r.method == Method::Post
    &&& r.url@ == API_ROOT@ + target
    &&& members_view(r.headers@) == seq![(TOKEN_HEADER@, token), (CONTENT_TYPE@, JSON_TYPE@)]
    &&& r.body@ == body
}

/// The JSON text of an upload request for a file name and type.
pub open spec fn upload_request_text(file_name: Seq<char>, file_type: Seq<char>) -> Seq<char> {
    json_object_text(seq![("file_name"@, file_name), ("file_type"@, file_type)])
}

/// A reserved upload slot, as the upload-request endpoint answers it.
#[derive(Debug)]
pub struct UploadSlot {
    /// File name that the server will use (it may truncate the one asked for).
    pub file_name: String,
    /// File type that the server will use.
    pub file_type: String,
    /// URL where the file will be served once uploaded.
    pub file_url: String,
    /// URL that the file is sent to.
    pub upload_url: String,
}

/// Result of a completed upload, ready for a file push. Only a completed
/// upload makes one.
#[derive(Debug)]
#[non_exhaustive]
pub struct UploadRequestResponse {
    /// File name that the server uses.
    pub file_name: String,
    /// File type that the server uses.
    pub file_type: String,
    /// URL where the file is served.
    pub file_url: String,
}

/// The transfer of a file into an upload slot: a multipart/form-data POST
/// whose body is `head`, then the file's bytes as they come, then `tail`,
/// so that the whole is a `single_file_body`.
#[derive(Debug)]
pub struct TransferRequest {
    /// The slot's upload URL.
    pub url: String,
    /// Header names and values, in order.
    pub headers: Vec<(String, String)>,
    /// Bytes before the file's bytes.
    pub head: Vec<u8>,
    /// Bytes after the file's bytes.
    pub tail: Vec<u8>,
}

/// The four strings of an upload slot in a JSON document, when all are there.
pub open spec fn upload_slot_of(bytes: Seq<u8>) -> Option<(Seq<char>, Seq<char>, Seq<char>, Seq<char>)> {
    match (
        json_string_at(bytes, "/file_name"@),
        json_string_at(bytes, "/file_type"@),
        json_string_at(bytes, "/file_url"@),
        json_string_at(bytes, "/upload_url"@),
    ) {
        (Some(a), Some(b), Some(c), Some(d)) => Some((a, b, c, d)),
        _ => None,
    }
}

/// PushBullet client: holds an access token that is a legal header value.
#[derive(Debug)]
pub struct Client {
    token: String,
}

impl View for Client {
    type V = Seq<char>;

    closed spec fn view(&self) -> Seq<char> {
        self.token@
    }
}

impl Clone for Client {
    fn clone(&self) -> (r: Client)
        ensures
            r@ == self@,
    {
        proof {
            use_type_invariant(self);
        }
        Client { token: self.token.clone() }
    }
}

fn header(name: &str, value: &str) -> (r: (String, String))
    ensures
        r.0@ == name@,
        r.1@ == value@,
{
    (String::from_str(name), String::from_str(value))
}

impl Client {
    #[verifier::type_invariant]
    spec fn token_is_header_value(&self) -> bool {
        header_value_ok(self.token@)
    }

    /// Creates a client with the given access token.
    pub fn new(token: &str) -> (r: Result<Client, StartupError>)
        ensures
            r is Ok <==> header_value_ok(token@),
            r matches Ok(c) ==> c@ == token@,
            r matches Err(e) ==> (e matches StartupError::InvalidToken(_, t) && t@ == token@),
    {
        match http::header::HeaderValue::from_str(token) {
            Ok(_) => Ok(Client { token: String::from_str(token) }),
            Err(e) => Err(StartupError::InvalidToken(e, String::from_str(token))),
        }
    }

    /// The GET of endpoint `target`.
    pub fn get(&self, target: &str) -> (r: Request)
        ensures
            is_get(r, self@, target@),
    {
        let url = String::from_str(API_ROOT).concat(target);
        let headers = vec![header(TOKEN_HEADER, self.token.as_str())];
        let r = Request { method: Method::Get, url, headers, body: String::new() };
        assert(members_view(r.headers@) =~= seq![(TOKEN_HEADER@, self@)]);
        r
    }

    /// The POST of the JSON text `body` to endpoint `target`.
    pub fn post(&self, target: &str, body: String) -> (r: Request)
        ensures
            is_post(r, self@, target@, body@),
    {
        let url = String::from_str(API_ROOT).concat(target);
        let headers = vec![header(TOKEN_HEADER, self.token.as_str()), header(CONTENT_TYPE, JSON_TYPE)];
        let r = Request { method: Method::Post, url, headers, body };
        assert(members_view(r.headers@) =~= seq![
            (TOKEN_HEADER@, self@),
            (CONTENT_TYPE@, JSON_TYPE@),
        ]);
        r
    }

    /// The request for the logged-in user's information.
    pub fn get_user(&self) -> (r: Request)
        ensures
            is_get(r, self@, "users/me"@),
    {
        self.get("users/me")
    }

    /// The request for the list of devices.
    pub fn list_devices(&self) -> (r: Request)
        ensures
            is_get(r, self@, "devices"@),
    {
        self.get("devices")
    }

    /// The request that pushes `data` to `target`: one flat JSON object.
    pub fn push(&self, target: PushTarget, data: PushData) -> (r: Request)
        ensures
            is_post(r, self@, "pushes"@, json_object_text(push_members_spec(target, data))),
    {
        self.post("pushes", push_body(target, data))
    }

    /// The request that reserves an upload slot for a file.
    pub fn upload_request(&self, file_name: &str, file_type: &str) -> (r: Request)
        ensures
            is_post(r, self@, "upload-request"@, upload_request_text(file_name@, file_type@)),
    {
        let members = vec![header("file_name", file_name), header("file_type", file_type)];
        assert(members_view(members@) =~= seq![
            ("file_name"@, file_name@),
            ("file_type"@, file_type@),
        ]);
        self.post("upload-request", object_text(&members))
    }

    /// The transfer of a file into `slot`, framed with `boundary` as the one
    /// part named `file`, declaring the slot's file name and type.
    pub fn upload_transfer(&self, slot: &UploadSlot, boundary: &str) -> (r: TransferRequest)
        ensures
            r.url@ == slot.upload_url@,
            members_view(r.headers@) == seq![
                (TOKEN_HEADER@, self@),
                (CONTENT_TYPE@, MULTIPART_TYPE@ + boundary@),
            ],
            r.head@ == part_header_bytes(
                encode_utf8(boundary@),
                ascii_bytes("file"@),
                encode_utf8(slot.file_name@),
                encode_utf8(slot.file_type@),
            ),
            r.tail@ == closing_bytes(encode_utf8(boundary@)),
    {
        let content_type = String::from_str(MULTIPART_TYPE).concat(boundary);
        let headers = vec![
            header(TOKEN_HEADER, self.token.as_str()),
            header(CONTENT_TYPE, content_type.as_str()),
        ];
        assert(members_view(headers@) =~= seq![
            (TOKEN_HEADER@, self@),
            (CONTENT_TYPE@, MULTIPART_TYPE@ + boundary@),
        ]);
        let head = part_header(boundary, "file", slot.file_name.as_str(), slot.file_type.as_str());
        let tail = closing(boundary);
        proof {
            reveal_strlit("file");
            broadcast use is_ascii_spec_bytes;
            assert(is_ascii("file"));
            assert("file".spec_bytes() =~= ascii_bytes("file"@));
        }
        TransferRequest { url: slot.upload_url.clone(), headers, head, tail }
    }

    /// The access token.
    pub fn token(&self) -> (r: &str)
        ensures
            r@ == self@,
            header_value_ok(r@),
    {
        proof {
            use_type_invariant(self);
        }
        self.token.as_str()
    }
}

/// Classifies a response by its status and body: malformed JSON first, then
/// an application error object (whatever the status), then a failing status;
/// otherwise the decoded document.
pub fn classify_response(status: u16, bytes: Vec<u8>) -> (r: Result<Document, RequestError>)
    ensures
        r is Ok <==> response_ok(status, bytes@),
        r matches Ok(d) ==> d@ == bytes@,
        r matches Err(e) ==> classified_error(status, bytes@, e),
{
    match Document::parse(bytes) {
        Err((error, bytes)) => Err(RequestError::Json { error: JsonError::Decode(error), bytes }),
        Ok(doc) => {
            let code = doc.string_at("/error/code");
            let message = doc.string_at("/error/message");
            match (code, message) {
                (Some(code), Some(message)) => Err(RequestError::Server { code, message }),
                _ => {
                    if 200 <= status && status <= 299 {
                        Ok(doc)
                    } else {
                        let (bytes, _) = doc.into_parts();
                        Err(RequestError::Status { status, bytes })
                    }
                },
            }
        },
    }
}

/// The result of a push, from its response; the body is discarded.
pub fn finish_push(status: u16, bytes: Vec<u8>) -> (r: Result<(), RequestError>)
    ensures
        r is Ok <==> response_ok(status, bytes@),
        r matches Err(e) ==> classified_error(status, bytes@, e),
{
    match classify_response(status, bytes) {
        Ok(_) => Ok(()),
        Err(e) => Err(e),
    }
}

fn missing_member_error(doc: Document, pointer: &str) -> (e: RequestError)
    ensures
        e matches RequestError::Json { error: JsonError::Missing(p), bytes: b } && b@ == doc@
            && p@ == pointer@,
{
    let (bytes, _) = doc.into_parts();
    RequestError::Json { error: JsonError::Missing(String::from_str(pointer)), bytes }
}

/// Reads the upload slot from the upload-request response. A success
/// response that lacks one of the slot's strings is a `Json` error naming
/// the first such member.
pub fn read_upload_slot(status: u16, bytes: Vec<u8>) -> (r: Result<UploadSlot, RequestError>)
    ensures
        r is Ok <==> response_ok(status, bytes@) && upload_slot_of(bytes@) is Some,
        r matches Ok(s) ==> upload_slot_of(bytes@) == Some(
            (s.file_name@, s.file_type@, s.file_url@, s.upload_url@),
        ),
        r matches Err(e) ==> if response_ok(status, bytes@) {
            e matches RequestError::Json { error: JsonError::Missing(p), bytes: b } && b@ == bytes@
                && json_string_at(bytes@, p@) is None
        } else {
            classified_error(status, bytes@, e)
        },
{
    let doc = match classify_response(status, bytes) {
        Ok(doc) => doc,
        Err(e) => return Err(e),
    };
    let file_name = match doc.string_at("/file_name") {
        Some(s) => s,
        None => return Err(missing_member_error(doc, "/file_name")),
    };
    let file_type = match doc.string_at("/file_type") {
        Some(s) => s,
        None => return Err(missing_member_error(doc, "/file_type")),
    };
    let file_url = match doc.string_at("/file_url") {
        Some(s) => s,
        None => return Err(missing_member_error(doc, "/file_url")),
    };
    let upload_url = match doc.string_at("/upload_url") {
        Some(s) => s,
        None => return Err(missing_member_error(doc, "/upload_url")),
    };
    Ok(UploadSlot { file_name, file_type, file_url, upload_url })
}

/// Completes an upload from the transfer's response: only its status counts,
/// and on success the slot's file name, type and URL are handed on.
pub fn finish_upload(slot: UploadSlot, status: u16, bytes: Vec<u8>) -> (r: Result<
    UploadRequestResponse,
    RequestError,
>)
    ensures
        r is Ok <==> is_success(status),
        r matches Ok(u) ==> u.file_name@ == slot.file_name@ && u.file_type@ == slot.file_type@
            && u.file_url@ == slot.file_url@,
        r matches Err(e) ==> (e matches RequestError::Status { status: s, bytes: b } && s == status
            && b@ == bytes@),
{
    if 200 <= status && status <= 299 {
        Ok(
            UploadRequestResponse {
                file_name: slot.file_name,
                file_type: slot.file_type,
                file_url: slot.file_url,
            },
        )
    } else {
        Err(RequestError::Status { status, bytes })
    }
}

} // verus!
