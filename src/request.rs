//! The endpoint table and the requests built from it.
use vstd::prelude::*;
use crate::text::{decimal, decimal_of};

verus! {

/// An HTTP verb.
#[derive(Debug, Clone, Copy, PartialEq, Eq, Structural)]
pub enum Method {
    Get,
    Post,
    Put,
}

/// One operation of the remote API.
#[derive(Debug, Clone, Copy, PartialEq, Eq, Structural)]
pub enum Endpoint {
    Login,
    CurrentUser,
    Mkdir,
    Rename,
    FormUpload,
    StreamUpload,
    List,
    Get,
    Search,
    Dirs,
    BatchRename,
    RegexRename,
    Move,
    RecursiveMove,
    Copy,
    Remove,
    RemoveEmptyDirectory,
    AddAria2,
    AddQbit,
    Ping,
    Settings,
}

impl Endpoint {
    /// The verb of the endpoint.
    pub open spec fn spec_method(self) -> Method {
        match self {
            Endpoint::CurrentUser | Endpoint::Ping | Endpoint::Settings => Method::Get,
            Endpoint::FormUpload | Endpoint::StreamUpload => Method::Put,
            _ => Method::Post,
        }
    }

    /// Whether the endpoint wants the session token.
    pub open spec fn spec_requires_auth(self) -> bool {
        !(self is Login || self is Ping || self is Settings)
    }

    /// The path of the endpoint, to be appended to the server's base URL.
    pub open spec fn spec_path(self) -> Seq<char> {
        match self {
            Endpoint::Login => "/api/auth/login/hash"@,
            Endpoint::CurrentUser => "/api/me"@,
            Endpoint::Mkdir => "/api/fs/mkdir"@,
            Endpoint::Rename => "/api/fs/rename"@,
            Endpoint::FormUpload => "/api/fs/form"@,
            Endpoint::StreamUpload => "/api/fs/put"@,
            Endpoint::List => "/api/fs/list"@,
            Endpoint::Get => "/api/fs/get"@,
            Endpoint::Search => "/api/fs/search"@,
            Endpoint::Dirs => "/api/fs/dirs"@,
            Endpoint::BatchRename => "/api/fs/batch_rename"@,
            Endpoint::RegexRename => "/api/fs/regex_rename"@,
            Endpoint::Move => "/api/fs/move"@,
            Endpoint::RecursiveMove => "/api/fs/recursive_move"@,
            Endpoint::Copy => "/api/fs/copy"@,
            Endpoint::Remove => "/api/fs/remove"@,
            Endpoint::RemoveEmptyDirectory => "/api/fs/remove_empty_directory"@,
            Endpoint::AddAria2 => "/api/fs/add_aria2"@,
            Endpoint::AddQbit => "/api/fs/add_qbit"@,
            Endpoint::Ping => "/ping"@,
            Endpoint::Settings => "/api/public/settings"@,
        }
    }

    /// The verb of the endpoint.
    pub fn method(&self) -> (r: Method)
        ensures
            r == self.spec_method(),
    {
        match self {
            Endpoint::CurrentUser | Endpoint::Ping | Endpoint::Settings => Method::Get,
            Endpoint::FormUpload | Endpoint::StreamUpload => Method::Put,
            _ => Method::Post,
        }
    }

    /// Whether the endpoint wants the session token.
    pub fn requires_auth(&self) -> (r: bool)
        ensures
            r == self.spec_requires_auth(),
    {
        match self {
            Endpoint::Login | Endpoint::Ping | Endpoint::Settings => false,
            _ => true,
        }
    }

    /// The path of the endpoint.
    pub fn path(&self) -> (r: &'static str)
        ensures
            r@ == self.spec_path(),
    {
        match self {
            Endpoint::Login => "/api/auth/login/hash",
            Endpoint::CurrentUser => "/api/me",
            Endpoint::Mkdir => "/api/fs/mkdir",
            Endpoint::Rename => "/api/fs/rename",
            Endpoint::FormUpload => "/api/fs/form",
            Endpoint::StreamUpload => "/api/fs/put",
            Endpoint::List => "/api/fs/list",
            Endpoint::Get => "/api/fs/get",
            Endpoint::Search => "/api/fs/search",
            Endpoint::Dirs => "/api/fs/dirs",
            Endpoint::BatchRename => "/api/fs/batch_rename",
            Endpoint::RegexRename => "/api/fs/regex_rename",
            Endpoint::Move => "/api/fs/move",
            Endpoint::RecursiveMove => "/api/fs/recursive_move",
            Endpoint::Copy => "/api/fs/copy",
            Endpoint::Remove => "/api/fs/remove",
            Endpoint::RemoveEmptyDirectory => "/api/fs/remove_empty_directory",
            Endpoint::AddAria2 => "/api/fs/add_aria2",
            Endpoint::AddQbit => "/api/fs/add_qbit",
            Endpoint::Ping => "/ping",
            Endpoint::Settings => "/api/public/settings",
        }
    }
}

/// What a request carries after its headers.
#[derive(Debug)]
pub enum Body {
    /// No body.
    Empty,
    /// A JSON text.
    Json(String),
    /// The bytes of a local file, streamed; `size` is announced up front.
    File { path: String, size: u64 },
}

/// A request ready to be sent.
#[derive(Debug)]
pub struct HttpRequest {
    pub method: Method,
    pub url: String,
    /// Header names and values, in the order they are sent.
    pub headers: Vec<(String, String)>,
    pub body: Body,
}

/// Headers as pairs of character sequences.
pub open spec fn header_pairs(headers: Seq<(String, String)>) -> Seq<(Seq<char>, Seq<char>)> {
    headers.map_values(|h: (String, String)| (h.0@, h.1@))
}

/// The authorization header, carrying the token as it is, for the endpoints
/// that want one; nothing for the others.
pub open spec fn auth_headers(ep: Endpoint, token: Seq<char>) -> Seq<(Seq<char>, Seq<char>)> {
    if ep.spec_requires_auth() {
        seq![("Authorization"@, token)]
    } else {
        Seq::empty()
    }
}

/// Verb, URL and authorization of a request to `ep` on `server`.
pub open spec fn addressed(r: HttpRequest, server: Seq<char>, ep: Endpoint) -> bool {
    &&& r.method == ep.spec_method()
    &&& r.url@ == server + ep.spec_path()
}

/// A request to `ep` with no body.
pub open spec fn is_plain_request(r: HttpRequest, server: Seq<char>, token: Seq<char>, ep: Endpoint) -> bool {
    &&& addressed(r, server, ep)
    &&& header_pairs(r.headers@) == auth_headers(ep, token)
    &&& r.body is Empty
}

/// A request to `ep` whose body is the JSON text `json`.
pub open spec fn is_json_request(
    r: HttpRequest,
    server: Seq<char>,
    token: Seq<char>,
    ep: Endpoint,
    json: Seq<char>,
) -> bool {
    &&& addressed(r, server, ep)
    &&& header_pairs(r.headers@) == auth_headers(ep, token) + seq![
        ("Content-Type"@, "application/json"@),
    ]
    &&& r.body matches Body::Json(b) && b@ == json
}

/// A request to `ep` that streams the local file `file`, announcing `size` bytes.
pub open spec fn is_file_request(
    r: HttpRequest,
    server: Seq<char>,
    token: Seq<char>,
    ep: Endpoint,
    file: Seq<char>,
    size: u64,
) -> bool {
    &&& addressed(r, server, ep)
    &&& header_pairs(r.headers@) == auth_headers(ep, token) + seq![
        ("Content-Type"@, "multipart/form-data"@),
        ("Content-Length"@, decimal_of(size as nat)),
    ]
    &&& r.body matches Body::File { path, size: n } && path@ == file && n == size
}

/// The URL of `ep` on `server`.
pub fn endpoint_url(server: &str, ep: Endpoint) -> (r: String)
    ensures
        r@ == server@ + ep.spec_path(),
{
    let mut url = server.to_owned();
    url.append(ep.path());
    url
}

fn push_header(headers: &mut Vec<(String, String)>, name: &str, value: String)
    ensures
        header_pairs(final(headers)@) == header_pairs(old(headers)@).push((name@, value@)),
{
    headers.push((name.to_owned(), value));
    assert(header_pairs(final(headers)@) =~= header_pairs(old(headers)@).push((name@, value@)));
}

fn start_headers(ep: Endpoint, token: &str) -> (r: Vec<(String, String)>)
    ensures
        header_pairs(r@) == auth_headers(ep, token@),
{
    let mut headers: Vec<(String, String)> = Vec::new();
    assert(header_pairs(headers@) =~= Seq::empty());
    if ep.requires_auth() {
        push_header(&mut headers, "Authorization", token.to_owned());
        assert(header_pairs(headers@) =~= auth_headers(ep, token@));
    }
    headers
}

/// A request to `ep` with no body. The token is attached as it is when the
/// endpoint wants it, and left out otherwise.
pub fn plain_request(server: &str, token: &str, ep: Endpoint) -> (r: HttpRequest)
    ensures
        is_plain_request(r, server@, token@, ep),
{
    HttpRequest {
        method: ep.method(),
        url: endpoint_url(server, ep),
        headers: start_headers(ep, token),
        body: Body::Empty,
    }
}

/// A request to `ep` whose body is the JSON text `json`.
pub fn json_request(server: &str, token: &str, ep: Endpoint, json: String) -> (r: HttpRequest)
    ensures
        is_json_request(r, server@, token@, ep, json@),
{
    let mut headers = start_headers(ep, token);
    push_header(&mut headers, "Content-Type", "application/json".to_owned());
    let r = HttpRequest {
        method: ep.method(),
        url: endpoint_url(server, ep),
        headers,
        body: Body::Json(json),
    };
    assert(header_pairs(r.headers@) =~= auth_headers(ep, token@) + seq![
        ("Content-Type"@, "application/json"@),
    ]);
    r
}

/// A request to `ep` that streams the local file `file`, announcing `size` bytes.
pub fn file_request(server: &str, token: &str, ep: Endpoint, file: &str, size: u64) -> (r: HttpRequest)
    ensures
        is_file_request(r, server@, token@, ep, file@, size),
{
    let mut headers = start_headers(ep, token);
    push_header(&mut headers, "Content-Type", "multipart/form-data".to_owned());
    push_header(&mut headers, "Content-Length", decimal(size));
    let r = HttpRequest {
        method: ep.method(),
        url: endpoint_url(server, ep),
        headers,
        body: Body::File { path: file.to_owned(), size },
    };
    assert(header_pairs(r.headers@) =~= auth_headers(ep, token@) + seq![
        ("Content-Type"@, "multipart/form-data"@),
        ("Content-Length"@, decimal_of(size as nat)),
    ]);
    r
}

} // verus!
