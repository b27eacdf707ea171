use alist_api::fs::{form_upload_request, put_upload_request};
use alist_api::public::{get_settings_request, ping_request};
use alist_api::request::{endpoint_url, json_request, plain_request, Body, Endpoint, Method};

#[test]
fn endpoint_table() {
    let table = [
        (Endpoint::Login, Method::Post, "/api/auth/login/hash", false),
        (Endpoint::CurrentUser, Method::Get, "/api/me", true),
        (Endpoint::Mkdir, Method::Post, "/api/fs/mkdir", true),
        (Endpoint::Rename, Method::Post, "/api/fs/rename", true),
        (Endpoint::FormUpload, Method::Put, "/api/fs/form", true),
        (Endpoint::StreamUpload, Method::Put, "/api/fs/put", true),
        (Endpoint::List, Method::Post, "/api/fs/list", true),
        (Endpoint::Get, Method::Post, "/api/fs/get", true),
        (Endpoint::Search, Method::Post, "/api/fs/search", true),
        (Endpoint::Dirs, Method::Post, "/api/fs/dirs", true),
        (Endpoint::BatchRename, Method::Post, "/api/fs/batch_rename", true),
        (Endpoint::RegexRename, Method::Post, "/api/fs/regex_rename", true),
        (Endpoint::Move, Method::Post, "/api/fs/move", true),
        (Endpoint::RecursiveMove, Method::Post, "/api/fs/recursive_move", true),
        (Endpoint::Copy, Method::Post, "/api/fs/copy", true),
        (Endpoint::Remove, Method::Post, "/api/fs/remove", true),
        (Endpoint::RemoveEmptyDirectory, Method::Post, "/api/fs/remove_empty_directory", true),
        (Endpoint::AddAria2, Method::Post, "/api/fs/add_aria2", true),
        (Endpoint::AddQbit, Method::Post, "/api/fs/add_qbit", true),
        (Endpoint::Ping, Method::Get, "/ping", false),
        (Endpoint::Settings, Method::Get, "/api/public/settings", false),
    ];
    for (ep, method, path, auth) in table {
        assert_eq!(ep.method(), method);
        assert_eq!(ep.path(), path);
        assert_eq!(ep.requires_auth(), auth);
    }
}

#[test]
fn url_is_server_then_path() {
    assert_eq!(endpoint_url("https://pan.example.com", Endpoint::List), "https://pan.example.com/api/fs/list");
}

#[test]
fn token_attached_verbatim_only_where_wanted() {
    let r = plain_request("http://h", "abc.def", Endpoint::CurrentUser);
    assert_eq!(r.headers, vec![("Authorization".to_string(), "abc.def".to_string())]);
    let r = plain_request("http://h", "abc.def", Endpoint::Ping);
    assert!(r.headers.is_empty());
    let r = json_request("http://h", "Bearer x", Endpoint::Mkdir, "{}".to_string());
    assert_eq!(
        r.headers,
        vec![
            ("Authorization".to_string(), "Bearer x".to_string()),
            ("Content-Type".to_string(), "application/json".to_string()),
        ]
    );
}

#[test]
fn public_requests() {
    let r = ping_request("http://h");
    assert_eq!(r.method, Method::Get);
    assert_eq!(r.url, "http://h/ping");
    assert!(r.headers.is_empty());
    let r = get_settings_request("http://h");
    assert_eq!(r.url, "http://h/api/public/settings");
    assert!(r.headers.is_empty());
}

#[test]
fn upload_announces_size() {
    let r = form_upload_request("http://h", "t", "/tmp/a.txt", 1234567);
    assert_eq!(r.method, Method::Put);
    assert_eq!(r.url, "http://h/api/fs/form");
    assert_eq!(
        r.headers,
        vec![
            ("Authorization".to_string(), "t".to_string()),
            ("Content-Type".to_string(), "multipart/form-data".to_string()),
            ("Content-Length".to_string(), "1234567".to_string()),
        ]
    );
    match r.body {
        Body::File { path, size } => {
            assert_eq!(path, "/tmp/a.txt");
            assert_eq!(size, 1234567);
        }
        other => panic!("unexpected body: {:?}", other),
    }
    let r = put_upload_request("http://h", "t", "x", 0);
    assert_eq!(r.url, "http://h/api/fs/put");
    assert_eq!(r.headers[2], ("Content-Length".to_string(), "0".to_string()));
}
