use alist_api::fs::{
    listdir_request, mkdir_request, remove_empty_directory_request, rename_request,
    BatchRegexRenameParams, BatchRenameParams, CopyParams, DeleteParams, FileParams, GetDirParams,
    MoveParams, OfflineTaskParams, RecursiveMoveParams, RegexRenameParams, RenameParams,
    SearchParams,
};
use alist_api::request::{Body, Method};

fn json_of(body: Body) -> String {
    match body {
        Body::Json(b) => b,
        other => panic!("not a JSON body: {:?}", other),
    }
}

#[test]
fn unset_options_are_omitted() {
    assert_eq!(FileParams::default().to_json(), "{}");
    let s = SearchParams { parent: "/".to_string(), keywords: "movie".to_string(), ..Default::default() };
    assert_eq!(s.to_json(), "{\"parent\":\"/\",\"keywords\":\"movie\"}");
    let g = GetDirParams { parent: "/a".to_string(), ..Default::default() };
    assert_eq!(g.to_json(), "{\"parent\":\"/a\"}");
}

#[test]
fn set_options_are_written() {
    let p = FileParams {
        path: Some("/x".to_string()),
        password: Some("pw".to_string()),
        page: Some(2),
        per_page: Some(30),
        refresh: Some(true),
    };
    assert_eq!(
        p.to_json(),
        "{\"path\":\"/x\",\"password\":\"pw\",\"page\":2,\"per_page\":30,\"refresh\":true}"
    );
    let p = FileParams { refresh: Some(false), ..Default::default() };
    assert_eq!(p.to_json(), "{\"refresh\":false}");
    let s = SearchParams {
        parent: "/".to_string(),
        keywords: "k".to_string(),
        scope: Some(2),
        page: Some(1),
        per_page: Some(100),
        password: None,
    };
    assert_eq!(s.to_json(), "{\"parent\":\"/\",\"keywords\":\"k\",\"scope\":2,\"page\":1,\"per_page\":100}");
    let g = GetDirParams {
        parent: "/".to_string(),
        page: None,
        per_page: None,
        password: Some("p".to_string()),
        force_root: Some("true".to_string()),
    };
    assert_eq!(g.to_json(), "{\"parent\":\"/\",\"password\":\"p\",\"force_root\":\"true\"}");
}

#[test]
fn strings_are_escaped() {
    let r = mkdir_request("http://h", "t", "/a \"b\"\\c\n");
    assert_eq!(json_of(r.body), "{\"path\":\"/a \\\"b\\\"\\\\c\\n\"}");
}

#[test]
fn bodies_parse_as_json() {
    let p = MoveParams {
        src_dir: "/a".to_string(),
        dst_dir: "/b\u{e9}".to_string(),
        names: vec!["x\"y".to_string(), "z".to_string()],
    };
    let v: serde_json::Value = serde_json::from_str(&p.to_json()).unwrap();
    assert_eq!(v["dst_dir"].as_str(), Some("/b\u{e9}"));
    assert_eq!(v["names"][0].as_str(), Some("x\"y"));
    assert_eq!(v["names"].as_array().map(|a| a.len()), Some(2));
}

#[test]
fn batch_bodies() {
    let m = MoveParams { src_dir: "/a".to_string(), dst_dir: "/b".to_string(), names: vec![] };
    assert_eq!(m.to_json(), "{\"src_dir\":\"/a\",\"dst_dir\":\"/b\",\"names\":[]}");
    let c = CopyParams { src_dir: "/a".to_string(), dst_dir: "/b".to_string(), names: vec!["1".to_string(), "2".to_string()] };
    assert_eq!(c.to_json(), "{\"src_dir\":\"/a\",\"dst_dir\":\"/b\",\"names\":[\"1\",\"2\"]}");
    let d = DeleteParams { dir: "/a".to_string(), names: vec!["f".to_string()] };
    assert_eq!(d.to_json(), "{\"dir\":\"/a\",\"names\":[\"f\"]}");
    let r = RecursiveMoveParams { src_dir: "/a".to_string(), dst_dir: "/b".to_string() };
    assert_eq!(r.to_json(), "{\"src_dir\":\"/a\",\"dst_dir\":\"/b\"}");
    let o = OfflineTaskParams { path: "/dl".to_string(), urls: vec!["magnet:?xt=1".to_string()] };
    assert_eq!(o.to_json(), "{\"path\":\"/dl\",\"urls\":[\"magnet:?xt=1\"]}");
}

#[test]
fn rename_bodies() {
    let b = BatchRenameParams {
        src_dir: "/d".to_string(),
        rename_objects: vec![
            RenameParams { src_name: "a".to_string(), new_name: "b".to_string() },
            RenameParams { src_name: "c".to_string(), new_name: "d".to_string() },
        ],
    };
    assert_eq!(
        b.to_json(),
        "{\"src_dir\":\"/d\",\"rename_objects\":[{\"src_name\":\"a\",\"new_name\":\"b\"},{\"src_name\":\"c\",\"new_name\":\"d\"}]}"
    );
    let e = BatchRenameParams { src_dir: "/d".to_string(), rename_objects: vec![] };
    assert_eq!(e.to_json(), "{\"src_dir\":\"/d\",\"rename_objects\":[]}");
    let x = BatchRegexRenameParams {
        src_dir: "/d".to_string(),
        rename_objects: vec![RegexRenameParams { src_name_regex: "^(.*)\\.txt$".to_string(), new_name_regex: "$1.md".to_string() }],
    };
    assert_eq!(
        x.to_json(),
        "{\"src_dir\":\"/d\",\"rename_objects\":[{\"src_name_regex\":\"^(.*)\\\\.txt$\",\"new_name_regex\":\"$1.md\"}]}"
    );
}

#[test]
fn endpoint_bodies() {
    let r = rename_request("http://h", "t", "/cloud/test_mkdir", "test_rename");
    assert_eq!(r.url, "http://h/api/fs/rename");
    assert_eq!(json_of(r.body), "{\"path\":\"/cloud/test_mkdir\",\"name\":\"test_rename\"}");
    let r = remove_empty_directory_request("http://h", "t", "/e");
    assert_eq!(r.url, "http://h/api/fs/remove_empty_directory");
    assert_eq!(json_of(r.body), "{\"src_dir\":\"/e\"}");
    let mut params = FileParams::default();
    params.path = Some("/cloud/test_rename".to_string());
    let r = listdir_request("http://h", "t", &params);
    assert_eq!(r.method, Method::Post);
    assert_eq!(r.url, "http://h/api/fs/list");
    assert_eq!(json_of(r.body), "{\"path\":\"/cloud/test_rename\"}");
}
