use alist_api::auth::{get_user_info_request, login_request, sha256, CREDENTIAL_SALT};
use alist_api::request::{Body, Method};

#[test]
fn credential_digest_known_values() {
    assert_eq!(sha256("123456"), "e166b45e39301021e897e3a6713e11171893217ad2901cf28c2c09c8d54e55d9");
    assert_eq!(sha256(""), "263d6a3a1bc3780769ef456641d81a41ea52b66dd25fe02b5959967fd852127d");
    assert_eq!(sha256("admin"), "6fcb57cd10b2c11d765dcf16148d99130afd895082af83725ee8bb181b1d2b0f");
    assert_eq!(sha256("pässwörd"), "6e08fcd918e41e2bf8f654e3665993f1f1e856e8a55aa986d6820b8d4ebb63d7");
}

#[test]
fn credential_digest_is_deterministic_and_shaped() {
    let corpus = ["", "a", "b", "123456", "1234567", "admin", "Admin", "pässwörd", CREDENTIAL_SALT];
    let digests: Vec<String> = corpus.iter().map(|p| sha256(p)).collect();
    for (p, d) in corpus.iter().zip(digests.iter()) {
        assert_eq!(&sha256(p), d);
        assert_eq!(d.len(), 64);
        assert!(d.chars().all(|c| c.is_ascii_digit() || ('a'..='f').contains(&c)));
    }
    for i in 0..digests.len() {
        for j in 0..digests.len() {
            if i != j {
                assert_ne!(digests[i], digests[j]);
            }
        }
    }
}

#[test]
fn login_request_shape() {
    let r = login_request("http://127.0.0.1:5244", "admin", "123456");
    assert_eq!(r.method, Method::Post);
    assert_eq!(r.url, "http://127.0.0.1:5244/api/auth/login/hash");
    assert_eq!(r.headers, vec![("Content-Type".to_string(), "application/json".to_string())]);
    match r.body {
        Body::Json(b) => assert_eq!(
            b,
            "{\"username\":\"admin\",\"password\":\"e166b45e39301021e897e3a6713e11171893217ad2901cf28c2c09c8d54e55d9\"}"
        ),
        other => panic!("unexpected body: {:?}", other),
    }
}

#[test]
fn user_info_request_shape() {
    let r = get_user_info_request("http://h", "tok en");
    assert_eq!(r.method, Method::Get);
    assert_eq!(r.url, "http://h/api/me");
    assert_eq!(r.headers, vec![("Authorization".to_string(), "tok en".to_string())]);
    assert!(matches!(r.body, Body::Empty));
}
