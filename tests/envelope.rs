use alist_api::envelope::{
    unwrap_envelope, unwrap_unit_envelope, ApiError, ErrorKind, MISSING_DATA,
};
use alist_api::auth::{login_token, AuthResponse};
use alist_api::fs::ListdirData;
use alist_api::{NullResponse, Response};

fn envelope<T>(code: isize, message: &str, data: Option<T>) -> Result<Response<T>, String> {
    Ok(Response { code, message: message.to_string(), data })
}

#[test]
fn success_returns_payload_unchanged() {
    let r = unwrap_envelope(envelope(200, "", Some(vec![1u8, 2, 3])));
    assert_eq!(r.unwrap(), vec![1u8, 2, 3]);
}

#[test]
fn failure_keeps_message_exactly() {
    let r = unwrap_envelope::<u32>(envelope(500, "token is expired", None));
    let e = r.unwrap_err();
    assert_eq!(e.kind(), ErrorKind::Remote);
    assert_eq!(e.message(), "token is expired");
    assert!(matches!(e, ApiError::Remote { code: 500, .. }));
}

#[test]
fn failure_ignores_stray_payload() {
    let r = unwrap_envelope(envelope(401, "bad", Some(7u32)));
    assert_eq!(r.unwrap_err().message(), "bad");
}

#[test]
fn success_without_payload_is_malformed() {
    let e = unwrap_envelope::<u32>(envelope(200, "", None)).unwrap_err();
    assert_eq!(e.kind(), ErrorKind::MalformedResponse);
    assert_eq!(e.message(), MISSING_DATA);
}

#[test]
fn undecodable_body_is_malformed() {
    let diagnostic = serde_json::from_str::<serde_json::Value>("not json").unwrap_err().to_string();
    let e = unwrap_unit_envelope(Err(diagnostic.clone())).unwrap_err();
    assert_eq!(e.kind(), ErrorKind::MalformedResponse);
    assert_eq!(e.message(), diagnostic);
}

#[test]
fn mkdir_malformed_body_is_not_a_crash() {
    let diagnostic = serde_json::from_slice::<serde_json::Value>(b"not json").unwrap_err().to_string();
    let r = unwrap_unit_envelope(Err(diagnostic));
    assert!(matches!(r, Err(ApiError::MalformedResponse(_))));
}

#[test]
fn unit_success_with_null_data() {
    assert!(unwrap_unit_envelope(envelope::<NullResponse>(200, "success", None)).is_ok());
    assert!(unwrap_unit_envelope(envelope(200, "", Some(NullResponse))).is_ok());
}

#[test]
fn unit_failure_keeps_message() {
    let e = unwrap_unit_envelope(envelope::<NullResponse>(403, "no permission", None)).unwrap_err();
    assert_eq!(e.kind(), ErrorKind::Remote);
    assert_eq!(e.message(), "no permission");
}

#[test]
fn listdir_denied_is_an_error_not_an_empty_listing() {
    let r = unwrap_envelope::<ListdirData>(envelope(403, "no permission", None));
    match r {
        Err(ApiError::Remote { code, message }) => {
            assert_eq!(code, 403);
            assert_eq!(message, "no permission");
        }
        other => panic!("unexpected outcome: {:?}", other),
    }
}

#[test]
fn login_yields_token() {
    let parsed = envelope(200, "", Some(AuthResponse { token: "abc".to_string() }));
    assert_eq!(login_token(parsed).unwrap(), "abc");
}

#[test]
fn login_rejected_keeps_message() {
    let parsed = envelope::<AuthResponse>(400, "password is incorrect", None);
    let e = login_token(parsed).unwrap_err();
    assert_eq!(e.kind(), ErrorKind::Remote);
    assert_eq!(e.message(), "password is incorrect");
}

#[test]
fn local_io_error_is_distinct_from_remote() {
    let local = ApiError::LocalIo("No such file or directory (os error 2)".to_string());
    let remote = ApiError::Remote { code: 500, message: "No such file or directory (os error 2)".to_string() };
    assert_eq!(local.kind(), ErrorKind::LocalIo);
    assert_ne!(local.kind(), remote.kind());
    assert_eq!(ApiError::Transport("refused".to_string()).kind(), ErrorKind::Transport);
}
