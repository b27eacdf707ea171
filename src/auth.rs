//! Login and the current user.
//!
//! The password is never sent as it is: the server expects the SHA-256 digest
//! of the password followed by a fixed suffix, in lower-case hexadecimal. The
//! suffix is public, so this digest protects nothing at rest; it only matches
//! what the server compares against.
use vstd::prelude::*;
use crate::envelope::{ApiError, MISSING_DATA, Response, SUCCESS_CODE, unwrap_envelope};
use crate::json::{json_string_of, members_view, object_text, push_member, write_object, write_string};
use crate::request::{Endpoint, HttpRequest, is_json_request, is_plain_request, json_request, plain_request};
use crate::text::{is_lower_hex_char, lemma_lower_hex_shape, lower_hex_of, to_lower_hex};
use vstd::utf8::encode_utf8;

verus! {

/// The suffix appended to a password before it is digested.
pub const CREDENTIAL_SALT: &'static str = "-https://github.com/alist-org/alist";

/// The SHA-256 digest of a byte sequence.
pub uninterp spec fn sha256_of(bytes: Seq<u8>) -> Seq<u8>;

/// Relies on `sha2::Sha256::digest`: the 32-byte SHA-256 digest of the bytes.
#[verifier::external_body]
fn sha256_digest(bytes: &[u8]) -> (r: Vec<u8>)
    ensures
        r@ == sha256_of(bytes@),
        r@.len() == 32,
{
    <sha2::Sha256 as sha2::Digest>::digest(bytes).to_vec()
}

/// The value sent in place of `password`: the lower-case hexadecimal SHA-256
/// digest of the UTF-8 bytes of the password followed by the salt.
pub open spec fn credential_hash(password: Seq<char>) -> Seq<char> {
    lower_hex_of(sha256_of(encode_utf8(password + CREDENTIAL_SALT@)))
}

/// Digests a password the way the login endpoint expects.
pub fn sha256(value: &str) -> (r: String)
    ensures
        r@ == credential_hash(value@),
        r@.len() == 64,
        forall|i: int| 0 <= i < r@.len() ==> is_lower_hex_char(#[trigger] r@[i]),
{
    let mut salted = value.to_owned();
    salted.append(CREDENTIAL_SALT);
    let digest = sha256_digest(salted.as_str().as_bytes());
    proof {
        lemma_lower_hex_shape(digest@);
    }
    to_lower_hex(digest.as_slice())
}

/// Digesting is deterministic: the same password always gives the same value.
pub proof fn lemma_credential_hash_deterministic(a: Seq<char>, b: Seq<char>)
    requires
        a == b,
    ensures
        credential_hash(a) == credential_hash(b),
{
}

/// The JSON body of a login.
pub open spec fn login_body(username: Seq<char>, password: Seq<char>) -> Seq<char> {
    object_text(
        seq![
            ("username"@, json_string_of(username)),
            ("password"@, json_string_of(credential_hash(password))),
        ],
    )
}

/// The login request: the user name and the digest of the password, sent
/// without a token.
pub fn login_request(server: &str, username: &str, password: &str) -> (r: HttpRequest)
    ensures
        is_json_request(r, server@, Seq::empty(), Endpoint::Login, login_body(username@, password@)),
{
    let mut members: Vec<(String, String)> = Vec::new();
    push_member(&mut members, "username", write_string(username));
    let digest = sha256(password);
    push_member(&mut members, "password", write_string(digest.as_str()));
    let body = write_object(&members);
    proof {
        assert(members_view(members@) =~= seq![
            ("username"@, json_string_of(username@)),
            ("password"@, json_string_of(credential_hash(password@))),
        ]);
    }
    json_request(server, "", Endpoint::Login, body)
}

/// The payload of a successful login.
#[derive(Debug)]
pub struct AuthResponse {
    pub token: String,
}

/// Whether `r` is what a login owes for the decode result `parsed`: the token
/// when the envelope succeeded with a payload, and otherwise the error that
/// unwrapping the envelope gives.
pub open spec fn login_outcome(parsed: Result<Response<AuthResponse>, String>, r: Result<String, ApiError>) -> bool {
    match parsed {
        Err(diagnostic) => r == Err::<String, ApiError>(ApiError::MalformedResponse(diagnostic)),
        Ok(env) => if env.code == SUCCESS_CODE {
            match env.data {
                Some(a) => r == Ok::<String, ApiError>(a.token),
                None => r matches Err(ApiError::MalformedResponse(m)) && m@ == MISSING_DATA@,
            }
        } else {
            r == Err::<String, ApiError>(ApiError::Remote { code: env.code, message: env.message })
        },
    }
}

/// The session token of a login response.
pub fn login_token(parsed: Result<Response<AuthResponse>, String>) -> (r: Result<String, ApiError>)
    ensures
        login_outcome(parsed, r),
{
    match unwrap_envelope(parsed) {
        Ok(a) => Ok(a.token),
        Err(e) => Err(e),
    }
}

/// The account the token belongs to.
#[derive(Debug)]
pub struct UserInfo {
    pub id: i64,
    pub username: String,
    pub password: String,
    pub base_path: String,
    pub role: i64,
    pub disabled: bool,
    pub permission: i64,
    pub sso_id: String,
    pub otp: bool,
}

/// The request for the current user.
pub fn get_user_info_request(server: &str, token: &str) -> (r: HttpRequest)
    ensures
        is_plain_request(r, server@, token@, Endpoint::CurrentUser),
{
    plain_request(server, token, Endpoint::CurrentUser)
}

} // verus!
