//! The response envelope that every endpoint answers with, and the rule that
//! turns it into a payload or an error.
use vstd::prelude::*;

verus! {

/// The status code of a successful envelope.
pub const SUCCESS_CODE: isize = 200;

/// The diagnostic of a successful envelope that carries no payload.
pub const MISSING_DATA: &'static str = "successful response carries no data";

/// The `{code, message, data}` wrapper of every response.
#[derive(Debug)]
pub struct Response<Data> {
    pub code: isize,
    pub message: String,
    pub data: Option<Data>,
}

/// The payload of endpoints that answer with no data.
#[derive(Debug, Clone, Copy, PartialEq, Eq, Structural)]
pub struct NullResponse;

/// Why a call failed.
#[derive(Debug)]
pub enum ApiError {
    /// The request could not be sent or no response came back.
    Transport(String),
    /// Bytes came back that are not a well-formed envelope, or a successful
    /// envelope without its payload.
    MalformedResponse(String),
    /// The server answered with a well-formed envelope that reports failure.
    Remote { code: isize, message: String },
    /// A local file could not be opened or read.
    LocalIo(String),
}

/// The side on which a call failed.
#[derive(Debug, Clone, Copy, PartialEq, Eq, Structural)]
pub enum ErrorKind {
    Transport,
    MalformedResponse,
    Remote,
    LocalIo,
}

impl ApiError {
    /// The text an error carries: the server's message for a remote error,
    /// the diagnostic otherwise.
    pub open spec fn spec_message(&self) -> Seq<char> {
        match self {
            ApiError::Transport(m) => m@,
            ApiError::MalformedResponse(m) => m@,
            ApiError::Remote { message, .. } => message@,
            ApiError::LocalIo(m) => m@,
        }
    }

    /// The side on which the call failed.
    pub open spec fn spec_kind(&self) -> ErrorKind {
        match self {
            ApiError::Transport(_) => ErrorKind::Transport,
            ApiError::MalformedResponse(_) => ErrorKind::MalformedResponse,
            ApiError::Remote { .. } => ErrorKind::Remote,
            ApiError::LocalIo(_) => ErrorKind::LocalIo,
        }
    }

    /// The text the error carries.
    pub fn message(&self) -> (r: String)
        ensures
            r@ == self.spec_message(),
    {
        match self {
            ApiError::Transport(m) => m.clone(),
            ApiError::MalformedResponse(m) => m.clone(),
            ApiError::Remote { message, .. } => message.clone(),
            ApiError::LocalIo(m) => m.clone(),
        }
    }

    /// The side on which the call failed.
    pub fn kind(&self) -> (r: ErrorKind)
        ensures
            r == self.spec_kind(),
    {
        match self {
            ApiError::Transport(_) => ErrorKind::Transport,
            ApiError::MalformedResponse(_) => ErrorKind::MalformedResponse,
            ApiError::Remote { .. } => ErrorKind::Remote,
            ApiError::LocalIo(_) => ErrorKind::LocalIo,
        }
    }
}

/// Whether `r` is the outcome that unwrapping owes for the decode result
/// `parsed`. A body that did not decode gives a malformed-response error
/// carrying the decoder's diagnostic.
pub open spec fn unwrapped<T>(parsed: Result<Response<T>, String>, r: Result<T, ApiError>) -> bool {
    match parsed {
        Err(diagnostic) => r == Err::<T, ApiError>(ApiError::MalformedResponse(diagnostic)),
        Ok(env) => if env.code == SUCCESS_CODE {
            match env.data {
                Some(d) => r == Ok::<T, ApiError>(d),
                None => r matches Err(ApiError::MalformedResponse(m)) && m@ == MISSING_DATA@,
            }
        } else {
            r == Err::<T, ApiError>(ApiError::Remote { code: env.code, message: env.message })
        },
    }
}

/// Turns a decoded envelope, or the diagnostic of a body that did not decode,
/// into the payload or an error.
pub fn unwrap_envelope<T>(parsed: Result<Response<T>, String>) -> (r: Result<T, ApiError>)
    ensures
        unwrapped(parsed, r),
{
    match parsed {
        Err(diagnostic) => Err(ApiError::MalformedResponse(diagnostic)),
        Ok(env) => {
            if env.code == SUCCESS_CODE {
                match env.data {
                    Some(d) => Ok(d),
                    None => Err(ApiError::MalformedResponse(MISSING_DATA.to_owned())),
                }
            } else {
                Err(ApiError::Remote { code: env.code, message: env.message })
            }
        },
    }
}

/// Whether `r` is the outcome owed for an endpoint that answers with no
/// payload: success exactly when the envelope decoded and its code is 200.
pub open spec fn unwrapped_unit(parsed: Result<Response<NullResponse>, String>, r: Result<(), ApiError>) -> bool {
    match parsed {
        Err(diagnostic) => r == Err::<(), ApiError>(ApiError::MalformedResponse(diagnostic)),
        Ok(env) => if env.code == SUCCESS_CODE {
            r == Ok::<(), ApiError>(())
        } else {
            r == Err::<(), ApiError>(ApiError::Remote { code: env.code, message: env.message })
        },
    }
}

/// Turns the envelope of an endpoint that answers with no payload into `()` or
/// an error. Such an envelope carries `null` as its data on success.
pub fn unwrap_unit_envelope(parsed: Result<Response<NullResponse>, String>) -> (r: Result<(), ApiError>)
    ensures
        unwrapped_unit(parsed, r),
{
    match parsed {
        Err(diagnostic) => Err(ApiError::MalformedResponse(diagnostic)),
        Ok(env) => {
            if env.code == SUCCESS_CODE {
                Ok(())
            } else {
                Err(ApiError::Remote { code: env.code, message: env.message })
            }
        },
    }
}

/// A successful envelope that carries a payload yields that payload unchanged.
pub proof fn lemma_success_yields_payload<T>(env: Response<T>, r: Result<T, ApiError>)
    requires
        env.code == SUCCESS_CODE,
        env.data is Some,
        unwrapped(Ok(env), r),
    ensures
        r == Ok::<T, ApiError>(env.data->Some_0),
{
}

/// A failed envelope yields a remote error whose message is the envelope's
/// message, exactly.
pub proof fn lemma_failure_keeps_message<T>(env: Response<T>, r: Result<T, ApiError>)
    requires
        env.code != SUCCESS_CODE,
        unwrapped(Ok(env), r),
    ensures
        r is Err,
        r->Err_0.spec_kind() == ErrorKind::Remote,
        r->Err_0.spec_message() == env.message@,
{
}

/// A failed envelope of an endpoint without payload yields a remote error whose
/// message is the envelope's message, exactly.
pub proof fn lemma_unit_failure_keeps_message(env: Response<NullResponse>, r: Result<(), ApiError>)
    requires
        env.code != SUCCESS_CODE,
        unwrapped_unit(Ok(env), r),
    ensures
        r is Err,
        r->Err_0.spec_kind() == ErrorKind::Remote,
        r->Err_0.spec_message() == env.message@,
{
}

} // verus!
