use vstd::prelude::*;

verus! {

/// Header name and value pairs of one request.
pub type Headers = Vec<(String, String)>;

/// Name of the header that carries the credentials of a request.
pub open spec fn authorization_name() -> Seq<char> {
    "Authorization"@
}

/// Value of the bearer authorization header for an access token.
pub open spec fn bearer_value(access_token: Seq<char>) -> Seq<char> {
    "Bearer "@ + access_token
}

/// A status code in the success range.
pub open spec fn is_success_status(status: u16) -> bool {
    200 <= status <= 299
}

#[verifier::external_type_specification]
#[verifier::external_body]
pub struct ExJsonValue(serde_json::Value);

/// Whether a text is one complete JSON document.
pub uninterp spec fn is_json_text(s: Seq<char>) -> bool;

/// Relies on `serde_json::from_str::<serde_json::Value>`: it succeeds exactly
/// on texts that are one JSON document (trailing whitespace allowed), which
/// depends on the characters alone; on failure the error's message is kept.
#[verifier::external_body]
fn parse_json(text: &str) -> (r: Result<serde_json::Value, String>)
    ensures
        r is Ok <==> is_json_text(text@),
{
    match serde_json::from_str::<serde_json::Value>(text) {
        Ok(v) => Ok(v),
        Err(e) => Err(e.to_string()),
    }
}

/// Failure of a request, as seen by the caller.
#[derive(Clone, Debug, PartialEq, Eq)]
pub enum ClientError {
    /// The service answered with a status outside the success range.
    StatusCode(u16, String),
    /// The call did not complete: name resolution, connection, timeout, or
    /// reading the body.
    Transport(String),
    /// A successful answer could not be decoded.
    Serialization(String),
}

/// Status line of an answer of the service.
#[derive(Clone, Debug, PartialEq, Eq)]
pub struct Response {
    pub status: u16,
    pub status_text: String,
}

impl Response {
    /// Whether the status is in the success range (200 to 299).
    pub fn ok(&self) -> (r: bool)
        ensures
            r == is_success_status(self.status),
    {
        200 <= self.status && self.status <= 299
    }
}

impl ClientError {
    /// The error for an answer with a status outside the success range.
    pub fn from_response(r: Response) -> (e: ClientError)
        ensures
            match e {
                ClientError::StatusCode(code, text) => code == r.status && text@
                    == r.status_text@,
                _ => false,
            },
    {
        ClientError::StatusCode(r.status, r.status_text)
    }
}

/// Decides what an answer of the backend means: `reply` is the status line
/// that arrived, or the reason the call did not complete. `Ok(())` means that
/// the body is to be read and handed to `read_body`.
pub fn check_reply(reply: Result<Response, String>) -> (r: Result<(), ClientError>)
    ensures
        match reply {
            Ok(resp) => if is_success_status(resp.status) {
                r is Ok
            } else {
                match r {
                    Err(ClientError::StatusCode(code, text)) => code == resp.status && text@
                        == resp.status_text@,
                    _ => false,
                }
            },
            Err(reason) => match r {
                Err(ClientError::Transport(m)) => m@ == reason@,
                _ => false,
            },
        },
{
    match reply {
        Ok(resp) => {
            if resp.ok() {
                Ok(())
            } else {
                Err(ClientError::from_response(resp))
            }
        },
        Err(reason) => Err(ClientError::Transport(reason)),
    }
}

/// The text of a successful answer, or a transport error when reading the
/// body failed.
pub fn read_body(read: Result<String, String>) -> (r: Result<String, ClientError>)
    ensures
        match read {
            Ok(body) => match r {
                Ok(text) => text@ == body@,
                _ => false,
            },
            Err(reason) => match r {
                Err(ClientError::Transport(m)) => m@ == reason@,
                _ => false,
            },
        },
{
    match read {
        Ok(body) => Ok(body),
        Err(reason) => Err(ClientError::Transport(reason)),
    }
}

/// Decodes the text of a successful answer as JSON; a text that is not one
/// JSON document gives a serialization error.
pub fn decode_body(text: &str) -> (r: Result<serde_json::Value, ClientError>)
    ensures
        r is Ok <==> is_json_text(text@),
        r is Err ==> r->Err_0 is Serialization,
{
    match parse_json(text) {
        Ok(v) => Ok(v),
        Err(msg) => Err(ClientError::Serialization(msg)),
    }
}

} // verus!
