use crate::code::{code_error, validate_custom_code};
use crate::content::{has_content, is_blank};
use crate::error::ClientError;
use vstd::prelude::*;

verus! {

/// What is sent to the service: the text, and the custom code if one was given.
#[derive(Debug, PartialEq, Eq)]
pub struct PasteRequest {
    pub content: String,
    pub custom_code: Option<String>,
}

/// The request to make: where to send it and what to send.
#[derive(Debug, PartialEq, Eq)]
pub struct PasteCall {
    pub url: String,
    pub request: PasteRequest,
}

/// What the service answers when it has stored the paste.
#[derive(Debug, PartialEq, Eq)]
pub struct PasteResponse {
    pub code: String,
    pub url: String,
}

/// What the service answers when it refuses the paste.
#[derive(Debug, PartialEq, Eq)]
pub struct ErrorPayload {
    pub error: String,
}

/// A decoded reply of the service.
#[derive(Debug, PartialEq, Eq)]
pub enum Reply {
    /// The body of a reply with a success status.
    Created(PasteResponse),
    /// The body of a reply with any other status.
    Refused(ErrorPayload),
}

/// The server string names its scheme (it holds `://`).
pub open spec fn has_scheme(s: Seq<char>) -> bool {
    exists|i: int| 0 <= i && i + 3 <= s.len() && #[trigger] s[i] == ':' && s[i + 1] == '/' && s[i
        + 2] == '/'
}

/// The endpoint that pastes are posted to: the server string itself when it
/// names a scheme, else the server under `https://`, followed by `/api/paste`.
pub open spec fn api_url_of(server: Seq<char>) -> Seq<char> {
    if has_scheme(server) {
        server + "/api/paste"@
    } else {
        "https://"@ + server + "/api/paste"@
    }
}

fn chars_of(s: &str) -> (v: Vec<char>)
    ensures
        v@ == s@,
{
    let mut v: Vec<char> = Vec::new();
    for c in it: s.chars()
        invariant
            it.seq() == s@,
            v@ == s@.subrange(0, it.index() as int),
    {
        v.push(c);
        proof {
            assert(v@ =~= s@.subrange(0, it.index() as int + 1));
        }
    }
    assert(v@ =~= s@);
    v
}

fn contains_scheme(s: &str) -> (r: bool)
    ensures
        r == has_scheme(s@),
{
    let v = chars_of(s);
    let n = v.len();
    let mut i: usize = 0;
    while n >= 3 && i <= n - 3
        invariant
            v@ == s@,
            n == v.len(),
            n >= 3 ==> i <= n - 2,
            forall|j: int|
                0 <= j < i && j + 3 <= n ==> !(#[trigger] v@[j] == ':' && v@[j + 1] == '/' && v@[j
                    + 2] == '/'),
        decreases n - i,
    {
        if v[i] == ':' && v[i + 1] == '/' && v[i + 2] == '/' {
            return true;
        }
        i = i + 1;
    }
    false
}

/// Builds the endpoint URL for a server string.
pub fn api_url(server: &str) -> (r: String)
    ensures
        r@ == api_url_of(server@),
{
    if contains_scheme(server) {
        let mut r = String::from_str(server);
        r.append("/api/paste");
        r
    } else {
        let mut r = String::from_str("https://");
        r.append(server);
        r.append("/api/paste");
        r
    }
}

/// Why a paste is not sent: blank text first, then a custom code that breaks
/// a rule. `None` when the request can go out.
pub open spec fn paste_error(content: Seq<char>, custom_code: Option<Seq<char>>) -> Option<
    ClientError,
> {
    if is_blank(content) {
        Some(ClientError::EmptyContent)
    } else {
        match custom_code {
            Some(c) => code_error(c),
            None => None,
        }
    }
}

/// Blank text is never sent: whatever custom code comes with it, the paste
/// is refused for want of content before the code is even looked at.
pub proof fn lemma_blank_content_refused(content: Seq<char>, custom_code: Option<Seq<char>>)
    requires
        is_blank(content),
    ensures
        paste_error(content, custom_code) == Some(ClientError::EmptyContent),
{
}

/// Plans the one request that creates a paste. Blank text and a malformed
/// custom code are refused here, so that no request is made for them.
pub fn prepare_paste(content: String, custom_code: Option<String>, server: &str) -> (r: Result<
    PasteCall,
    ClientError,
>)
    ensures
        ({
            let err = paste_error(
                content@,
                match custom_code {
                    Some(c) => Some(c@),
                    None => None,
                },
            );
            match r {
                Ok(call) => err is None && call.url@ == api_url_of(server@) && call.request.content
                    == content && call.request.custom_code == custom_code,
                Err(e) => err == Some(e),
            }
        }),
{
    if !has_content(content.as_str()) {
        return Err(ClientError::EmptyContent);
    }
    match &custom_code {
        Some(c) => {
            match validate_custom_code(c.as_str()) {
                Ok(()) => {},
                Err(e) => {
                    return Err(e);
                },
            }
        },
        None => {},
    }
    let url = api_url(server);
    Ok(PasteCall { url, request: PasteRequest { content, custom_code } })
}

/// Whether an HTTP status reports success (the 2xx range); a reply with such
/// a status carries a `PasteResponse`, any other an `ErrorPayload`.
pub fn is_success_status(status: u16) -> (r: bool)
    ensures
        r == (200 <= status && status <= 299),
{
    200 <= status && status <= 299
}

/// The outcome of a decoded reply: the stored paste, or the service's own
/// message as an error.
pub fn settle_reply(reply: Reply) -> (r: Result<PasteResponse, ClientError>)
    ensures
        match reply {
            Reply::Created(p) => r == Ok::<PasteResponse, ClientError>(p),
            Reply::Refused(e) => r == Err::<PasteResponse, ClientError>(ClientError::Api(e.error)),
        },
{
    match reply {
        Reply::Created(p) => Ok(p),
        Reply::Refused(e) => Err(ClientError::Api(e.error)),
    }
}

} // verus!
