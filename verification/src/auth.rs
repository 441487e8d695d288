//! Which API requests are let through.
//!
//! Requests to the node plane, the health check and the static files of the web UI pass. So does
//! everything where no token is configured. Any other request has to carry the token.

use vstd::prelude::*;

use crate::text::{chars_of, ends_with, same_text, starts_with, trim};

verus! {

/// The request header that carries the token.
pub const TOKEN_HEADER: &'static str = "X-Pnos-Token";

/// The HTTP status of a refusal.
pub const UNAUTHORIZED: u16 = 401;

/// Why a request is refused.
#[derive(Debug, Clone, Copy, PartialEq, Eq, Structural)]
pub enum AuthError {
    /// The token is not the configured one.
    TokenInvalid,
    /// The request carries no token.
    Unauthorized,
}

/// The answer to a refused request. Its data is null.
#[derive(Debug, PartialEq)]
pub struct Refusal {
    pub status: u16,
    pub error: AuthError,
    pub message: String,
}

/// What becomes of a request.
#[derive(Debug, PartialEq)]
pub enum Decision {
    Pass,
    Refuse(Refusal),
}

/// Whether a path starts like one that needs no token.
pub open spec fn has_open_prefix(path: Seq<char>) -> bool {
    ||| "/health"@.is_prefix_of(path)
    ||| "/assets"@.is_prefix_of(path)
    ||| "/favicon"@.is_prefix_of(path)
    ||| "/torrents"@.is_prefix_of(path)
    ||| "/api/v1/agent/"@.is_prefix_of(path)
    ||| "/api/v1/realtime/ws"@.is_prefix_of(path)
    ||| "/api/v1/dispatches/claim"@.is_prefix_of(path)
    ||| "/api/v1/components/register"@.is_prefix_of(path)
    ||| "/api/v1/components/heartbeat"@.is_prefix_of(path)
    ||| "/api/v1/artifacts"@.is_prefix_of(path)
}

/// Whether a path is that of a node's configuration.
pub open spec fn is_node_config(path: Seq<char>) -> bool {
    "/api/v1/nodes/"@.is_prefix_of(path) && "/config.yaml"@.is_suffix_of(path)
}

/// Whether a path needs no token.
pub open spec fn whitelisted(path: Seq<char>) -> bool {
    path == "/"@ || has_open_prefix(path) || is_node_config(path)
}

/// Whether a header value consists of visible ASCII characters, spaces and tabs. Any other value
/// counts as missing.
pub open spec fn is_header_text(value: Seq<u8>) -> bool {
    forall|i: int|
        0 <= i < value.len() ==> 32 <= #[trigger] value[i] < 127 || value[i] == 9
}

/// The header values that count as carrying a token.
pub open spec fn carried(header: Option<&[u8]>) -> Option<Seq<u8>> {
    match header {
        Some(value) if is_header_text(value@) => Some(value@),
        _ => None,
    }
}

/// Why a request is refused, if it is. `expected` is the configured token without the white space
/// around it.
pub open spec fn refusal(
    path: Seq<char>,
    expected: Seq<char>,
    token: Option<Seq<u8>>,
) -> Option<AuthError> {
    if whitelisted(path) || expected.len() == 0 {
        None
    } else {
        match token {
            Some(t) if t == vstd::utf8::encode_utf8(expected) => None,
            Some(_) => Some(AuthError::TokenInvalid),
            None => Some(AuthError::Unauthorized),
        }
    }
}

/// The message of a refusal.
pub open spec fn refusal_message(error: AuthError) -> Seq<char> {
    match error {
        AuthError::TokenInvalid => "无效的认证 Token"@,
        AuthError::Unauthorized => "缺少 X-Pnos-Token 请求头"@,
    }
}

/// Whether `d` lets the request pass, or else answers it for the given reason.
pub open spec fn decides(d: Decision, error: Option<AuthError>) -> bool {
    match error {
        None => d is Pass,
        Some(e) => d matches Decision::Refuse(r) && r.status == UNAUTHORIZED && r.error == e
            && r.message@ == refusal_message(e),
    }
}

/// Whether a path needs no token.
pub fn is_whitelisted(path: &str) -> (r: bool)
    ensures
        r == whitelisted(path@),
{
    let p = chars_of(path);
    let p = p.as_slice();
    if same_text(path, "/") || starts_with(p, "/health") || starts_with(p, "/assets")
        || starts_with(p, "/favicon") || starts_with(p, "/torrents")
        || starts_with(p, "/api/v1/agent/") || starts_with(p, "/api/v1/realtime/ws")
        || starts_with(p, "/api/v1/dispatches/claim")
        || starts_with(p, "/api/v1/components/register")
        || starts_with(p, "/api/v1/components/heartbeat") || starts_with(p, "/api/v1/artifacts") {
        return true;
    }
    starts_with(p, "/api/v1/nodes/") && ends_with(p, "/config.yaml")
}

/// Whether a header value is text.
fn header_is_text(value: &[u8]) -> (r: bool)
    ensures
        r == is_header_text(value@),
{
    let mut i: usize = 0;
    while i < value.len()
        invariant
            i <= value@.len(),
            forall|j: int| 0 <= j < i ==> 32 <= #[trigger] value@[j] < 127 || value@[j] == 9,
        decreases value@.len() - i,
    {
        let b: u8 = value[i];
        if !((32 <= b && b < 127) || b == 9) {
            return false;
        }
        i = i + 1;
    }
    true
}

fn same_bytes(a: &[u8], b: &[u8]) -> (r: bool)
    ensures
        r == (a@ == b@),
{
    if a.len() != b.len() {
        return false;
    }
    let mut i: usize = 0;
    while i < a.len()
        invariant
            i <= a@.len() == b@.len(),
            forall|j: int| 0 <= j < i ==> a@[j] == b@[j],
        decreases a@.len() - i,
    {
        if a[i] != b[i] {
            return false;
        }
        i = i + 1;
    }
    assert(a@ =~= b@);
    true
}

fn refuse(error: AuthError) -> (r: Decision)
    ensures
        decides(r, Some(error)),
{
    let message = match error {
        AuthError::TokenInvalid => "无效的认证 Token".to_string(),
        AuthError::Unauthorized => "缺少 X-Pnos-Token 请求头".to_string(),
    };
    Decision::Refuse(Refusal { status: UNAUTHORIZED, error, message })
}

/// Decides on a request to `path` with the given value of the token header, where `token` is the
/// configured one.
pub fn auth_middleware(path: &str, token: &str, header: Option<&[u8]>) -> (r: Decision)
    ensures
        decides(r, refusal(path@, crate::text::trimmed(token@), carried(header))),
{
    if is_whitelisted(path) {
        return Decision::Pass;
    }
    let expected = trim(token);
    if expected.is_empty() {
        return Decision::Pass;
    }
    match header {
        Some(value) => {
            if header_is_text(value) {
                if same_bytes(value, expected.as_bytes()) {
                    Decision::Pass
                } else {
                    refuse(AuthError::TokenInvalid)
                }
            } else {
                refuse(AuthError::Unauthorized)
            }
        },
        None => refuse(AuthError::Unauthorized),
    }
}

} // verus!
