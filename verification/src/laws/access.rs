//! Laws of the access control.

use vstd::prelude::*;

use crate::auth::{AuthError, Decision};

verus! {

/// A path that needs no token passes, whatever token is configured and whatever is sent.
pub proof fn law_open_paths_pass(path: Seq<char>, expected: Seq<char>, token: Option<Seq<u8>>)
    requires
        crate::auth::whitelisted(path),
    ensures
        crate::auth::refusal(path, expected, token) is None,
{
}

/// Where the configured token is blank, every request passes.
pub proof fn law_development_mode(path: Seq<char>, configured: Seq<char>, token: Option<Seq<u8>>)
    requires
        forall|i: int|
            0 <= i < configured.len() ==> crate::text::is_white_space(#[trigger] configured[i]),
    ensures
        crate::auth::refusal(path, crate::text::trimmed(configured), token) is None,
{
    crate::laws::values::law_blank_trims_to_nothing(configured);
}

/// Any other request passes exactly if it carries the configured token. A request without a token
/// and one with another token are refused for different reasons.
pub proof fn law_token_decides(path: Seq<char>, expected: Seq<char>, token: Option<Seq<u8>>)
    requires
        !crate::auth::whitelisted(path),
        expected.len() > 0,
    ensures
        crate::auth::refusal(path, expected, token) is None <==> token == Some(
            vstd::utf8::encode_utf8(expected),
        ),
        crate::auth::refusal(path, expected, token) == Some(AuthError::Unauthorized) <==> token
            is None,
        crate::auth::refusal(path, expected, token) == Some(AuthError::TokenInvalid) <==> token
            is Some && token != Some(vstd::utf8::encode_utf8(expected)),
{
}

/// Only one text passes as the token: two configured tokens that admit the same request are the
/// same.
pub proof fn law_token_is_unique(
    path: Seq<char>,
    expected: Seq<char>,
    other: Seq<char>,
    token: Option<Seq<u8>>,
)
    requires
        !crate::auth::whitelisted(path),
        expected.len() > 0,
        other.len() > 0,
        crate::auth::refusal(path, expected, token) is None,
        crate::auth::refusal(path, other, token) is None,
    ensures
        expected == other,
{
    vstd::utf8::encode_utf8_decode_utf8(expected);
    vstd::utf8::encode_utf8_decode_utf8(other);
}

/// What a path that starts openly is continued with does not matter.
pub proof fn law_open_prefix_extends(path: Seq<char>, rest: Seq<char>)
    requires
        crate::auth::has_open_prefix(path),
    ensures
        crate::auth::whitelisted(path + rest),
{
    let longer = path + rest;
    assert forall|p: Seq<char>| #[trigger] p.is_prefix_of(path) implies p.is_prefix_of(longer) by {
        assert(longer.subrange(0, p.len() as int) == path.subrange(0, p.len() as int));
    }
    assert("/health"@.is_prefix_of(path) ==> "/health"@.is_prefix_of(longer));
}

/// The configuration of every node is open, whatever the node's identifier is.
pub proof fn law_node_config_open(id: Seq<char>)
    ensures
        crate::auth::whitelisted("/api/v1/nodes/"@ + id + "/config.yaml"@),
{
    let start = "/api/v1/nodes/"@;
    let end = "/config.yaml"@;
    let path = start + id + end;
    assert(path.subrange(0, start.len() as int) == start);
    assert(path.subrange(path.len() - end.len(), path.len() as int) == end);
}

/// The paths that need no token are the root, those that start like the health check, the static
/// files or the node plane, and the configurations of nodes. There are no others.
pub proof fn law_what_is_open(path: Seq<char>)
    ensures
        crate::auth::whitelisted(path) <==> {
            ||| path == "/"@
            ||| "/health"@.is_prefix_of(path)
            ||| "/assets"@.is_prefix_of(path)
            ||| "/favicon"@.is_prefix_of(path)
            ||| "/torrents"@.is_prefix_of(path)
            ||| "/api/v1/agent/"@.is_prefix_of(path)
            ||| "/api/v1/realtime/ws"@.is_prefix_of(path)
            ||| "/api/v1/dispatches/claim"@.is_prefix_of(path)
            ||| "/api/v1/components/register"@.is_prefix_of(path)
            ||| "/api/v1/components/heartbeat"@.is_prefix_of(path)
            ||| "/api/v1/artifacts"@.is_prefix_of(path)
            ||| "/api/v1/nodes/"@.is_prefix_of(path) && "/config.yaml"@.is_suffix_of(path)
        },
{
}

/// Whether a header carries a text: it is there, and every byte of it is a tab or lies from the
/// space to the tilde.
pub open spec fn carries_text(header: Option<&[u8]>) -> bool {
    header matches Some(value) && forall|i: int|
        0 <= i < value@.len() ==> #[trigger] value@[i] == 9 || (32 <= value@[i] && value@[i] <= 126)
}

/// A request passes exactly if its path is open, or the configured token is blank, or its header
/// carries the configured token without the white space around it. Any other is answered with 401:
/// as an invalid token where the header carries a text, as a missing one where it does not.
pub proof fn law_requests_are_answered(
    d: Decision,
    path: Seq<char>,
    token: Seq<char>,
    header: Option<&[u8]>,
)
    requires
        crate::auth::decides(
            d,
            crate::auth::refusal(path, crate::text::trimmed(token), crate::auth::carried(header)),
        ),
    ensures
        d is Pass <==> {
            ||| crate::auth::whitelisted(path)
            ||| crate::text::trimmed(token).len() == 0
            ||| carries_text(header) && header->0@ == vstd::utf8::encode_utf8(
                crate::text::trimmed(token),
            )
        },
        d matches Decision::Refuse(r) ==> {
            &&& r.status == 401
            &&& carries_text(header) ==> {
                &&& r.error is TokenInvalid
                &&& r.message@ == "无效的认证 Token"@
            }
            &&& !carries_text(header) ==> {
                &&& r.error is Unauthorized
                &&& r.message@ == "缺少 X-Pnos-Token 请求头"@
            }
        },
{
    assert(header matches Some(value) ==> (carries_text(header) <==> crate::auth::is_header_text(
        value@,
    )));
}

/// What a request carries decides alone: of two requests to paths that need a token, with the same
/// header, both pass or both are refused for the same reason.
pub proof fn law_paths_are_treated_alike(
    first: Seq<char>,
    second: Seq<char>,
    expected: Seq<char>,
    token: Option<Seq<u8>>,
)
    requires
        !crate::auth::whitelisted(first),
        !crate::auth::whitelisted(second),
    ensures
        crate::auth::refusal(first, expected, token) == crate::auth::refusal(
            second,
            expected,
            token,
        ),
{
}

} // verus!
