use pk::auth::{auth_middleware, is_whitelisted, AuthError, Decision, Refusal, TOKEN_HEADER};

fn refused(error: AuthError, message: &str) -> Decision {
    Decision::Refuse(Refusal {
        status: 401,
        error,
        message: message.to_string(),
    })
}

#[test]
fn test_whitelist() {
    assert!(is_whitelisted("/"));
    assert!(is_whitelisted("/health"));
    assert!(is_whitelisted("/health/ready"));
    assert!(is_whitelisted("/assets/app.js"));
    assert!(is_whitelisted("/favicon.png"));
    assert!(is_whitelisted("/torrents"));
    assert!(is_whitelisted("/api/v1/agent/config"));
    assert!(is_whitelisted("/api/v1/agent/report"));
    assert!(is_whitelisted("/api/v1/agent/ws"));
    assert!(is_whitelisted("/api/v1/realtime/ws"));
    assert!(is_whitelisted("/api/v1/dispatches/claim"));
    assert!(is_whitelisted("/api/v1/components/register"));
    assert!(is_whitelisted("/api/v1/components/heartbeat"));
    assert!(is_whitelisted("/api/v1/artifacts/linux"));

    assert!(!is_whitelisted("/api/v1/nodes"));
    assert!(!is_whitelisted("/api/v1/tasks"));
    assert!(is_whitelisted("/api/v1/nodes/x/config.yaml"));
    assert!(!is_whitelisted("/api/v1/nodes/x"));
}

#[test]
fn whitelist_edges() {
    assert!(!is_whitelisted(""));
    assert!(!is_whitelisted("/api/v1/agent"));
    assert!(!is_whitelisted("health"));
    assert!(is_whitelisted("/healthy"));
    assert!(is_whitelisted("/api/v1/nodes//config.yaml"));
    assert!(!is_whitelisted("/api/v1/nodes/config.yam"));
    assert!(is_whitelisted("/api/v1/nodes/节点/config.yaml"));
    assert!(!is_whitelisted("/API/V1/AGENT/x"));
    // The two parts of a node's configuration path may share the slash between them.
    assert!(is_whitelisted("/api/v1/nodes/config.yaml"));
}

#[test]
fn open_paths_pass_without_a_token() {
    assert_eq!(auth_middleware("/health", "secret", None), Decision::Pass);
    assert_eq!(
        auth_middleware("/assets/x", "secret", Some(b"wrong")),
        Decision::Pass
    );
}

#[test]
fn development_mode_lets_everything_pass() {
    assert_eq!(auth_middleware("/api/v1/tasks", "", None), Decision::Pass);
    assert_eq!(
        auth_middleware("/api/v1/tasks", " \t\u{3000}\n", Some(b"x")),
        Decision::Pass
    );
}

#[test]
fn the_right_token_passes() {
    assert_eq!(
        auth_middleware("/api/v1/tasks", "secret", Some(b"secret")),
        Decision::Pass
    );
    assert_eq!(
        auth_middleware("/api/v1/tasks", "  secret\n", Some(b"secret")),
        Decision::Pass
    );
}

#[test]
fn a_wrong_token_is_refused() {
    let wrong = refused(AuthError::TokenInvalid, "无效的认证 Token");
    assert_eq!(
        auth_middleware("/api/v1/tasks", "secret", Some(b"Secret")),
        wrong
    );
    assert_eq!(auth_middleware("/api/v1/tasks", "secret", Some(b"")), wrong);
    assert_eq!(
        auth_middleware("/api/v1/tasks", "secret", Some(b" secret")),
        wrong
    );
}

#[test]
fn a_missing_token_is_refused() {
    let missing = refused(AuthError::Unauthorized, "缺少 X-Pnos-Token 请求头");
    assert_eq!(auth_middleware("/api/v1/tasks", "secret", None), missing);
    // A value that is no text counts as missing, even if its bytes are those of the token.
    assert_eq!(
        auth_middleware("/api/v1/tasks", "sécret", Some("sécret".as_bytes())),
        missing
    );
    assert_eq!(
        auth_middleware("/api/v1/tasks", "secret", Some(b"sec\x7fret")),
        missing
    );
}

#[test]
fn header_text_is_as_the_http_crate_reads_it() {
    for b in 0u8..=255 {
        let bytes = [b'a', b];
        if let Ok(value) = axum::http::HeaderValue::from_bytes(&bytes) {
            let decision = auth_middleware("/api/v1/tasks", "secret", Some(&bytes));
            let error = match decision {
                Decision::Refuse(r) => r.error,
                Decision::Pass => panic!("passed"),
            };
            assert_eq!(error == AuthError::TokenInvalid, value.to_str().is_ok());
        }
    }
}

#[test]
fn the_token_header_is_named() {
    assert_eq!(TOKEN_HEADER, "X-Pnos-Token");
}
