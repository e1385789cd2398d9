use idc_launcher::discord::{
    bearer_authorization, check_user_info_status, sign_in_outcome, AuthError, DiscordAuth,
    DiscordUser, user_from_answer, DISCORD_AUTHORIZE_URL, SIGN_IN_EXPIRED,
};

fn decode_error(body: &[u8]) -> String {
    let cause = serde_json::from_slice::<serde_json::Value>(body).unwrap_err();
    format!("error decoding response body: {}", cause)
}

fn sample_auth() -> DiscordAuth {
    DiscordAuth::new(
        "1234".to_string(),
        "SECRET-REDACTED".to_string(),
        "http://localhost:1420/callback".to_string(),
    )
}

#[test]
fn user_from_complete_profile() {
    let body = br#"{"id":"42","username":"steve","discriminator":"0001","avatar":"abc"}"#;
    let user = user_from_answer(200, "200 OK", body).unwrap();
    assert_eq!(
        user,
        DiscordUser {
            id: "42".to_string(),
            username: "steve".to_string(),
            discriminator: "0001".to_string(),
            avatar: Some("abc".to_string()),
        }
    );
}

#[test]
fn user_from_sparse_profile_uses_empty_fields() {
    let user = user_from_answer(200, "200 OK", br#"{"id":42,"username":"alex","avatar":null}"#).unwrap();
    assert_eq!(user.id, "");
    assert_eq!(user.username, "alex");
    assert_eq!(user.discriminator, "");
    assert_eq!(user.avatar, None);
}

#[test]
fn user_from_non_object_profile() {
    let user = user_from_answer(200, "200 OK", b"[1, 2]").unwrap();
    assert_eq!(user.id, "");
    assert_eq!(user.username, "");
    assert_eq!(user.avatar, None);
}

#[test]
fn user_answer_with_failure_status() {
    assert_eq!(
        user_from_answer(401, "401 Unauthorized", br#"{"id":"42"}"#),
        Err(AuthError::UserInfoStatus("401 Unauthorized".to_string()))
    );
    assert_eq!(
        user_from_answer(500, "500 Internal Server Error", b"not json"),
        Err(AuthError::UserInfoStatus("500 Internal Server Error".to_string()))
    );
}

#[test]
fn user_answer_that_is_not_json() {
    let result = user_from_answer(200, "200 OK", b"oops");
    assert_eq!(result, Err(AuthError::InvalidJson(decode_error(b"oops"))));
    assert_eq!(
        result.unwrap_err().message(),
        "Failed to parse JSON: error decoding response body: expected value at line 1 column 1"
    );
    assert_eq!(user_from_answer(200, "200 OK", b""), Err(AuthError::InvalidJson(decode_error(b""))));
}

#[test]
fn auth_error_messages() {
    assert_eq!(AuthError::VerifierNotSet.message(), "PKCE verifier not set");
    assert_eq!(
        AuthError::TokenExchange("bad code".to_string()).message(),
        "Token exchange failed: bad code"
    );
    assert_eq!(AuthError::Request("timeout".to_string()).message(), "Request failed: timeout");
    assert_eq!(
        AuthError::UserInfoStatus("401 Unauthorized".to_string()).message(),
        "Failed to get user info: 401 Unauthorized"
    );
    assert_eq!(
        AuthError::InvalidJson("EOF".to_string()).message(),
        "Failed to parse JSON: EOF"
    );
}

#[test]
fn bearer_header() {
    assert_eq!(bearer_authorization("tok"), "Bearer tok");
}

#[test]
fn user_info_status_decision() {
    assert_eq!(check_user_info_status(200, "200 OK"), Ok(()));
    assert_eq!(check_user_info_status(299, "299"), Ok(()));
    assert_eq!(
        check_user_info_status(401, "401 Unauthorized"),
        Err(AuthError::UserInfoStatus("401 Unauthorized".to_string()))
    );
    assert_eq!(
        check_user_info_status(199, "199"),
        Err(AuthError::UserInfoStatus("199".to_string()))
    );
}

#[test]
fn fresh_auth_has_no_pending_request() {
    let auth = sample_auth();
    assert_eq!(auth.verifier_for_exchange(), Err(AuthError::VerifierNotSet));
    assert_eq!(auth.pending_csrf_state(), None);
    assert_eq!(auth.client_id(), "1234");
    assert_eq!(auth.client_secret(), "SECRET-REDACTED");
    assert_eq!(auth.redirect_uri(), "http://localhost:1420/callback");
}

#[test]
fn issued_url_carries_pending_secrets() {
    let mut auth = sample_auth();
    let (url, state) = auth.try_get_auth_url().expect("valid configuration");
    assert!(url.starts_with(DISCORD_AUTHORIZE_URL));
    assert!(url.starts_with("https://discord.com/oauth2/authorize?response_type=code"));
    assert!(url.contains("client_id=1234"));
    assert!(url.contains(&format!("state={}", state)));
    assert!(url.contains("redirect_uri=http%3A%2F%2Flocalhost%3A1420%2Fcallback"));
    assert!(url.contains("scope=identify+email"));
    assert!(url.contains("code_challenge_method=S256"));
    assert!(!url.contains("SECRET-REDACTED"));
    assert_eq!(auth.pending_csrf_state(), Some(state.clone()));
    let verifier = auth.verifier_for_exchange().expect("verifier kept");
    assert_eq!(verifier.len(), 43);
    let challenge = oauth2::PkceCodeChallenge::from_code_verifier_sha256(
        &oauth2::PkceCodeVerifier::new(verifier.clone()),
    );
    assert!(url.contains(&format!("code_challenge={}&", challenge.as_str())));
    assert!(!url.contains(&verifier));
}

#[test]
fn second_request_replaces_the_first() {
    let mut auth = sample_auth();
    let (_, first_state) = auth.get_auth_url();
    let first_verifier = auth.verifier_for_exchange().unwrap();
    let (second_url, second_state) = auth.get_auth_url();
    let second_verifier = auth.verifier_for_exchange().unwrap();
    assert_ne!(first_state, second_state);
    assert_ne!(first_verifier, second_verifier);
    assert_eq!(auth.pending_csrf_state(), Some(second_state.clone()));
    assert!(second_url.contains(&format!("state={}", second_state)));
    assert_eq!(auth.client_id(), "1234");
}

#[test]
fn invalid_redirect_uri_issues_nothing() {
    let mut auth = DiscordAuth::new("1".to_string(), "s".to_string(), "not a url".to_string());
    assert_eq!(auth.try_get_auth_url(), None);
    assert_eq!(auth.verifier_for_exchange(), Err(AuthError::VerifierNotSet));
    assert_eq!(auth.pending_csrf_state(), None);
}

#[test]
fn sign_in_outcome_passes_callback_result() {
    let user = DiscordUser {
        id: "7".to_string(),
        username: "u".to_string(),
        discriminator: "0".to_string(),
        avatar: None,
    };
    assert_eq!(sign_in_outcome(Some(Ok(user.clone()))), Ok(user));
    assert_eq!(
        sign_in_outcome(Some(Err("Token exchange failed: x".to_string()))),
        Err("Token exchange failed: x".to_string())
    );
}

#[test]
fn sign_in_outcome_without_callback_expires() {
    assert_eq!(sign_in_outcome(None), Err(SIGN_IN_EXPIRED.to_string()));
    assert_eq!(sign_in_outcome(None), Err("Authentification expirée ou annulée".to_string()));
}
