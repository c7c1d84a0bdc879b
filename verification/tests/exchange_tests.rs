use lazyfav::exchange::{
    exchange_request, exchange_token, is_success, read_token_response, record_from_exchange,
    record_from_refresh, refresh_request, refresh_token, AuthError, TokenResponse, REDIRECT_URI,
    TOKEN_ENDPOINT,
};

fn pair(name: &str, value: &str) -> (String, String) {
    (name.to_string(), value.to_string())
}

#[test]
fn success_is_the_two_hundreds() {
    assert!(!is_success(199));
    assert!(is_success(200));
    assert!(is_success(204));
    assert!(is_success(299));
    assert!(!is_success(300));
    assert!(!is_success(400));
    assert!(!is_success(0));
    assert!(!is_success(u16::MAX));
}

#[test]
fn exchange_request_carries_the_authorization_code_grant() {
    let request = exchange_request("abc123", "my-id", "my-secret");
    assert_eq!(request.endpoint, "https://accounts.spotify.com/api/token");
    assert_eq!(request.endpoint, TOKEN_ENDPOINT);
    assert_eq!(request.client_id, "my-id");
    assert_eq!(request.client_secret, "my-secret");
    assert_eq!(
        request.form,
        vec![
            pair("grant_type", "authorization_code"),
            pair("code", "abc123"),
            pair("redirect_uri", "http://127.0.0.1:8888/callback"),
        ]
    );
    assert_eq!(REDIRECT_URI, "http://127.0.0.1:8888/callback");
}

#[test]
fn refresh_request_carries_the_refresh_token_grant() {
    let request = refresh_request("RT1", "my-id", "my-secret");
    assert_eq!(request.endpoint, TOKEN_ENDPOINT);
    assert_eq!(request.client_id, "my-id");
    assert_eq!(request.client_secret, "my-secret");
    assert_eq!(
        request.form,
        vec![pair("grant_type", "refresh_token"), pair("refresh_token", "RT1")]
    );
}

#[test]
fn reply_members_are_read_from_the_body() {
    let r = read_token_response(
        r#"{"access_token":"AT1","token_type":"Bearer","refresh_token":"RT1","expires_in":1800}"#,
    );
    assert_eq!(r.access_token.as_deref(), Some("AT1"));
    assert_eq!(r.refresh_token.as_deref(), Some("RT1"));
    assert_eq!(r.expires_in, Some(1800));
}

#[test]
fn reply_members_of_another_type_count_as_absent() {
    let r = read_token_response(r#"{"access_token":17,"refresh_token":null,"expires_in":"3600"}"#);
    assert_eq!(r.access_token, None);
    assert_eq!(r.refresh_token, None);
    assert_eq!(r.expires_in, None);
    let r = read_token_response(r#"{"access_token":"a","expires_in":-5}"#);
    assert_eq!(r.access_token.as_deref(), Some("a"));
    assert_eq!(r.expires_in, None);
    let r = read_token_response(r#"{"access_token":"a","expires_in":3600.5}"#);
    assert_eq!(r.expires_in, None);
}

#[test]
fn a_body_that_is_no_json_object_has_no_members() {
    for body in ["", "not json", "[1,2,3]", "\"access_token\"", "{\"access_token\":\"a\""] {
        let r = read_token_response(body);
        assert_eq!(r.access_token, None);
        assert_eq!(r.refresh_token, None);
        assert_eq!(r.expires_in, None);
    }
}

#[test]
fn reply_strings_are_unescaped() {
    let r = read_token_response(r#"{"access_token":"a\"b\\cA","refresh_token":""}"#);
    assert_eq!(r.access_token.as_deref(), Some("a\"b\\cA"));
    assert_eq!(r.refresh_token.as_deref(), Some(""));
}

#[test]
fn exchange_yields_a_record_stamped_with_now() {
    let r = exchange_token(
        200,
        r#"{"access_token":"AT1","refresh_token":"RT1","expires_in":3600}"#,
        1_700_000_000,
    )
    .unwrap();
    assert_eq!(r.access_token, "AT1");
    assert_eq!(r.refresh_token, "RT1");
    assert_eq!(r.expires_in, 3600);
    assert_eq!(r.issued_at, 1_700_000_000);
}

#[test]
fn exchange_ignores_a_timestamp_from_the_provider() {
    let r = exchange_token(
        200,
        r#"{"access_token":"AT1","refresh_token":"RT1","expires_in":10,"timestamp":5,"issued_at":6}"#,
        99,
    )
    .unwrap();
    assert_eq!(r.issued_at, 99);
    assert_eq!(r.expires_in, 10);
}

#[test]
fn expires_in_defaults_to_an_hour() {
    let r = exchange_token(200, r#"{"access_token":"AT1","refresh_token":"RT1"}"#, 5).unwrap();
    assert_eq!(r.expires_in, 3600);
    let r = refresh_token(201, r#"{"access_token":"AT2"}"#, "RT1", 5).unwrap();
    assert_eq!(r.expires_in, 3600);
}

#[test]
fn exchange_fails_on_a_non_success_status() {
    let body = r#"{"access_token":"AT1","refresh_token":"RT1","expires_in":3600}"#;
    assert_eq!(exchange_token(400, body, 1), Err(AuthError::ExchangeFailed));
    assert_eq!(exchange_token(500, body, 1), Err(AuthError::ExchangeFailed));
    assert_eq!(exchange_token(302, body, 1), Err(AuthError::ExchangeFailed));
    assert_eq!(exchange_token(199, "", 1), Err(AuthError::ExchangeFailed));
}

#[test]
fn exchange_without_access_token_is_malformed() {
    assert_eq!(
        exchange_token(200, r#"{"refresh_token":"RT1","expires_in":3600}"#, 1),
        Err(AuthError::MalformedResponse)
    );
    assert_eq!(exchange_token(200, "{}", 1), Err(AuthError::MalformedResponse));
    assert_eq!(exchange_token(200, "<html>", 1), Err(AuthError::MalformedResponse));
}

#[test]
fn exchange_without_refresh_token_is_malformed() {
    assert_eq!(
        exchange_token(200, r#"{"access_token":"AT1","expires_in":3600}"#, 1),
        Err(AuthError::MalformedResponse)
    );
}

#[test]
fn refresh_without_rotation_keeps_the_token_that_was_sent() {
    let r = refresh_token(200, r#"{"access_token":"AT2","expires_in":1200}"#, "RT-old", 77)
        .unwrap();
    assert_eq!(r.access_token, "AT2");
    assert_eq!(r.refresh_token, "RT-old");
    assert_eq!(r.expires_in, 1200);
    assert_eq!(r.issued_at, 77);
}

#[test]
fn refresh_with_rotation_adopts_the_new_token() {
    let r = refresh_token(
        200,
        r#"{"access_token":"AT2","refresh_token":"RT-new","expires_in":1200}"#,
        "RT-old",
        77,
    )
    .unwrap();
    assert_eq!(r.refresh_token, "RT-new");
}

#[test]
fn refresh_fails_on_a_non_success_status() {
    let body = r#"{"access_token":"AT2"}"#;
    assert_eq!(refresh_token(400, body, "RT", 1), Err(AuthError::RefreshFailed));
    assert_eq!(refresh_token(401, body, "RT", 1), Err(AuthError::RefreshFailed));
    assert_eq!(refresh_token(503, "", "RT", 1), Err(AuthError::RefreshFailed));
}

#[test]
fn refresh_without_access_token_is_malformed() {
    assert_eq!(
        refresh_token(200, r#"{"refresh_token":"RT-new","expires_in":3600}"#, "RT-old", 1),
        Err(AuthError::MalformedResponse)
    );
    assert_eq!(refresh_token(200, "", "RT-old", 1), Err(AuthError::MalformedResponse));
}

#[test]
fn records_are_built_from_decoded_replies() {
    let full = TokenResponse {
        access_token: Some("A".to_string()),
        refresh_token: Some("R".to_string()),
        expires_in: Some(5),
    };
    let r = record_from_exchange(full.clone(), 11).unwrap();
    assert_eq!((r.access_token.as_str(), r.refresh_token.as_str()), ("A", "R"));
    assert_eq!((r.expires_in, r.issued_at), (5, 11));
    let r = record_from_refresh(full, "old", 12).unwrap();
    assert_eq!((r.access_token.as_str(), r.refresh_token.as_str()), ("A", "R"));
    assert_eq!((r.expires_in, r.issued_at), (5, 12));

    let bare = TokenResponse {
        access_token: Some("A".to_string()),
        refresh_token: None,
        expires_in: None,
    };
    assert_eq!(record_from_exchange(bare.clone(), 11), Err(AuthError::MalformedResponse));
    let r = record_from_refresh(bare, "old", 12).unwrap();
    assert_eq!(r.refresh_token, "old");
    assert_eq!(r.expires_in, 3600);

    let empty = TokenResponse { access_token: None, refresh_token: Some("R".to_string()), expires_in: Some(1) };
    assert_eq!(record_from_exchange(empty.clone(), 11), Err(AuthError::MalformedResponse));
    assert_eq!(record_from_refresh(empty, "old", 11), Err(AuthError::MalformedResponse));
}
