use lazyfav::authorize::{
    auth_query, auth_url, auth_url_with_state, decimal_string, digit_str, push_decimal,
    AUTHORIZE_ENDPOINT, SCOPE,
};

const ENCODED_TAIL: &str = "&redirect_uri=http%3A%2F%2F127.0.0.1%3A8888%2Fcallback&scope=playlist-read-private+user-read-playback-state+user-read-currently-playing+user-library-read+user-library-modify&state=";

#[test]
fn endpoint_and_scope_are_fixed() {
    assert_eq!(AUTHORIZE_ENDPOINT, "https://accounts.spotify.com/authorize");
    assert_eq!(
        SCOPE,
        "playlist-read-private user-read-playback-state user-read-currently-playing user-library-read user-library-modify"
    );
}

#[test]
fn query_has_the_five_pairs_in_order() {
    let q = auth_query("my-id", "42");
    let names: Vec<&str> = q.iter().map(|p| p.0.as_str()).collect();
    assert_eq!(names, vec!["response_type", "client_id", "redirect_uri", "scope", "state"]);
    assert_eq!(q[0].1, "code");
    assert_eq!(q[1].1, "my-id");
    assert_eq!(q[2].1, "http://127.0.0.1:8888/callback");
    assert_eq!(q[3].1, SCOPE);
    assert_eq!(q[4].1, "42");
}

#[test]
fn url_with_a_given_state_is_exact() {
    let url = auth_url_with_state("my-id", 42).unwrap();
    assert_eq!(
        url,
        format!(
            "https://accounts.spotify.com/authorize?response_type=code&client_id=my-id{}42",
            ENCODED_TAIL
        )
    );
}

#[test]
fn state_is_written_in_decimal() {
    for (state, text) in [(0u32, "0"), (7, "7"), (10, "10"), (1234567890, "1234567890"), (u32::MAX, "4294967295")] {
        let url = auth_url_with_state("x", state).unwrap();
        assert!(url.ends_with(&format!("&state={}", text)), "{}", url);
    }
}

#[test]
fn client_id_is_form_encoded() {
    let url = auth_url_with_state("a b&c=d/é", 1).unwrap();
    assert_eq!(
        url,
        format!(
            "https://accounts.spotify.com/authorize?response_type=code&client_id=a+b%26c%3Dd%2F%C3%A9{}1",
            ENCODED_TAIL
        )
    );
}

#[test]
fn url_with_a_random_state_has_the_same_shape() {
    let url = auth_url("my-id").unwrap();
    let head = format!(
        "https://accounts.spotify.com/authorize?response_type=code&client_id=my-id{}",
        ENCODED_TAIL
    );
    assert!(url.starts_with(&head), "{}", url);
    let state = &url[head.len()..];
    assert!(!state.is_empty());
    let n: u32 = state.parse().unwrap();
    assert_eq!(state, n.to_string());
    assert_eq!(Some(url), auth_url_with_state("my-id", n));
}

#[test]
fn url_parses_back_to_the_pairs_that_went_in() {
    let text = auth_url_with_state("id with space", 99).unwrap();
    let parsed = url::Url::parse(&text).unwrap();
    let pairs: Vec<(String, String)> =
        parsed.query_pairs().map(|(k, v)| (k.into_owned(), v.into_owned())).collect();
    assert_eq!(pairs, auth_query("id with space", "99"));
    assert_eq!(parsed.host_str(), Some("accounts.spotify.com"));
    assert_eq!(parsed.path(), "/authorize");
}

#[test]
fn digits_are_the_ten_characters() {
    let all: String = (0u32..10).map(digit_str).collect();
    assert_eq!(all, "0123456789");
}

#[test]
fn decimal_string_has_no_sign_and_no_leading_zeros() {
    assert_eq!(decimal_string(0), "0");
    assert_eq!(decimal_string(9), "9");
    assert_eq!(decimal_string(10), "10");
    assert_eq!(decimal_string(100), "100");
    assert_eq!(decimal_string(1_000_000_007), "1000000007");
    assert_eq!(decimal_string(u32::MAX), "4294967295");
    for n in (0u32..100_000).step_by(37) {
        assert_eq!(decimal_string(n), n.to_string());
    }
}

#[test]
fn push_decimal_appends_to_what_is_there() {
    let mut out = String::from("state=");
    push_decimal(&mut out, 305);
    assert_eq!(out, "state=305");
    push_decimal(&mut out, 0);
    assert_eq!(out, "state=3050");
}
