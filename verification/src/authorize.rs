//! The authorization URL that the user's browser is sent to.

use vstd::prelude::*;
use vstd::string::StringExecFns;
use crate::exchange::REDIRECT_URI;
use crate::pairs::{text_pair, text_pairs_view, text_view};

verus! {

/// The provider's authorization endpoint.
pub const AUTHORIZE_ENDPOINT: &'static str = "https://accounts.spotify.com/authorize";

/// The permissions asked for: reading playlists, the playback state and the
/// library, and changing the library.
pub const SCOPE: &'static str =
    "playlist-read-private user-read-playback-state user-read-currently-playing user-library-read user-library-modify";

/// The URL that `url` makes of `base` once `params` are appended to its query
/// as name/value pairs in `application/x-www-form-urlencoded` form; `None` where
/// `base` is no absolute URL.
pub uninterp spec fn url_with_params(base: Seq<char>, params: Seq<(Seq<char>, Seq<char>)>)
    -> Option<Seq<char>>;

/// The decimal digit `d`.
pub open spec fn digit_char(d: nat) -> char {
    if d == 0 {
        '0'
    } else if d == 1 {
        '1'
    } else if d == 2 {
        '2'
    } else if d == 3 {
        '3'
    } else if d == 4 {
        '4'
    } else if d == 5 {
        '5'
    } else if d == 6 {
        '6'
    } else if d == 7 {
        '7'
    } else if d == 8 {
        '8'
    } else {
        '9'
    }
}

/// `n` written in decimal, without sign or leading zeros.
pub open spec fn decimal_text(n: nat) -> Seq<char>
    decreases n,
{
    if n < 10 {
        seq![digit_char(n)]
    } else {
        decimal_text(n / 10).push(digit_char(n % 10))
    }
}

/// The query of the authorization URL: the response type, the client, where to
/// redirect to, the scope, and the anti-forgery state.
pub open spec fn auth_params(client_id: Seq<char>, state: Seq<char>) -> Seq<
    (Seq<char>, Seq<char>),
> {
    seq![
        ("response_type"@, "code"@),
        ("client_id"@, client_id),
        ("redirect_uri"@, REDIRECT_URI@),
        ("scope"@, SCOPE@),
        ("state"@, state),
    ]
}

/// The authorization URL for `client_id` with the state value `state`.
pub open spec fn authorization_url(client_id: Seq<char>, state: u32) -> Option<Seq<char>> {
    url_with_params(AUTHORIZE_ENDPOINT@, auth_params(client_id, decimal_text(state as nat)))
}

/// Calls `url::Url::parse_with_params` and hands back the URL's serialization.
/// The contract only names the outcome: it is the same for the same base and
/// pairs, and `None` stands for the crate's parse error. A base with a fragment
/// is left out: only there does the crate record an offset behind the appended
/// pairs, which it cannot do past 4 GiB.
#[verifier::external_body]
pub(crate) fn parse_with_params(base: &str, params: &Vec<(String, String)>) -> (r: Option<String>)
    requires
        base@.len() <= 256,
        !base@.contains('#'),
    ensures
        text_view(r) == url_with_params(base@, text_pairs_view(params@)),
{
    match url::Url::parse_with_params(base, params) {
        Ok(parsed) => Some(String::from(parsed)),
        Err(_) => None,
    }
}

/// Calls `rand::random::<u32>`. Nothing is promised of the number.
#[verifier::external_body]
pub(crate) fn random_state() -> (r: u32) {
    rand::random::<u32>()
}

/// The decimal digit `d` as a text of one character.
pub fn digit_str(d: u32) -> (r: &'static str)
    requires
        d < 10,
    ensures
        r@ == seq![digit_char(d as nat)],
{
    proof {
        reveal_strlit("0");
        reveal_strlit("1");
        reveal_strlit("2");
        reveal_strlit("3");
        reveal_strlit("4");
        reveal_strlit("5");
        reveal_strlit("6");
        reveal_strlit("7");
        reveal_strlit("8");
        reveal_strlit("9");
    }
    let r = if d == 0 {
        "0"
    } else if d == 1 {
        "1"
    } else if d == 2 {
        "2"
    } else if d == 3 {
        "3"
    } else if d == 4 {
        "4"
    } else if d == 5 {
        "5"
    } else if d == 6 {
        "6"
    } else if d == 7 {
        "7"
    } else if d == 8 {
        "8"
    } else {
        "9"
    };
    assert(r@ =~= seq![digit_char(d as nat)]);
    r
}

/// Appends `n` in decimal to `out`.
pub fn push_decimal(out: &mut String, n: u32)
    ensures
        final(out)@ == old(out)@ + decimal_text(n as nat),
    decreases n,
{
    if n >= 10 {
        push_decimal(out, n / 10);
    }
    out.append(digit_str(n % 10));
    assert(final(out)@ =~= old(out)@ + decimal_text(n as nat));
}

/// `n` written in decimal.
pub fn decimal_string(n: u32) -> (r: String)
    ensures
        r@ == decimal_text(n as nat),
{
    let mut out = String::new();
    push_decimal(&mut out, n);
    assert(out@ =~= decimal_text(n as nat));
    out
}

/// The query pairs of the authorization URL, in the order in which they are
/// appended.
pub fn auth_query(client_id: &str, state: &str) -> (r: Vec<(String, String)>)
    ensures
        text_pairs_view(r@) == auth_params(client_id@, state@),
{
    let mut query: Vec<(String, String)> = Vec::new();
    query.push(text_pair("response_type", "code"));
    query.push(text_pair("client_id", client_id));
    query.push(text_pair("redirect_uri", REDIRECT_URI));
    query.push(text_pair("scope", SCOPE));
    query.push(text_pair("state", state));
    assert(text_pairs_view(query@) =~= auth_params(client_id@, state@));
    query
}

/// The authorization URL for `client_id` that carries `state` as its state
/// value. `None` only where the `url` crate refuses the endpoint.
pub fn auth_url_with_state(client_id: &str, state: u32) -> (r: Option<String>)
    ensures
        text_view(r) == authorization_url(client_id@, state),
{
    let state_text = decimal_string(state);
    let query = auth_query(client_id, state_text.as_str());
    proof {
        reveal_strlit("https://accounts.spotify.com/authorize");
        assert(AUTHORIZE_ENDPOINT@.len() == 38);
        assert forall|i: int| 0 <= i < 38 implies AUTHORIZE_ENDPOINT@[i] != '#' by {}
    }
    parse_with_params(AUTHORIZE_ENDPOINT, &query)
}

/// The authorization URL for `client_id` with a state value drawn at random.
pub fn auth_url(client_id: &str) -> (r: Option<String>)
    ensures
        exists|state: u32| text_view(r) == #[trigger] authorization_url(client_id@, state),
{
    let state = random_state();
    auth_url_with_state(client_id, state)
}

} // verus!
