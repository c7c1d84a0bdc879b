//! The token exchanger: what is sent to the provider's token endpoint, and what
//! its reply means. Sending is left to the caller; nothing here touches the
//! token store.

use vstd::prelude::*;
use crate::json::{json_text_member, json_u64_member, text_member, u64_member};
use crate::pairs::{text_pair, text_pairs_view, text_view};
use crate::record::{CredentialRecord, RecordView, DEFAULT_EXPIRES_IN};

verus! {

/// Where both grants are sent.
pub const TOKEN_ENDPOINT: &'static str = "https://accounts.spotify.com/api/token";

/// The fixed local address that the provider redirects the browser to.
pub const REDIRECT_URI: &'static str = "http://127.0.0.1:8888/callback";

/// Why the token endpoint's reply gave no credential record.
#[derive(Debug, Clone, Copy, PartialEq, Eq, Structural)]
pub enum AuthError {
    /// The endpoint answered an authorization-code grant with a non-success status.
    ExchangeFailed,
    /// The endpoint answered a refresh-token grant with a non-success status.
    RefreshFailed,
    /// A nominally successful reply lacks a field that is required.
    MalformedResponse,
}

/// The members of a token endpoint reply that the exchanger reads.
#[derive(Debug, Clone)]
pub struct TokenResponse {
    pub access_token: Option<String>,
    pub refresh_token: Option<String>,
    pub expires_in: Option<u64>,
}

/// A token endpoint reply as plain values.
pub struct TokenResponseView {
    pub access_token: Option<Seq<char>>,
    pub refresh_token: Option<Seq<char>>,
    pub expires_in: Option<u64>,
}

impl View for TokenResponse {
    type V = TokenResponseView;

    open spec fn view(&self) -> TokenResponseView {
        TokenResponseView {
            access_token: text_view(self.access_token),
            refresh_token: text_view(self.refresh_token),
            expires_in: self.expires_in,
        }
    }
}

/// The outcome of a grant as plain values.
pub open spec fn outcome_view(r: Result<CredentialRecord, AuthError>) -> Result<
    RecordView,
    AuthError,
> {
    match r {
        Ok(record) => Ok(record@),
        Err(e) => Err(e),
    }
}

/// A status from 200 to 299.
pub open spec fn success_status(status: int) -> bool {
    200 <= status <= 299
}

/// Whether an HTTP status reports success.
pub fn is_success(status: u16) -> (r: bool)
    ensures
        r == success_status(status as int),
{
    200 <= status && status <= 299
}

/// The validity that a reply grants: what it names, or the default.
pub open spec fn granted_validity(expires_in: Option<u64>) -> nat {
    match expires_in {
        Some(seconds) => seconds as nat,
        None => DEFAULT_EXPIRES_IN as nat,
    }
}

/// What a successful reply to an authorization-code grant yields at `now`: a
/// record stamped with `now`, provided that both tokens are there.
pub open spec fn exchanged(response: TokenResponseView, now: nat) -> Result<RecordView, AuthError> {
    match (response.access_token, response.refresh_token) {
        (Some(access_token), Some(refresh_token)) => Ok(
            RecordView {
                access_token,
                refresh_token,
                expires_in: granted_validity(response.expires_in),
                issued_at: now,
            },
        ),
        _ => Err(AuthError::MalformedResponse),
    }
}

/// What a successful reply to a refresh-token grant yields at `now`: a record
/// stamped with `now` that keeps `previous` as its refresh token unless the reply
/// brings a new one, provided that the access token is there.
pub open spec fn refreshed(response: TokenResponseView, previous: Seq<char>, now: nat) -> Result<
    RecordView,
    AuthError,
> {
    match response.access_token {
        Some(access_token) => Ok(
            RecordView {
                access_token,
                refresh_token: match response.refresh_token {
                    Some(rotated) => rotated,
                    None => previous,
                },
                expires_in: granted_validity(response.expires_in),
                issued_at: now,
            },
        ),
        None => Err(AuthError::MalformedResponse),
    }
}

/// The members that the exchanger reads from the body of a reply.
pub open spec fn response_of(body: Seq<char>) -> TokenResponseView {
    TokenResponseView {
        access_token: json_text_member(body, "access_token"@),
        refresh_token: json_text_member(body, "refresh_token"@),
        expires_in: json_u64_member(body, "expires_in"@),
    }
}

/// The outcome of an authorization-code grant, from the reply's status and body.
pub open spec fn exchange_outcome(status: int, body: Seq<char>, now: nat) -> Result<
    RecordView,
    AuthError,
> {
    if success_status(status) {
        exchanged(response_of(body), now)
    } else {
        Err(AuthError::ExchangeFailed)
    }
}

/// The outcome of a refresh-token grant, from the reply's status and body.
pub open spec fn refresh_outcome(status: int, body: Seq<char>, previous: Seq<char>, now: nat)
    -> Result<RecordView, AuthError> {
    if success_status(status) {
        refreshed(response_of(body), previous, now)
    } else {
        Err(AuthError::RefreshFailed)
    }
}

/// Builds the record of a first authorization from a decoded reply. Either the
/// whole record comes back or `MalformedResponse`: there is no record with a
/// token missing.
pub fn record_from_exchange(response: TokenResponse, now: u64) -> (r: Result<
    CredentialRecord,
    AuthError,
>)
    ensures
        outcome_view(r) == exchanged(response@, now as nat),
{
    let expires_in = match response.expires_in {
        Some(seconds) => seconds,
        None => DEFAULT_EXPIRES_IN,
    };
    match response.access_token {
        Some(access_token) => match response.refresh_token {
            Some(refresh_token) => Ok(
                CredentialRecord { access_token, refresh_token, expires_in, issued_at: now },
            ),
            None => Err(AuthError::MalformedResponse),
        },
        None => Err(AuthError::MalformedResponse),
    }
}

/// Builds the record of a renewal from a decoded reply, keeping
/// `previous_refresh_token` where the reply brings no refresh token of its own.
pub fn record_from_refresh(response: TokenResponse, previous_refresh_token: &str, now: u64) -> (r:
    Result<CredentialRecord, AuthError>)
    ensures
        outcome_view(r) == refreshed(response@, previous_refresh_token@, now as nat),
{
    let expires_in = match response.expires_in {
        Some(seconds) => seconds,
        None => DEFAULT_EXPIRES_IN,
    };
    match response.access_token {
        Some(access_token) => {
            let refresh_token = match response.refresh_token {
                Some(rotated) => rotated,
                None => previous_refresh_token.to_owned(),
            };
            Ok(CredentialRecord { access_token, refresh_token, expires_in, issued_at: now })
        },
        None => Err(AuthError::MalformedResponse),
    }
}

/// Reads from a reply's body the three members that the exchanger looks at.
pub fn read_token_response(body: &str) -> (r: TokenResponse)
    ensures
        r@ == response_of(body@),
{
    let access_token = text_member(body, "access_token");
    let refresh_token = text_member(body, "refresh_token");
    let expires_in = u64_member(body, "expires_in");
    TokenResponse { access_token, refresh_token, expires_in }
}

/// Turns the token endpoint's reply to an authorization-code grant into the
/// record to store, stamped with `now`.
pub fn exchange_token(status: u16, body: &str, now: u64) -> (r: Result<CredentialRecord, AuthError>)
    ensures
        outcome_view(r) == exchange_outcome(status as int, body@, now as nat),
{
    if !is_success(status) {
        return Err(AuthError::ExchangeFailed);
    }
    record_from_exchange(read_token_response(body), now)
}

/// Turns the token endpoint's reply to a refresh-token grant into the record to
/// store, stamped with `now`; `previous_refresh_token` is the one that was sent.
pub fn refresh_token(status: u16, body: &str, previous_refresh_token: &str, now: u64) -> (r: Result<
    CredentialRecord,
    AuthError,
>)
    ensures
        outcome_view(r) == refresh_outcome(
            status as int,
            body@,
            previous_refresh_token@,
            now as nat,
        ),
{
    if !is_success(status) {
        return Err(AuthError::RefreshFailed);
    }
    record_from_refresh(read_token_response(body), previous_refresh_token, now)
}

/// What is sent to the token endpoint: the form, and the client's credentials
/// for HTTP Basic authentication.
#[derive(Debug, Clone)]
pub struct TokenRequest {
    pub endpoint: String,
    pub client_id: String,
    pub client_secret: String,
    pub form: Vec<(String, String)>,
}

/// A token request as plain values.
pub struct TokenRequestView {
    pub endpoint: Seq<char>,
    pub client_id: Seq<char>,
    pub client_secret: Seq<char>,
    pub form: Seq<(Seq<char>, Seq<char>)>,
}

impl View for TokenRequest {
    type V = TokenRequestView;

    open spec fn view(&self) -> TokenRequestView {
        TokenRequestView {
            endpoint: self.endpoint@,
            client_id: self.client_id@,
            client_secret: self.client_secret@,
            form: text_pairs_view(self.form@),
        }
    }
}

/// The form of an authorization-code grant.
pub open spec fn exchange_form(code: Seq<char>) -> Seq<(Seq<char>, Seq<char>)> {
    seq![
        ("grant_type"@, "authorization_code"@),
        ("code"@, code),
        ("redirect_uri"@, REDIRECT_URI@),
    ]
}

/// The form of a refresh-token grant.
pub open spec fn refresh_form(refresh_token: Seq<char>) -> Seq<(Seq<char>, Seq<char>)> {
    seq![("grant_type"@, "refresh_token"@), ("refresh_token"@, refresh_token)]
}

/// The request that trades an authorization code for tokens.
pub fn exchange_request(code: &str, client_id: &str, client_secret: &str) -> (r: TokenRequest)
    ensures
        r@ == (TokenRequestView {
            endpoint: TOKEN_ENDPOINT@,
            client_id: client_id@,
            client_secret: client_secret@,
            form: exchange_form(code@),
        }),
{
    let mut form: Vec<(String, String)> = Vec::new();
    form.push(text_pair("grant_type", "authorization_code"));
    form.push(text_pair("code", code));
    form.push(text_pair("redirect_uri", REDIRECT_URI));
    assert(text_pairs_view(form@) =~= exchange_form(code@));
    TokenRequest {
        endpoint: TOKEN_ENDPOINT.to_owned(),
        client_id: client_id.to_owned(),
        client_secret: client_secret.to_owned(),
        form,
    }
}

/// The request that trades a refresh token for a new access token.
pub fn refresh_request(previous_refresh_token: &str, client_id: &str, client_secret: &str) -> (r:
    TokenRequest)
    ensures
        r@ == (TokenRequestView {
            endpoint: TOKEN_ENDPOINT@,
            client_id: client_id@,
            client_secret: client_secret@,
            form: refresh_form(previous_refresh_token@),
        }),
{
    let mut form: Vec<(String, String)> = Vec::new();
    form.push(text_pair("grant_type", "refresh_token"));
    form.push(text_pair("refresh_token", previous_refresh_token));
    assert(text_pairs_view(form@) =~= refresh_form(previous_refresh_token@));
    TokenRequest {
        endpoint: TOKEN_ENDPOINT.to_owned(),
        client_id: client_id.to_owned(),
        client_secret: client_secret.to_owned(),
        form,
    }
}

/// A renewal whose reply brings no refresh token keeps the one that was sent.
pub proof fn lemma_refresh_retains_unrotated_token(
    response: TokenResponseView,
    previous: Seq<char>,
    now: nat,
)
    requires
        response.access_token is Some,
        response.refresh_token is None,
    ensures
        refreshed(response, previous, now) is Ok,
        refreshed(response, previous, now)->Ok_0.refresh_token == previous,
{
}

/// A renewal whose reply brings a refresh token adopts it.
pub proof fn lemma_refresh_adopts_rotated_token(
    response: TokenResponseView,
    previous: Seq<char>,
    now: nat,
)
    requires
        response.access_token is Some,
        response.refresh_token is Some,
    ensures
        refreshed(response, previous, now) is Ok,
        refreshed(response, previous, now)->Ok_0.refresh_token == response.refresh_token->Some_0,
{
}

/// A reply without an access token yields `MalformedResponse` for either grant,
/// and so no record at all, whatever else the reply holds.
pub proof fn lemma_missing_access_token_is_malformed(
    response: TokenResponseView,
    previous: Seq<char>,
    now: nat,
)
    requires
        response.access_token is None,
    ensures
        exchanged(response, now) == Err::<RecordView, AuthError>(AuthError::MalformedResponse),
        refreshed(response, previous, now) == Err::<RecordView, AuthError>(
            AuthError::MalformedResponse,
        ),
{
}

/// Every record that a grant yields carries the reply's access token, the
/// validity that the reply grants, and the local time of the grant: the time of
/// issue is never taken from the provider.
pub proof fn lemma_granted_record_is_stamped_locally(
    response: TokenResponseView,
    previous: Seq<char>,
    now: nat,
)
    ensures
        exchanged(response, now) matches Ok(record) ==> record.issued_at == now
            && response.access_token == Some(record.access_token) && response.refresh_token
            == Some(record.refresh_token) && record.expires_in == granted_validity(
            response.expires_in,
        ),
        refreshed(response, previous, now) matches Ok(record) ==> record.issued_at == now
            && response.access_token == Some(record.access_token) && record.expires_in
            == granted_validity(response.expires_in),
{
}

/// A non-success status fails the grant whatever the body holds, each grant
/// with its own error.
pub proof fn lemma_failed_status_fails_the_grant(
    status: int,
    body: Seq<char>,
    previous: Seq<char>,
    now: nat,
)
    requires
        !success_status(status),
    ensures
        exchange_outcome(status, body, now) == Err::<RecordView, AuthError>(
            AuthError::ExchangeFailed,
        ),
        refresh_outcome(status, body, previous, now) == Err::<RecordView, AuthError>(
            AuthError::RefreshFailed,
        ),
{
}

/// A record that was just granted is fresh at the time of the grant exactly when
/// its validity covers the safety margin.
pub proof fn lemma_granted_record_fresh_at_issue(
    response: TokenResponseView,
    previous: Seq<char>,
    now: nat,
)
    ensures
        exchanged(response, now) matches Ok(record) ==> (record.is_fresh(now as int)
            <==> granted_validity(response.expires_in) >= 60),
        refreshed(response, previous, now) matches Ok(record) ==> (record.is_fresh(now as int)
            <==> granted_validity(response.expires_in) >= 60),
{
}

} // verus!
