//! The values of a login with Google: what is configured, what is stored between the
//! redirect to the provider and the way back, and what the provider tells of a user.
use crate::reply::{text_reply, Reply, Status};
use openidconnect as oidc;
use vstd::prelude::*;
use vstd::string::*;

verus! {

/// The identity provider that logins go through.
pub const ISSUER_URL: &'static str = "https://accounts.google.com";

/// Credentials of this service at the identity provider.
#[derive(Debug)]
pub struct Settings {
    pub client_id: String,
    pub client_secret: String,
}

/// Query of the login endpoint: where to send the user after the login.
#[derive(Debug)]
pub struct LoginParams {
    pub return_path: String,
}

/// What is kept from the start of a login until the provider redirects back.
#[derive(Debug)]
pub struct OAuthState {
    pub csrf_state: String,
    pub nonce: String,
    pub return_url: String,
}

/// `OAuthState` as plain values, for contracts.
pub struct OAuthStateView {
    pub csrf_state: Seq<char>,
    pub nonce: Seq<char>,
    pub return_url: Seq<char>,
}

impl View for OAuthState {
    type V = OAuthStateView;

    open spec fn view(&self) -> OAuthStateView {
        OAuthStateView {
            csrf_state: self.csrf_state@,
            nonce: self.nonce@,
            return_url: self.return_url@,
        }
    }
}

impl DeepView for OAuthState {
    type V = OAuthStateView;

    open spec fn deep_view(&self) -> OAuthStateView {
        self@
    }
}

/// What the provider's user-info resource tells of the user who logged in.
#[derive(Debug)]
pub struct UserInfo {
    pub email: String,
    pub verified_email: bool,
    pub given_name: String,
    pub family_name: String,
}

/// `UserInfo` as plain values, for contracts.
pub struct UserInfoView {
    pub email: Seq<char>,
    pub verified_email: bool,
    pub given_name: Seq<char>,
    pub family_name: Seq<char>,
}

impl View for UserInfo {
    type V = UserInfoView;

    open spec fn view(&self) -> UserInfoView {
        UserInfoView {
            email: self.email@,
            verified_email: self.verified_email,
            given_name: self.given_name@,
            family_name: self.family_name@,
        }
    }
}

impl DeepView for UserInfo {
    type V = UserInfoView;

    open spec fn deep_view(&self) -> UserInfoView {
        self@
    }
}

/// Why a login did not lead to a session.
#[derive(Debug)]
pub enum LoginError {
    /// The callback came without a `state` parameter.
    MissingState,
    /// The callback came without a `code` parameter.
    MissingCode,
    /// No stored login attempt has the `state` of the callback: it was never issued, or
    /// it was used before.
    InvalidState,
    /// The provider has not verified the user's email address.
    EmailNotVerified,
    /// The time of issue is so late that the session's end cannot be written down.
    ClockOutOfRange,
    /// The provider or the record store failed; the text says how.
    Upstream(String),
    /// An answer came that does not fit the question asked.
    UnexpectedReply,
    /// The registration at the provider holds an address that is no URL.
    BadRegistration,
}

/// `LoginError` as plain values, for contracts.
pub enum LoginErrorView {
    MissingState,
    MissingCode,
    InvalidState,
    EmailNotVerified,
    ClockOutOfRange,
    Upstream(Seq<char>),
    UnexpectedReply,
    BadRegistration,
}

impl View for LoginError {
    type V = LoginErrorView;

    open spec fn view(&self) -> LoginErrorView {
        match self {
            LoginError::MissingState => LoginErrorView::MissingState,
            LoginError::MissingCode => LoginErrorView::MissingCode,
            LoginError::InvalidState => LoginErrorView::InvalidState,
            LoginError::EmailNotVerified => LoginErrorView::EmailNotVerified,
            LoginError::ClockOutOfRange => LoginErrorView::ClockOutOfRange,
            LoginError::Upstream(text) => LoginErrorView::Upstream(text@),
            LoginError::UnexpectedReply => LoginErrorView::UnexpectedReply,
            LoginError::BadRegistration => LoginErrorView::BadRegistration,
        }
    }
}

impl DeepView for LoginError {
    type V = LoginErrorView;

    open spec fn deep_view(&self) -> LoginErrorView {
        self@
    }
}

/// The text that tells a user of `error`.
pub open spec fn error_message(error: LoginErrorView) -> Seq<char> {
    match error {
        LoginErrorView::MissingState => "OAuth: without state"@,
        LoginErrorView::MissingCode => "OAuth: without code"@,
        LoginErrorView::InvalidState => "OAuth: invalid or expired state"@,
        LoginErrorView::EmailNotVerified => "OAuth: email address is not verified"@,
        LoginErrorView::ClockOutOfRange => "OAuth: session lifetime is out of range"@,
        LoginErrorView::Upstream(text) => text,
        LoginErrorView::UnexpectedReply => "OAuth: unexpected reply"@,
        LoginErrorView::BadRegistration => "OAuth: the registration holds no URL"@,
    }
}

impl LoginError {
    /// The text that tells a user of this error.
    pub fn message(&self) -> (text: String)
        ensures
            text@ == error_message(self@),
    {
        match self {
            LoginError::MissingState => String::from_str("OAuth: without state"),
            LoginError::MissingCode => String::from_str("OAuth: without code"),
            LoginError::InvalidState => String::from_str("OAuth: invalid or expired state"),
            LoginError::EmailNotVerified => String::from_str(
                "OAuth: email address is not verified",
            ),
            LoginError::ClockOutOfRange => String::from_str(
                "OAuth: session lifetime is out of range",
            ),
            LoginError::Upstream(text) => text.clone(),
            LoginError::UnexpectedReply => String::from_str("OAuth: unexpected reply"),
            LoginError::BadRegistration => String::from_str(
                "OAuth: the registration holds no URL",
            ),
        }
    }
}

/// What a caller is told of a login that failed with `error`: what is missing, where a
/// parameter is missing; else one text for every failure, so that the answer does not
/// tell which check failed.
pub open spec fn failure_reply(error: LoginErrorView) -> (Status, Seq<char>) {
    match error {
        LoginErrorView::MissingState => (Status::BadRequest, error_message(error)),
        LoginErrorView::MissingCode => (Status::BadRequest, error_message(error)),
        _ => (Status::InternalServerError, "OAuth: login failed"@),
    }
}

impl LoginError {
    /// The answer that tells the caller of the failure.
    pub fn into_response(self) -> (reply: Reply<()>)
        ensures
            reply.is_text(failure_reply(self@).0, failure_reply(self@).1),
    {
        match self {
            LoginError::MissingState => Reply::Text {
                status: Status::BadRequest,
                text: self.message(),
            },
            LoginError::MissingCode => Reply::Text {
                status: Status::BadRequest,
                text: self.message(),
            },
            _ => text_reply(Status::InternalServerError, "OAuth: login failed"),
        }
    }
}

/// The scopes that a login asks the provider for, in the order in which they are asked.
pub open spec fn scopes_view() -> Seq<Seq<char>> {
    seq!["email"@, "profile"@]
}

/// The scopes that a login asks the provider for.
pub fn scopes() -> (scopes: Vec<String>)
    ensures
        scopes.deep_view() == scopes_view(),
{
    let scopes = vec![String::from_str("email"), String::from_str("profile")];
    assert(scopes.deep_view() =~= scopes_view());
    scopes
}

/// The address of the provider's user-info resource for the bearer of `access_token`.
pub fn user_info_url(access_token: &str) -> (url: String)
    ensures
        url@ == "https://www.googleapis.com/oauth2/v2/userinfo?oauth_token="@ + access_token@,
{
    let mut url = String::from_str("https://www.googleapis.com/oauth2/v2/userinfo?oauth_token=");
    url.append(access_token);
    url
}

/// A text of 22 characters out of the letters, the digits, `-` and `_`: sixteen bytes in
/// URL-safe base64 without padding.
pub open spec fn is_random_token(text: Seq<char>) -> bool {
    &&& text.len() == 22
    &&& forall|i: int|
        0 <= i < 22 ==> {
            let c = #[trigger] text[i];
            ('A' <= c <= 'Z') || ('a' <= c <= 'z') || ('0' <= c <= '9') || c == '-' || c == '_'
        }
}

/// Calls `oauth2::CsrfToken::new_random` and copies the token's secret.
/// Trusted: the text is sixteen random bytes in URL-safe base64 without padding, as the
/// crate documents and its source shows. Which bytes is not stated. The call can panic
/// only where the thread's random generator cannot be seeded.
#[verifier::external_body]
fn random_csrf_token() -> (token: String)
    ensures
        is_random_token(token@),
{
    oauth2::CsrfToken::new_random().secret().clone()
}

/// Calls `openidconnect::Nonce::new_random` and copies the nonce's secret.
/// Trusted: the text is sixteen random bytes in URL-safe base64 without padding, as the
/// crate documents and its source shows. Which bytes is not stated. The call can panic
/// only where the thread's random generator cannot be seeded.
#[verifier::external_body]
fn random_nonce() -> (nonce: String)
    ensures
        is_random_token(nonce@),
{
    openidconnect::Nonce::new_random().secret().clone()
}

/// How this service is registered at the provider, and where the provider takes
/// authorization requests.
#[derive(Debug)]
pub struct Registration {
    pub auth_url: String,
    pub client_id: String,
    pub redirect_url: String,
}

/// `Registration` as plain values, for contracts.
pub struct RegistrationView {
    pub auth_url: Seq<char>,
    pub client_id: Seq<char>,
    pub redirect_url: Seq<char>,
}

impl View for Registration {
    type V = RegistrationView;

    open spec fn view(&self) -> RegistrationView {
        RegistrationView {
            auth_url: self.auth_url@,
            client_id: self.client_id@,
            redirect_url: self.redirect_url@,
        }
    }
}

/// How the provider hands over what a login asks it for. This service knows one way.
#[derive(Clone, Copy, Debug, PartialEq, Eq, Structural)]
pub enum Flow {
    /// The provider hands the user a code, which this service redeems for the tokens.
    AuthorizationCode,
}

/// The address that `openidconnect` writes for an authorization request in the flow
/// `flow`: to the endpoint `auth_url` of the provider `issuer`, for the client
/// `client_id`, to come back to `redirect_url`, asking for `scopes` besides `openid`,
/// with `csrf_state` as state and `nonce` as nonce. None where one of the three addresses
/// is no URL.
pub uninterp spec fn authorization_url(
    flow: Flow,
    issuer: Seq<char>,
    auth_url: Seq<char>,
    client_id: Seq<char>,
    redirect_url: Seq<char>,
    scopes: Seq<Seq<char>>,
    csrf_state: Seq<char>,
    nonce: Seq<char>,
) -> Option<Seq<char>>;

/// Makes a client of `openidconnect` out of the arguments, calls its `authorize_url` for
/// the flow given, adds the scopes and renders the URL of the request.
/// Trusted: the address is a function of the arguments alone, as the source shows: the
/// state and the nonce are those given, not random ones.
#[verifier::external_body]
fn provider_url(
    flow: Flow,
    issuer: String,
    auth_url: String,
    client_id: String,
    redirect_url: String,
    scopes: Vec<String>,
    csrf_state: String,
    nonce: String,
) -> (url: Option<String>)
    ensures
        url.deep_view() == authorization_url(
            flow,
            issuer@,
            auth_url@,
            client_id@,
            redirect_url@,
            scopes.deep_view(),
            csrf_state@,
            nonce@,
        ),
{
    let client = oidc::core::CoreClient::new(
        oidc::ClientId::new(client_id),
        oidc::IssuerUrl::new(issuer).ok()?,
        oidc::JsonWebKeySet::new(Vec::new()),
    )
    .set_auth_uri(oidc::AuthUrl::new(auth_url).ok()?)
    .set_redirect_uri(oidc::RedirectUrl::new(redirect_url).ok()?);
    let (state, nonce) = (oidc::CsrfToken::new(csrf_state), oidc::Nonce::new(nonce));
    let flow = match flow {
        Flow::AuthorizationCode => oidc::core::CoreAuthenticationFlow::AuthorizationCode,
    };
    let request = client.authorize_url(flow, move || state, move || nonce);
    Some(request.add_scopes(scopes.into_iter().map(oidc::Scope::new)).url().0.to_string())
}

/// The address to which a user is sent for the login attempt `attempt`: the request of
/// the authorization-code flow for the scopes of a login.
pub open spec fn login_address(registration: RegistrationView, attempt: OAuthStateView) -> Option<
    Seq<char>,
> {
    authorization_url(
        Flow::AuthorizationCode,
        ISSUER_URL@,
        registration.auth_url,
        registration.client_id,
        registration.redirect_url,
        scopes_view(),
        attempt.csrf_state,
        attempt.nonce,
    )
}

/// The address to which a user is sent for the login attempt `attempt`: the provider's
/// authorization endpoint, asked for a code and for the scopes of a login, with the
/// attempt's state and nonce. None where the registration holds what is no URL.
pub fn login_url(registration: &Registration, attempt: &OAuthState) -> (url: Option<String>)
    ensures
        url.deep_view() == login_address(registration@, attempt@),
{
    provider_url(
        Flow::AuthorizationCode,
        String::from_str(ISSUER_URL),
        registration.auth_url.clone(),
        registration.client_id.clone(),
        registration.redirect_url.clone(),
        scopes(),
        attempt.csrf_state.clone(),
        attempt.nonce.clone(),
    )
}

/// Whether `attempt` is one that a login to end at `return_url` begins with: it ends
/// there, and its state and nonce are random tokens.
pub open spec fn is_fresh_attempt(attempt: OAuthStateView, return_url: Seq<char>) -> bool {
    &&& attempt.return_url == return_url
    &&& is_random_token(attempt.csrf_state)
    &&& is_random_token(attempt.nonce)
}

/// Begins a login that is to end at `return_url`: a fresh attempt, to be stored before
/// the user is sent to the address that comes with it. Which tokens the attempt holds
/// is open; the address is the one of that attempt, and there is none only where that
/// attempt has no address.
pub fn authorize_url(registration: &Registration, return_url: &str) -> (r: Option<
    (OAuthState, String),
>)
    ensures
        match r {
            Some((attempt, url)) => {
                &&& is_fresh_attempt(attempt@, return_url@)
                &&& login_address(registration@, attempt@) == Some(url@)
            },
            None => exists|attempt: OAuthStateView|
                {
                    &&& #[trigger] is_fresh_attempt(attempt, return_url@)
                    &&& login_address(registration@, attempt) is None
                },
        },
{
    let attempt = OAuthState::fresh(return_url);
    match login_url(registration, &attempt) {
        Some(url) => Some((attempt, url)),
        None => {
            assert(is_fresh_attempt(attempt@, return_url@));
            None
        },
    }
}

impl OAuthState {
    /// A login attempt with a fresh random CSRF token and nonce, to end at `return_url`.
    pub fn fresh(return_url: &str) -> (attempt: OAuthState)
        ensures
            is_fresh_attempt(attempt@, return_url@),
    {
        OAuthState {
            csrf_state: random_csrf_token(),
            nonce: random_nonce(),
            return_url: String::from_str(return_url),
        }
    }
}

/// Where the provider sends the user back to: the callback endpoint under `host_url`.
pub fn redirect_url(host_url: &str) -> (url: String)
    ensures
        url@ == host_url@ + "/auth/google/callback"@,
{
    let mut url = String::from_str(host_url);
    url.append("/auth/google/callback");
    url
}

/// The `state` and `code` parameters of a callback, in that order, or what is missing:
/// the state is looked for first.
pub fn callback_params(state: Option<String>, code: Option<String>) -> (r: Result<
    (String, String),
    LoginError,
>)
    ensures
        match r {
            Ok((s, c)) => state == Some(s) && code == Some(c),
            Err(e) => if state is None {
                e@ == LoginErrorView::MissingState
            } else {
                code is None && e@ == LoginErrorView::MissingCode
            },
        },
{
    match state {
        None => Err(LoginError::MissingState),
        Some(s) => match code {
            None => Err(LoginError::MissingCode),
            Some(c) => Ok((s, c)),
        },
    }
}

/// The `Set-Cookie` value that hands `session_token` to the browser: for every path,
/// hidden from scripts, sent over TLS only and never across sites.
pub fn session_cookie(session_token: &str) -> (cookie: String)
    ensures
        cookie@ == "session_token="@ + session_token@
            + "; path=/; httponly; secure; samesite=strict"@,
{
    let mut cookie = String::from_str("session_token=");
    cookie.append(session_token);
    cookie.append("; path=/; httponly; secure; samesite=strict");
    cookie
}

} // verus!
