//! Discord sign-in: the OAuth2 authorization request with PKCE, the state
//! kept between the authorization and the code exchange, and the profile
//! read back from Discord.

use vstd::prelude::*;
use vstd::utf8::is_ascii_chars;
use oauth2::{AuthUrl, ClientId, CsrfToken, PkceCodeChallenge, PkceCodeVerifier, RedirectUrl, Scope};

use crate::json::{json_body_str_members, json_error_text, json_str_members, parse_json, str_member};
use crate::text::joined;
use crate::web::{decode_error_message, decode_error_text, is_success_status, status_is_success};

verus! {

/// Discord's OAuth2 authorization endpoint.
pub const DISCORD_AUTHORIZE_URL: &'static str = "https://discord.com/oauth2/authorize";

/// Discord's OAuth2 token endpoint.
pub const DISCORD_TOKEN_URL: &'static str = "https://discord.com/api/oauth2/token";

/// The endpoint that describes the signed-in Discord user.
pub const DISCORD_USER_INFO_URL: &'static str = "https://discord.com/api/users/@me";

/// Whether `url` is accepted by `oauth2::RedirectUrl::new`, which parses it
/// with `url::Url::parse`. `oauth2::AuthUrl::new` is generated by the same
/// macro and accepts exactly the same strings.
pub uninterp spec fn url_parses(url: Seq<char>) -> bool;

/// The authorization URL that `oauth2` builds for a client with the given
/// authorization endpoint, client id and redirect URI, for a request with
/// the given `state`, the S256 challenge of the given PKCE verifier and the
/// given scopes, in order.
pub uninterp spec fn authorize_url_for(
    auth_url: Seq<char>,
    client_id: Seq<char>,
    redirect_uri: Seq<char>,
    state: Seq<char>,
    verifier: Seq<char>,
    scopes: Seq<Seq<char>>,
) -> Seq<char>;

/// Calls `oauth2::RedirectUrl::new` and reports whether it accepted `url`.
#[verifier::external_body]
fn url_is_valid(url: &str) -> (ok: bool)
    ensures
        ok == url_parses(url@),
{
    RedirectUrl::new(url.to_string()).is_ok()
}

/// Draws a fresh PKCE verifier with
/// `oauth2::PkceCodeChallenge::new_random_sha256` and returns its secret.
/// The value is random; the contract states only what oauth2's source shows
/// of every outcome: 32 random bytes encoded in unpadded URL-safe base64,
/// that is 43 ASCII characters.
#[verifier::external_body]
fn fresh_pkce_verifier() -> (v: String)
    ensures
        v@.len() == 43,
        is_ascii_chars(v@),
{
    let (_challenge, verifier) = PkceCodeChallenge::new_random_sha256();
    verifier.secret().clone()
}

/// Draws a fresh CSRF state with `oauth2::CsrfToken::new_random` and returns
/// its secret. The value is random; the contract states only what oauth2's
/// source shows of every outcome: 16 random bytes encoded in unpadded
/// URL-safe base64, that is 22 ASCII characters.
#[verifier::external_body]
fn fresh_csrf_state() -> (s: String)
    ensures
        s@.len() == 22,
        is_ascii_chars(s@),
{
    CsrfToken::new_random().secret().clone()
}

/// Builds the authorization URL with `oauth2`: a client on `auth_url` with
/// `client_id` and `redirect_uri`, `authorize_url` with `state`, the given
/// scopes, the challenge `PkceCodeChallenge::from_code_verifier_sha256` of
/// `verifier`, then `url()`. The client secret and the token endpoint do not
/// enter this URL, so the client is built without them. `requires` leaves out
/// the inputs on which oauth2 panics: an endpoint or redirect URI that does not
/// parse (unwrapped), a verifier whose byte length is outside 43..=128.
#[verifier::external_body]
fn authorize_url(
    auth_url: &str,
    client_id: &str,
    redirect_uri: &str,
    state: &str,
    verifier: &str,
    scopes: &Vec<String>,
) -> (url: String)
    requires
        url_parses(auth_url@),
        url_parses(redirect_uri@),
        43 <= verifier@.len() <= 128,
        is_ascii_chars(verifier@),
    ensures
        url@ == authorize_url_for(auth_url@, client_id@, redirect_uri@, state@, verifier@, scopes.deep_view()),
{
    let client = oauth2::basic::BasicClient::new(
        ClientId::new(client_id.to_string()), None, AuthUrl::new(auth_url.to_string()).unwrap(), None,
    ).set_redirect_uri(RedirectUrl::new(redirect_uri.to_string()).unwrap());
    let challenge = PkceCodeChallenge::from_code_verifier_sha256(&PkceCodeVerifier::new(verifier.to_string()));
    let (url, _state) = client.authorize_url(|| CsrfToken::new(state.to_string()))
        .add_scopes(scopes.iter().map(|s| Scope::new(s.clone())))
        .set_pkce_challenge(challenge).url();
    url.to_string()
}

/// The scopes that the launcher asks Discord for.
pub open spec fn discord_scopes() -> Seq<Seq<char>> {
    seq!["identify"@, "email"@]
}

fn discord_scope_list() -> (scopes: Vec<String>)
    ensures
        scopes.deep_view() == discord_scopes(),
{
    let scopes = vec!["identify".to_owned(), "email".to_owned()];
    assert(scopes.deep_view() =~= discord_scopes());
    scopes
}

/// A Discord account as the launcher shows it.
#[derive(Debug, Clone, PartialEq, Eq)]
pub struct DiscordUser {
    pub id: String,
    pub username: String,
    pub discriminator: String,
    pub avatar: Option<String>,
}

/// The string member `key` among a document's string members, or the empty
/// string where there is no such member.
pub open spec fn member_or_empty(members: Map<Seq<char>, Seq<char>>, key: Seq<char>) -> Seq<char> {
    if members.contains_key(key) {
        members[key]
    } else {
        Seq::empty()
    }
}

/// The string member `key` among a document's string members, if any.
pub open spec fn member_opt(members: Map<Seq<char>, Seq<char>>, key: Seq<char>) -> Option<Seq<char>> {
    if members.contains_key(key) {
        Some(members[key])
    } else {
        None
    }
}

impl DiscordUser {
    /// The user described by a profile document with the given string
    /// members: `id`, `username` and `discriminator` are their string
    /// members, or empty where missing or not strings; `avatar` is the
    /// string member, if any.
    pub open spec fn described_by(&self, members: Map<Seq<char>, Seq<char>>) -> bool {
        &&& self.id@ == member_or_empty(members, "id"@)
        &&& self.username@ == member_or_empty(members, "username"@)
        &&& self.discriminator@ == member_or_empty(members, "discriminator"@)
        &&& opt_view(self.avatar) == member_opt(members, "avatar"@)
    }

    /// Reads a user from the parsed profile document that Discord returns.
    fn from_profile(doc: &serde_json::Value) -> (u: DiscordUser)
        ensures
            u.described_by(json_str_members(*doc)),
    {
        let id = match str_member(doc, "id") {
            Some(s) => s,
            None => String::new(),
        };
        let username = match str_member(doc, "username") {
            Some(s) => s,
            None => String::new(),
        };
        let discriminator = match str_member(doc, "discriminator") {
            Some(s) => s,
            None => String::new(),
        };
        let avatar = str_member(doc, "avatar");
        DiscordUser { id, username, discriminator, avatar }
    }
}

/// Reads the signed-in user from Discord's answer to the profile request,
/// given its status code, the status in text and its body: a failure status
/// is `AuthError::UserInfoStatus` with the status text; a body that is not
/// JSON is `AuthError::InvalidJson` with the text of the decoding error;
/// otherwise the user that the document describes.
pub fn user_from_answer(status: u16, status_text: &str, body: &[u8]) -> (r: Result<DiscordUser, AuthError>)
    ensures
        !is_success_status(status) ==> (r matches Err(AuthError::UserInfoStatus(t)) && t@ == status_text@),
        is_success_status(status) && json_body_str_members(body@) is None ==> (r matches Err(
            AuthError::InvalidJson(t),
        ) && t@ == decode_error_text(json_error_text(body@))),
        is_success_status(status) ==> (json_body_str_members(body@) matches Some(members) ==> (r matches Ok(u)
            && u.described_by(members))),
{
    check_user_info_status(status, status_text)?;
    match parse_json(body) {
        Ok(doc) => Ok(DiscordUser::from_profile(&doc)),
        Err(cause) => Err(AuthError::InvalidJson(decode_error_message(cause.as_str()))),
    }
}

/// Why a step of the Discord sign-in failed.
#[derive(Debug, Clone, PartialEq, Eq)]
pub enum AuthError {
    /// A code exchange was asked for before any authorization URL was issued.
    VerifierNotSet,
    /// Discord's token endpoint refused the code; the detail says why.
    TokenExchange(String),
    /// The profile request could not be sent; the detail says why.
    Request(String),
    /// The profile request was answered with a failure status, given in text.
    UserInfoStatus(String),
    /// The profile answer was not JSON; the detail says why.
    InvalidJson(String),
}

impl AuthError {
    /// The message shown to the user for this error.
    pub open spec fn spec_message(self) -> Seq<char> {
        match self {
            AuthError::VerifierNotSet => "PKCE verifier not set"@,
            AuthError::TokenExchange(d) => "Token exchange failed: "@ + d@,
            AuthError::Request(d) => "Request failed: "@ + d@,
            AuthError::UserInfoStatus(d) => "Failed to get user info: "@ + d@,
            AuthError::InvalidJson(d) => "Failed to parse JSON: "@ + d@,
        }
    }

    /// Renders the message shown to the user for this error.
    pub fn message(&self) -> (m: String)
        ensures
            m@ == self.spec_message(),
    {
        match self {
            AuthError::VerifierNotSet => "PKCE verifier not set".to_owned(),
            AuthError::TokenExchange(d) => joined("Token exchange failed: ", d.as_str()),
            AuthError::Request(d) => joined("Request failed: ", d.as_str()),
            AuthError::UserInfoStatus(d) => joined("Failed to get user info: ", d.as_str()),
            AuthError::InvalidJson(d) => joined("Failed to parse JSON: ", d.as_str()),
        }
    }
}

/// The `Authorization` header value that presents `access_token` to Discord.
pub fn bearer_authorization(access_token: &str) -> (h: String)
    ensures
        h@ == "Bearer "@ + access_token@,
{
    joined("Bearer ", access_token)
}

/// Decides on the status of Discord's answer to the profile request: a
/// success status lets the profile be read, any other status is an error
/// that carries the status in text.
pub fn check_user_info_status(status: u16, status_text: &str) -> (r: Result<(), AuthError>)
    ensures
        is_success_status(status) ==> r is Ok,
        !is_success_status(status) ==> (r matches Err(AuthError::UserInfoStatus(t)) && t@ == status_text@),
{
    if status_is_success(status) {
        Ok(())
    } else {
        Err(AuthError::UserInfoStatus(status_text.to_owned()))
    }
}

/// The sign-in configuration of the launcher's Discord application, and the
/// secrets of the authorization request in progress, if any.
pub struct DiscordAuth {
    client_id: String,
    client_secret: String,
    redirect_uri: String,
    pkce_verifier: Option<String>,
    csrf_token: Option<String>,
}

/// The view of an optional string.
pub open spec fn opt_view(s: Option<String>) -> Option<Seq<char>> {
    match s {
        Some(v) => Some(v@),
        None => None,
    }
}

impl DiscordAuth {
    pub closed spec fn spec_client_id(&self) -> Seq<char> {
        self.client_id@
    }

    pub closed spec fn spec_client_secret(&self) -> Seq<char> {
        self.client_secret@
    }

    pub closed spec fn spec_redirect_uri(&self) -> Seq<char> {
        self.redirect_uri@
    }

    /// The PKCE verifier of the authorization request in progress.
    pub closed spec fn pending_verifier(&self) -> Option<Seq<char>> {
        opt_view(self.pkce_verifier)
    }

    /// The CSRF state of the authorization request in progress.
    pub closed spec fn pending_state(&self) -> Option<Seq<char>> {
        opt_view(self.csrf_token)
    }

    /// Both URLs that the authorization request parses are accepted.
    pub open spec fn can_authorize(&self) -> bool {
        &&& url_parses(self.spec_redirect_uri())
        &&& url_parses(DISCORD_AUTHORIZE_URL@)
    }

    /// Two values hold the same application configuration.
    pub open spec fn same_config(&self, other: &DiscordAuth) -> bool {
        &&& self.spec_client_id() == other.spec_client_id()
        &&& self.spec_client_secret() == other.spec_client_secret()
        &&& self.spec_redirect_uri() == other.spec_redirect_uri()
    }

    /// `after` is `before` once the authorization URL `url`, with CSRF state
    /// `state`, has been issued: the configuration is kept, `state` (22 ASCII
    /// characters) is kept as the pending state, and a fresh verifier (43
    /// ASCII characters) is kept whose challenge the URL carries.
    pub open spec fn issued(before: DiscordAuth, after: DiscordAuth, url: Seq<char>, state: Seq<char>) -> bool {
        &&& after.same_config(&before)
        &&& after.pending_state() == Some(state)
        &&& state.len() == 22
        &&& is_ascii_chars(state)
        &&& after.pending_verifier() matches Some(v)
        &&& v.len() == 43
        &&& is_ascii_chars(v)
        &&& url == authorize_url_for(
            DISCORD_AUTHORIZE_URL@,
            before.spec_client_id(),
            before.spec_redirect_uri(),
            state,
            v,
            discord_scopes(),
        )
    }

    /// What a code exchange is owed: the pending verifier, or the error
    /// that no authorization request is in progress.
    pub open spec fn exchange_verifier(&self) -> Result<Seq<char>, AuthError> {
        match self.pending_verifier() {
            Some(v) => Ok(v),
            None => Err(AuthError::VerifierNotSet),
        }
    }

    /// Sets up sign-in for the application with the given client id, client
    /// secret and redirect URI; no authorization request is in progress.
    pub fn new(client_id: String, client_secret: String, redirect_uri: String) -> (a: DiscordAuth)
        ensures
            a.spec_client_id() == client_id@,
            a.spec_client_secret() == client_secret@,
            a.spec_redirect_uri() == redirect_uri@,
            a.pending_verifier() is None,
            a.pending_state() is None,
    {
        DiscordAuth { client_id, client_secret, redirect_uri, pkce_verifier: None, csrf_token: None }
    }

    /// The application's client id.
    pub fn client_id(&self) -> (s: &str)
        ensures
            s@ == self.spec_client_id(),
    {
        self.client_id.as_str()
    }

    /// The application's client secret.
    pub fn client_secret(&self) -> (s: &str)
        ensures
            s@ == self.spec_client_secret(),
    {
        self.client_secret.as_str()
    }

    /// The redirect URI registered for the application.
    pub fn redirect_uri(&self) -> (s: &str)
        ensures
            s@ == self.spec_redirect_uri(),
    {
        self.redirect_uri.as_str()
    }

    /// Starts an authorization request: draws a fresh PKCE verifier and CSRF
    /// state, keeps both for the code exchange (replacing any earlier ones),
    /// and returns the authorization URL, asking for the `identify` and
    /// `email` scopes, together with the CSRF state.
    pub fn get_auth_url(&mut self) -> (r: (String, String))
        requires
            old(self).can_authorize(),
        ensures
            DiscordAuth::issued(*old(self), *final(self), r.0@, r.1@),
    {
        let verifier = fresh_pkce_verifier();
        let state = fresh_csrf_state();
        let scopes = discord_scope_list();
        let url = authorize_url(
            DISCORD_AUTHORIZE_URL,
            self.client_id.as_str(),
            self.redirect_uri.as_str(),
            state.as_str(),
            verifier.as_str(),
            &scopes,
        );
        self.pkce_verifier = Some(verifier);
        self.csrf_token = Some(state.clone());
        (url, state)
    }

    /// Starts an authorization request as `get_auth_url` does where both the
    /// redirect URI and the authorization endpoint parse as URLs; otherwise
    /// returns `None` and changes nothing.
    pub fn try_get_auth_url(&mut self) -> (r: Option<(String, String)>)
        ensures
            r is None <==> !old(self).can_authorize(),
            r is None ==> *final(self) == *old(self),
            r matches Some(p) ==> DiscordAuth::issued(*old(self), *final(self), p.0@, p.1@),
    {
        if url_is_valid(self.redirect_uri.as_str()) && url_is_valid(DISCORD_AUTHORIZE_URL) {
            Some(self.get_auth_url())
        } else {
            None
        }
    }

    /// The verifier to present with the authorization code: the pending one,
    /// or `AuthError::VerifierNotSet` where no authorization URL was issued.
    pub fn verifier_for_exchange(&self) -> (r: Result<String, AuthError>)
        ensures
            match self.exchange_verifier() {
                Ok(v) => r matches Ok(s) && s@ == v,
                Err(e) => r == Err::<String, AuthError>(e),
            },
    {
        match &self.pkce_verifier {
            Some(v) => Ok(v.clone()),
            None => Err(AuthError::VerifierNotSet),
        }
    }

    /// The CSRF state of the authorization request in progress, if any.
    pub fn pending_csrf_state(&self) -> (r: Option<String>)
        ensures
            opt_view(r) == self.pending_state(),
    {
        self.csrf_token.clone()
    }
}

/// An issued authorization URL is answered by the code exchange with the
/// very verifier whose challenge the URL carries, whatever request was in
/// progress before, and the state returned with the URL is the one kept.
pub proof fn law_exchange_uses_issued_verifier(
    before: DiscordAuth,
    after: DiscordAuth,
    url: Seq<char>,
    state: Seq<char>,
)
    requires
        DiscordAuth::issued(before, after, url, state),
    ensures
        after.exchange_verifier() matches Ok(v) && url == authorize_url_for(
            DISCORD_AUTHORIZE_URL@,
            before.spec_client_id(),
            before.spec_redirect_uri(),
            state,
            v,
            discord_scopes(),
        ),
        after.pending_state() == Some(state),
        after.same_config(&before),
{
}

/// Without an issued authorization URL there is no code exchange: it fails
/// with `AuthError::VerifierNotSet`. A freshly set up `DiscordAuth` is in
/// that case.
pub proof fn law_exchange_needs_issued_url(auth: DiscordAuth)
    requires
        auth.pending_verifier() is None,
    ensures
        auth.exchange_verifier() == Err::<Seq<char>, AuthError>(AuthError::VerifierNotSet),
{
}

/// The error given when the user did not finish signing in in time.
pub const SIGN_IN_EXPIRED: &'static str = "Authentification expirée ou annulée";

/// The result of a sign-in, from what the wait for the browser's callback
/// gave: the callback's own result, or, where the wait ended without one,
/// the error that the sign-in expired or was cancelled.
pub fn sign_in_outcome(waited: Option<Result<DiscordUser, String>>) -> (r: Result<DiscordUser, String>)
    ensures
        match waited {
            Some(w) => r == w,
            None => r matches Err(m) && m@ == SIGN_IN_EXPIRED@,
        },
{
    match waited {
        Some(w) => w,
        None => Err(SIGN_IN_EXPIRED.to_owned()),
    }
}

/// A user read from a profile document takes each of `id`, `username` and
/// `discriminator` from the document's string member of that very name (and
/// is empty where there is none), whatever other members the document has;
/// `avatar` is the string member `avatar`, if any.
pub proof fn law_user_fields_are_profile_members(user: DiscordUser, members: Map<Seq<char>, Seq<char>>)
    requires
        user.described_by(members),
    ensures
        members.contains_key("id"@) ==> user.id@ == members["id"@],
        !members.contains_key("id"@) ==> user.id@ == Seq::<char>::empty(),
        members.contains_key("username"@) ==> user.username@ == members["username"@],
        !members.contains_key("username"@) ==> user.username@ == Seq::<char>::empty(),
        members.contains_key("discriminator"@) ==> user.discriminator@ == members["discriminator"@],
        !members.contains_key("discriminator"@) ==> user.discriminator@ == Seq::<char>::empty(),
        members.contains_key("avatar"@) ==> (user.avatar matches Some(a) && a@ == members["avatar"@]),
        !members.contains_key("avatar"@) ==> user.avatar is None,
{
}

/// The launcher asks Discord for exactly two scopes, `identify` then
/// `email`, at Discord's authorization endpoint.
pub proof fn law_requested_scopes()
    ensures
        discord_scopes() == seq!["identify"@, "email"@],
        discord_scopes().len() == 2,
        discord_scopes()[0] == "identify"@,
        discord_scopes()[1] == "email"@,
        DISCORD_AUTHORIZE_URL@ == "https://discord.com/oauth2/authorize"@,
{
}

/// An issued authorization URL is the one `oauth2` builds at Discord's
/// authorization endpoint for the application's client id and redirect URI,
/// the returned state, the kept verifier, and the scopes `identify` and
/// `email` in that order.
pub proof fn law_issued_url_asks_identify_and_email(
    before: DiscordAuth,
    after: DiscordAuth,
    url: Seq<char>,
    state: Seq<char>,
)
    requires
        DiscordAuth::issued(before, after, url, state),
    ensures
        after.pending_verifier() matches Some(v) && url == authorize_url_for(
            "https://discord.com/oauth2/authorize"@,
            before.spec_client_id(),
            before.spec_redirect_uri(),
            state,
            v,
            seq!["identify"@, "email"@],
        ),
{
}

/// The messages of the sign-in errors.
pub proof fn law_auth_error_messages(detail: String)
    ensures
        AuthError::VerifierNotSet.spec_message() == "PKCE verifier not set"@,
        AuthError::TokenExchange(detail).spec_message() == "Token exchange failed: "@ + detail@,
        AuthError::Request(detail).spec_message() == "Request failed: "@ + detail@,
        AuthError::UserInfoStatus(detail).spec_message() == "Failed to get user info: "@ + detail@,
        AuthError::InvalidJson(detail).spec_message() == "Failed to parse JSON: "@ + detail@,
        SIGN_IN_EXPIRED@ == "Authentification expirée ou annulée"@,
        DISCORD_USER_INFO_URL@ == "https://discord.com/api/users/@me"@,
        DISCORD_TOKEN_URL@ == "https://discord.com/api/oauth2/token"@,
{
}

} // verus!
