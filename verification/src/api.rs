//! The one-shot interactive authorization flow.
//!
//! On cold start, with no usable stored token, the bot builds an
//! authorization URL around a random anti-forgery value, opens it in the
//! user's browser, and listens on a local callback route.  The callback
//! decision here is the security heart of the flow: a request whose
//! `state` does not match the generated anti-forgery value is rejected
//! outright and never reaches the token exchange.  Opening the browser,
//! serving the route, and posting the exchange are transport work done by
//! the caller; every decision stands here.

use vstd::prelude::*;
use vstd::string::*;
use crate::json::{json_str_at, json_u64_at_spec, json_string_at, json_u64_at};
use crate::tokens::GetAccessTokenResponse;

verus! {

/// A terminal failure of the current authorization attempt.
#[derive(Clone, Debug)]
pub enum LocalApiError {
    /// The issuer's response could not be read.
    ParseError(String),
    /// The token-exchange request failed.
    RequestError(String),
    /// Handing the minted token to the waiting task failed.
    SendError(String),
    /// The callback carried an anti-forgery value other than the one
    /// generated for this run: treated as adversarial, not retried.
    StateMismatch { got: String },
    /// The fixed overall deadline passed with no callback.
    AuthorizationTimedOut,
}

/// The form body of the authorization-code exchange.
#[derive(Clone, Debug)]
pub struct ExchangeRequest {
    pub client_id: String,
    pub client_secret: String,
    pub code: String,
    pub grant_type: String,
    pub redirect_uri: String,
}

/// One run of the interactive authorization flow.
#[derive(Clone, Debug)]
pub struct AuthFlow {
    pub client_id: String,
    pub redirect_url: String,
    pub bot_name: String,
    /// The per-run anti-forgery value embedded in the authorization URL.
    pub csrf_state: String,
}

impl AuthFlow {
    /// Starts a flow around a freshly drawn anti-forgery value.
    pub fn new(client_id: String, redirect_url: String, bot_name: String, csrf_state: String) -> (r:
        AuthFlow)
        ensures
            r.client_id == client_id,
            r.redirect_url == redirect_url,
            r.bot_name == bot_name,
            r.csrf_state == csrf_state,
    {
        AuthFlow { client_id, redirect_url, bot_name, csrf_state }
    }

    /// The authorization URL to open in the user's browser, with the
    /// anti-forgery value embedded as the `state` parameter.
    pub fn authorize_url(&self) -> (r: String)
        ensures
            r@ == "https://id.twitch.tv/oauth2/authorize?response_type=code&client_id="@
                + self.client_id@ + "&redirect_uri="@ + self.redirect_url@ + "&state="@
                + self.csrf_state@,
    {
        let mut s = String::from_str(
            "https://id.twitch.tv/oauth2/authorize?response_type=code&client_id=",
        );
        s.append(self.client_id.as_str());
        s.append("&redirect_uri=");
        s.append(self.redirect_url.as_str());
        s.append("&state=");
        s.append(self.csrf_state.as_str());
        s
    }

    /// Whether a callback's anti-forgery value is the one generated for
    /// this run.
    pub fn csrf_is_valid(&self, state: &String) -> (r: bool)
        ensures
            r == (state@ == self.csrf_state@),
    {
        *state == self.csrf_state
    }

    /// Decides a callback request.  A request whose `state` does not
    /// match the generated anti-forgery value is rejected as a state
    /// mismatch and never reaches the token exchange; a matching request
    /// yields the exact exchange-request body to post to the issuer.
    pub fn oauth_code_callback(&self, code: String, state: String, client_secret: &str) -> (r:
        Result<ExchangeRequest, LocalApiError>)
        ensures
            r is Ok <==> state@ == self.csrf_state@,
            r matches Ok(q) ==> {
                &&& q.client_id@ == self.client_id@
                &&& q.client_secret@ == client_secret@
                &&& q.code@ == code@
                &&& q.grant_type@ == "authorization_code"@
                &&& q.redirect_uri@ == self.redirect_url@
            },
            r matches Err(e) ==> e matches LocalApiError::StateMismatch { got } && got@ == state@,
    {
        if !self.csrf_is_valid(&state) {
            return Err(LocalApiError::StateMismatch { got: state });
        }
        Ok(
            ExchangeRequest {
                client_id: self.client_id.clone(),
                client_secret: String::from_str(client_secret),
                code,
                grant_type: String::from_str("authorization_code"),
                redirect_uri: self.redirect_url.clone(),
            },
        )
    }

    /// Resolves what the await step produced: a token response handed
    /// over by the callback route, a terminal error, or, when the overall
    /// deadline passed with neither, the timeout error.
    pub fn await_outcome(&self, received: Option<Result<GetAccessTokenResponse, LocalApiError>>)
        -> (r: Result<GetAccessTokenResponse, LocalApiError>)
        ensures
            received matches Some(o) ==> r == o,
            received is None ==> (r matches Err(e) && e is AuthorizationTimedOut),
    {
        match received {
            Some(o) => o,
            None => Err(LocalApiError::AuthorizationTimedOut),
        }
    }
}

/// Reads the issuer's answer to the authorization-code exchange: the
/// access and refresh secrets and the lifetime in seconds.  A document
/// without both secrets is a parse error.
pub fn parse_exchange_response(text: &str) -> (r: Result<GetAccessTokenResponse, LocalApiError>)
    ensures
        r is Ok <==> json_str_at(text@, "/access_token"@) is Some && json_str_at(
            text@,
            "/refresh_token"@,
        ) is Some,
        r matches Ok(t) ==> {
            &&& Some(t.access_token@) == json_str_at(text@, "/access_token"@)
            &&& Some(t.refresh_token@) == json_str_at(text@, "/refresh_token"@)
            &&& t.expires_in == json_u64_at_spec(text@, "/expires_in"@)
        },
        r matches Err(e) ==> e is ParseError,
    {
    let access_token = match json_string_at(text, "/access_token") {
        Some(v) => v,
        None => {
            return Err(LocalApiError::ParseError(String::from_str("missing access_token")));
        },
    };
    let refresh_token = match json_string_at(text, "/refresh_token") {
        Some(v) => v,
        None => {
            return Err(LocalApiError::ParseError(String::from_str("missing refresh_token")));
        },
    };
    let expires_in = json_u64_at(text, "/expires_in");
    Ok(GetAccessTokenResponse { access_token, refresh_token, expires_in })
}

/// The plain-text answer of the error route: who was denied, or why the
/// authorization could not be completed.
pub fn catch_oauth_error(error: String, error_description: String, bot_name: &str) -> (r: String)
    ensures
        error@ == "access_denied"@ ==> r@ == bot_name@ + " was denied access to your account"@,
        error@ != "access_denied"@ ==> r@ == bot_name@ + " could not be authorized: "@
            + error_description@ + " ("@ + error@ + ")"@,
{
    let denied = String::from_str("access_denied");
    if error == denied {
        let mut s = String::from_str(bot_name);
        s.append(" was denied access to your account");
        s
    } else {
        let mut s = String::from_str(bot_name);
        s.append(" could not be authorized: ");
        s.append(error_description.as_str());
        s.append(" (");
        s.append(error.as_str());
        s.append(")");
        s
    }
}

} // verus!
