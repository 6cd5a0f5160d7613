use ccg_bot::api::{catch_oauth_error, parse_exchange_response, AuthFlow, LocalApiError};

fn flow() -> AuthFlow {
    AuthFlow::new(
        String::from("IamAclientId"),
        String::from("http://localhost/auth/twitch/callback"),
        String::from("twitch"),
        String::from("R4nd0mSt4te"),
    )
}

#[test]
fn oauth_callback() {
    let code = String::from("TestC0DE");
    let f = flow();
    let state = f.csrf_state.clone();
    match f.oauth_code_callback(code, state, "IamAclientSecret") {
        Ok(req) => {
            assert_eq!(req.code, "TestC0DE");
            assert_eq!(req.client_id, "IamAclientId");
            assert_eq!(req.client_secret, "IamAclientSecret");
            assert_eq!(req.grant_type, "authorization_code");
            assert_eq!(req.redirect_uri, "http://localhost/auth/twitch/callback");
        },
        Err(e) => panic!("{:?}", e),
    };
}

#[test]
fn state_mismatch_is_rejected() {
    // A callback whose state is not the generated anti-forgery value is
    // rejected and never reaches the token exchange.
    let f = flow();
    let r = f.oauth_code_callback(
        String::from("TestC0DE"),
        String::from("SomeoneElsesState"),
        "IamAclientSecret",
    );
    match r {
        Err(LocalApiError::StateMismatch { got }) => assert_eq!(got, "SomeoneElsesState"),
        _ => panic!("expected a state mismatch"),
    }
}

#[test]
fn csrf_validation() {
    let f = flow();
    assert!(f.csrf_is_valid(&String::from("R4nd0mSt4te")));
    assert!(!f.csrf_is_valid(&String::from("r4nd0mst4te")));
}

#[test]
fn authorize_url_embeds_state() {
    let f = flow();
    let url = f.authorize_url();
    let expected = format!(
        "https://id.twitch.tv/oauth2/authorize?response_type=code&client_id={}&redirect_uri={}&state={}",
        "IamAclientId", "http://localhost/auth/twitch/callback", "R4nd0mSt4te",
    );
    assert_eq!(url, expected);
}

#[test]
fn oauth_error() {
    let error = String::from("access_denied");
    let error_description = String::from("Testing");
    let bot_name = "twitch";
    let res = catch_oauth_error(error, error_description.clone(), bot_name);
    assert_eq!(res, format!("{bot_name} was denied access to your account"));
    let error = String::from("Bogus");
    let res2 = catch_oauth_error(error, error_description, bot_name);
    assert_eq!(res2, format!("{bot_name} could not be authorized: Testing (Bogus)"));
}

#[test]
fn exchange_response_parses() {
    let response = "{\"access_token\":\"TestAccessToken\", \"refresh_token\":\"TestRefreshToken\", \"expires_in\": 10, \"scope\": [\"user_read\"], \"token_type\": \"bearer\"}";
    let t = parse_exchange_response(response).unwrap();
    assert_eq!(t.access_token, "TestAccessToken");
    assert_eq!(t.refresh_token, "TestRefreshToken");
    assert_eq!(t.expires_in, Some(10));
}

#[test]
fn from_serdejsonerror_for_localapierror() {
    let broken = "{\"access_token\":\"}";
    match parse_exchange_response(broken) {
        Err(LocalApiError::ParseError(_)) => {},
        _ => panic!("expected a parse error"),
    }
}

#[test]
fn display_for_localapierror() {
    let _ = format!("{:?}", LocalApiError::ParseError(String::from("")));
    let _ = format!("{:?}", LocalApiError::RequestError(String::from("")));
    let _ = format!("{:?}", LocalApiError::SendError(String::from("")));
    let _ = format!("{:?}", LocalApiError::StateMismatch { got: String::from("") });
    let _ = format!("{:?}", LocalApiError::AuthorizationTimedOut);
}

#[test]
fn deadline_without_callback_times_out() {
    let f = flow();
    match f.await_outcome(None) {
        Err(LocalApiError::AuthorizationTimedOut) => {},
        _ => panic!("expected a timeout"),
    }
}
