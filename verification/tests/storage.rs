use ccg_bot::store::Env;
use ccg_bot::tokens::{BotTokenStorage, UserAccessToken};
use ccg_bot::twitch::TwitchErr;

const CREATED_BEFORE: &str = "2024-01-01T00:00:00+00:00";
const EXPIRES_BEFORE: &str = "2024-01-01T00:00:30+00:00";
const CREATED_AFTER: &str = "2024-02-02T00:00:00+00:00";
const EXPIRES_AFTER: &str = "2024-02-02T00:00:30+00:00";

#[test]
fn setup_load_and_update_tokens() {
    //setup
    let mut env = Env::new();
    env.set("TWITCH_ACCESS_TOKEN", "TestAccessTokenBefore");
    env.set("TWITCH_REFRESH_TOKEN", "TestRefreshTokenBefore");
    env.set("TWITCH_CREATED_AT", CREATED_BEFORE);
    env.set("TWITCH_EXPIRES_AT", EXPIRES_BEFORE);
    let bot_token_storage = BotTokenStorage { prefix: "TWITCH".to_string() };

    // before
    let bat = bot_token_storage.get_env(&env, "ACCESS_TOKEN").unwrap();
    let brt = bot_token_storage.get_env(&env, "REFRESH_TOKEN").unwrap();
    let bca = bot_token_storage.get_env(&env, "CREATED_AT").unwrap();
    let bea = bot_token_storage.get_env(&env, "EXPIRES_AT").unwrap();

    assert_eq!(&bat, "TestAccessTokenBefore");
    assert_eq!(&brt, "TestRefreshTokenBefore");
    assert_eq!(bca.to_string(), CREATED_BEFORE);
    assert_eq!(bea.to_string(), EXPIRES_BEFORE);

    // change
    let _ = bot_token_storage.set_env(&mut env, "ACCESS_TOKEN", "TestAccessTokenAfter");
    let _ = bot_token_storage.set_env(&mut env, "REFRESH_TOKEN", "TestRefreshTokenAfter");
    let _ = bot_token_storage.set_env(&mut env, "CREATED_AT", CREATED_AFTER);
    let _ = bot_token_storage.set_env(&mut env, "EXPIRES_AT", EXPIRES_AFTER);

    // after
    let aat = bot_token_storage.get_env(&env, "ACCESS_TOKEN").unwrap();
    let std_aat = env.get("TWITCH_ACCESS_TOKEN").unwrap();
    println!("{:?}", std_aat);
    let art = bot_token_storage.get_env(&env, "REFRESH_TOKEN").unwrap();
    let std_art = env.get("TWITCH_REFRESH_TOKEN").unwrap();
    println!("{:?}", std_art);
    let aca = bot_token_storage.get_env(&env, "CREATED_AT").unwrap();
    let std_aca = env.get("TWITCH_CREATED_AT").unwrap();
    println!("{:?}", std_aca);
    let aea = bot_token_storage.get_env(&env, "EXPIRES_AT").unwrap();
    let std_aea = env.get("TWITCH_EXPIRES_AT").unwrap();
    println!("{:?}", std_aea);

    assert_eq!(&aat, "TestAccessTokenAfter");
    assert_eq!(&art, "TestRefreshTokenAfter");
    assert_eq!(aca.to_string(), CREATED_AFTER);
    assert_eq!(aea.to_string(), EXPIRES_AFTER);

    assert_ne!(bat, aat);
    assert_ne!(brt, art);
    assert_ne!(bca, aca);
    assert_ne!(bea, aea);
}

#[test]
fn bot_token_storage_load_token() {
    let now: i64 = 1700000000;
    let expiry = now + 7500_i64;
    let bot_token_storage = BotTokenStorage::new();
    let mut env = Env::new();
    env.set("TWITCH_ACCESS_TOKEN", "TestAccessToken");
    env.set("TWITCH_REFRESH_TOKEN", "TestRefreshToken");
    env.set("TWITCH_CREATED_AT", CREATED_BEFORE);
    env.set("TWITCH_EXPIRES_AT", EXPIRES_BEFORE);
    let loaded_token = bot_token_storage.load_token_at(&env, now);
    println!("{:?}", &loaded_token);
    assert_eq!(loaded_token.access_token, "TestAccessToken".to_string());
    assert_eq!(loaded_token.refresh_token, "TestRefreshToken".to_string());
    // The record's timestamps live under TOKEN_CREATED_AT / TOKEN_EXPIRES_AT,
    // so these fall back to their defaults: now, and now plus 7500 seconds.
    assert_eq!(loaded_token.created_at, now);
    assert_eq!(loaded_token.expires_at.unwrap(), expiry);
}

#[test]
fn partial_record_still_loads() {
    // Only the access token is stored: the load still succeeds, with an
    // empty refresh secret and the default 7500-second expiry window.
    let store = BotTokenStorage::new();
    let mut env = Env::new();
    let _ = store.set_env(&mut env, "ACCESS_TOKEN", "OnlyAccess");
    let now: i64 = 1700000000;
    let uat = store.load_token_at(&env, now);
    assert_eq!(uat.access_token, "OnlyAccess");
    assert_eq!(uat.refresh_token, "");
    assert_eq!(uat.created_at, now);
    assert_eq!(uat.expires_at.unwrap() - uat.created_at, 7500);
}

#[test]
fn store_round_trip() {
    // update(token) followed by load() preserves the secrets, the user
    // id, and the timestamps to second precision.
    let store = BotTokenStorage::new();
    let mut env = Env::new();
    let token = UserAccessToken {
        access_token: String::from("AccessSecret"),
        refresh_token: String::from("RefreshSecret"),
        created_at: 1704067200,
        expires_at: Some(1704081600),
    };
    store
        .update_token(&mut env, &token, "clientid", "botname", "141981764")
        .unwrap();
    let now: i64 = 1800000000;
    let loaded = store.load_token_at(&env, now);
    assert_eq!(loaded.access_token, "AccessSecret");
    assert_eq!(loaded.refresh_token, "RefreshSecret");
    assert_eq!(loaded.created_at, 1704067200);
    assert_eq!(loaded.expires_at, Some(1704081600));
    let full = store.token_at(&env, "clientsecret", 1704070000);
    assert_eq!(full.access_token, "AccessSecret");
    assert_eq!(full.refresh_token, "RefreshSecret");
    assert_eq!(full.uid, "141981764");
    assert_eq!(full.name, "botname");
    assert_eq!(full.clientid, "clientid");
    assert_eq!(full.created_at, 1704067200);
    assert_eq!(full.expires_at, 1704081600);
    // Remaining lifetime derives from the stored expiry against now.
    assert_eq!(full.expires_in.as_secs(), 1704081600 - 1704070000);
}

#[test]
fn stored_lifetime_field_wins() {
    let store = BotTokenStorage::new();
    let mut env = Env::new();
    let _ = store.set_env(&mut env, "TOKEN_EXPIRES_IN", "300");
    let full = store.token_at(&env, "secret", 1700000000);
    assert_eq!(full.expires_in.as_secs(), 300);
}

#[test]
fn unparseable_lifetime_falls_back() {
    let store = BotTokenStorage::new();
    let mut env = Env::new();
    let _ = store.set_env(&mut env, "TOKEN_EXPIRES_IN", "not-a-number");
    let full = store.token_at(&env, "secret", 1700000000);
    // Expiry defaults to now + 7500, so the derived lifetime is 7500s.
    assert_eq!(full.expires_in.as_secs(), 7500);
}

#[test]
fn unparseable_timestamp_falls_back() {
    let store = BotTokenStorage::new();
    let mut env = Env::new();
    let _ = store.set_env(&mut env, "TOKEN_CREATED_AT", "yesterday-ish");
    let now: i64 = 1700000000;
    let uat = store.load_token_at(&env, now);
    assert_eq!(uat.created_at, now);
}

#[test]
fn format_key_is_prefix_underscore_upper() {
    let store = BotTokenStorage::new();
    assert_eq!(store.format_key("access_token"), "TWITCH_ACCESS_TOKEN");
    assert_eq!(store.format_key("ACCESS_TOKEN"), "TWITCH_ACCESS_TOKEN");
    let mut base = BotTokenStorage::new();
    let other = base.init(String::from("BOT"));
    assert_eq!(other.format_key("user_id"), "BOT_USER_ID");
}

#[test]
fn missing_value_is_var_error() {
    let store = BotTokenStorage::new();
    let env = Env::new();
    match store.get_env(&env, "ACCESS_TOKEN") {
        Err(TwitchErr::VarErr(_)) => {},
        _ => panic!("expected a missing-value error"),
    }
}

#[test]
fn env_get_set() {
    let mut env = Env::new();
    assert!(env.get("KEY").is_none());
    env.set("KEY", "one");
    assert_eq!(env.get("KEY").unwrap(), "one");
    env.set("KEY", "two");
    assert_eq!(env.get("KEY").unwrap(), "two");
    env.set("OTHER", "three");
    assert_eq!(env.get("KEY").unwrap(), "two");
    assert_eq!(env.get("OTHER").unwrap(), "three");
}

#[test]
fn empty_store_loads_default_window() {
    // Against the real clock: an empty store still yields a record, with
    // the default 7500-second window between creation and expiry.
    let store = BotTokenStorage::new();
    let env = Env::new();
    let uat = store.load_token(&env);
    assert_eq!(uat.access_token, "");
    assert_eq!(uat.refresh_token, "");
    assert_eq!(uat.expires_at.unwrap() - uat.created_at, 7500);
}
