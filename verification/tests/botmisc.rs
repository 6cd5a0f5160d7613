use ccg_bot::config::{
    Config, ConfigToml, ConfigTomlDatabase, ConfigTomlDiscord, ConfigTomlTwitch,
};
use ccg_bot::twitch::{
    has_bot_admin_rights, has_mod_rights, link_command, parse_command, starts_with, Badge,
    ChatMessage, CommandDecision, Handler, LinkDecision, MessageKind, TwitchErr,
};
use ccg_bot::utils::{default_discriminator, is_false, LocalCommandType};
use std::hash::Hash;

#[test]
fn derives_config_toml() {
    let all_some = ConfigToml {
        database: Some(ConfigTomlDatabase { database_url: Some("".to_string()) }),
        discord: Some(ConfigTomlDiscord {
            guildid: Some("".to_string()),
            token: Some("".to_string()),
        }),
        twitch: Some(ConfigTomlTwitch {
            channels: Some(vec!["Twitch".to_string(), "TwitchRivals".to_string()]),
            client_id: Some("".to_string()),
            client_secret: Some("".to_string()),
            bot_name: Some("".to_string()),
            redirect_url: Some("".to_string()),
        }),
    };
    let _discord_some = ConfigToml {
        database: None,
        discord: Some(ConfigTomlDiscord {
            guildid: Some("".to_string()),
            token: Some("".to_string()),
        }),
        twitch: None,
    };
    let _twitch_some = ConfigToml {
        database: None,
        discord: None,
        twitch: Some(ConfigTomlTwitch {
            channels: Some(vec!["Twitch".to_string(), "TwitchRivals".to_string()]),
            client_id: Some("".to_string()),
            client_secret: Some("".to_string()),
            bot_name: Some("".to_string()),
            redirect_url: Some("".to_string()),
        }),
    };
    let _database_some = ConfigToml {
        database: Some(ConfigTomlDatabase { database_url: Some("".to_string()) }),
        discord: None,
        twitch: None,
    };
    let _ = all_some.clone(); // derive(Clone)
    let _ = format!("{:?}", all_some); // derive(Debug)
}

#[test]
fn config_defaults_apply_per_field() {
    let empty = ConfigToml { database: None, discord: None, twitch: None };
    let c = Config::from_toml(empty, None, None, None, vec![]);
    assert_eq!(c.database_url, "");
    assert_eq!(c.discord_guildid, "0");
    assert_eq!(c.discord_token, "discord");
    assert_eq!(c.twitch_bot_name, "twitch");
    assert_eq!(c.twitch_client_id, "twitch");
    assert_eq!(c.twitch_client_secret, "twitch");
    assert_eq!(c.twitch_redirect_url, "twitch");
    assert_eq!(c.twitch_channels, vec!["twitch".to_string()]);

    let partial = ConfigToml {
        database: Some(ConfigTomlDatabase { database_url: None }),
        discord: Some(ConfigTomlDiscord { guildid: None, token: Some("tok".to_string()) }),
        twitch: Some(ConfigTomlTwitch {
            channels: Some(vec!["chan".to_string()]),
            client_id: Some("cid".to_string()),
            client_secret: None,
            bot_name: None,
            redirect_url: None,
        }),
    };
    let c2 = Config::from_toml(
        partial,
        Some("postgres://db".to_string()),
        Some("42".to_string()),
        None,
        vec!["admin".to_string()],
    );
    assert_eq!(c2.database_url, "postgres://db");
    assert_eq!(c2.discord_guildid, "42");
    assert_eq!(c2.discord_token, "tok");
    assert_eq!(c2.twitch_client_id, "cid");
    assert_eq!(c2.twitch_client_secret, "twitch");
    assert_eq!(c2.twitch_channels, vec!["chan".to_string()]);
    assert_eq!(c2.bot_admins, vec!["admin".to_string()]);
}

#[test]
fn debug_handler() {
    let handle = Handler(Config {
        database_url: "".to_string(),
        discord_guildid: "".to_string(),
        discord_token: "".to_string(),
        twitch_bot_name: "".to_string(),
        twitch_channels: vec![],
        twitch_client_id: "".to_string(),
        twitch_client_secret: "".to_string(),
        twitch_redirect_url: "".to_string(),
        bot_admins: vec![],
    });
    let _ = format!("{:?}", handle);
}

#[test]
fn hanlder_debug() {
    let _ = format!("{:?}", Handler(Config::default()));
}

#[test]
fn clippy_dbg() {
    println!("{:?}", "test clippy::dbg_macro lint regression");
}

#[test]
fn parse_message() {
    ccg_bot::twitch::parse_message("info", "Test info");
    ccg_bot::twitch::parse_message("debug", "Test debug");
    ccg_bot::twitch::parse_message("trace", "Test trace");
}

#[test]
fn discriminator_default() {
    let _ = default_discriminator();
}

#[test]
fn is_false_flips() {
    assert!(is_false(&false));
    assert!(!is_false(&true));
}

#[test]
fn derives_on_localcommandtype() {
    let upstream = LocalCommandType::ChatInput;
    let copy = upstream; // derive(Copy)
    let clone = LocalCommandType::ChatInput.clone(); // derive(Clone)
    assert_eq!(copy, clone);
    assert!(upstream < LocalCommandType::User); // derive(Eq, PartialEq, PartialOrd, Ord)
    upstream.hash(&mut std::collections::hash_map::DefaultHasher::new()); // derive(Hash)
    let _ = format!("{:?}", upstream); // derive(Debug)
}

#[test]
fn localcommandtype_numbers_round_trip() {
    assert_eq!(LocalCommandType::ChatInput.number(), 1);
    assert_eq!(LocalCommandType::User.number(), 2);
    assert_eq!(LocalCommandType::Message.number(), 3);
    assert_eq!(LocalCommandType::Unknown.number(), 255);
    assert!(matches!(LocalCommandType::from_number(1), LocalCommandType::ChatInput));
    assert!(matches!(LocalCommandType::from_number(2), LocalCommandType::User));
    assert!(matches!(LocalCommandType::from_number(3), LocalCommandType::Message));
    assert!(matches!(LocalCommandType::from_number(7), LocalCommandType::Unknown));
}

fn moderator_message(text: &str) -> ChatMessage {
    ChatMessage {
        channel_login: "zoes17".to_string(),
        sender_login: "testuser".to_string(),
        message_text: text.to_string(),
        badges: vec![Badge { name: "moderator".to_string(), version: "1".to_string() }],
    }
}

#[test]
fn mod_status() {
    let message = moderator_message("This is a test");
    assert_eq!(true, has_mod_rights(message));
}

#[test]
fn no_badges_no_mod_rights() {
    let message = ChatMessage {
        channel_login: "zoes17".to_string(),
        sender_login: "testuser".to_string(),
        message_text: "hi".to_string(),
        badges: vec![Badge { name: "subscriber".to_string(), version: "1".to_string() }],
    };
    assert!(!has_mod_rights(message));
}

fn test_config(admins: Vec<&str>) -> Config {
    let mut c = Config::default();
    c.bot_admins = admins.into_iter().map(String::from).collect();
    c
}

#[test]
fn parse() {
    let config = test_config(vec![]);
    let message = moderator_message("This is a test");
    let t = parse_command(MessageKind::Privmsg, &message, &config);
    assert_eq!(t, CommandDecision::Ignore);
}

#[test]
fn ping_command_runs_for_moderators() {
    let config = test_config(vec![]);
    let message = moderator_message("!ping");
    assert_eq!(
        parse_command(MessageKind::Privmsg, &message, &config),
        CommandDecision::RunPing
    );
}

#[test]
fn link_command_needs_admin() {
    let config = test_config(vec!["testuser"]);
    let message = ChatMessage {
        channel_login: "zoes17".to_string(),
        sender_login: "testuser".to_string(),
        message_text: "!link twitch discord".to_string(),
        badges: vec![],
    };
    assert_eq!(
        parse_command(MessageKind::Whisper, &message, &config),
        CommandDecision::RunLink
    );
    let stranger = ChatMessage { sender_login: "stranger".to_string(), ..message };
    assert_eq!(
        parse_command(MessageKind::Whisper, &stranger, &config),
        CommandDecision::Ignore
    );
}

#[test]
fn admin_rights_come_from_config() {
    let config = test_config(vec!["test_admin"]);
    assert!(has_bot_admin_rights("test_admin".to_string(), &config));
    assert!(!has_bot_admin_rights("test_user".to_string(), &config));
}

#[test]
fn starts_with_prefixes() {
    assert!(starts_with("!ping now", "!ping"));
    assert!(starts_with("!ping", "!ping"));
    assert!(!starts_with("!pin", "!ping"));
    assert!(!starts_with("say !ping", "!ping"));
}

#[test]
fn fmt_twitch_err_var_error() {
    let e = TwitchErr::VarErr("environment value not present".to_string());
    let _ = format!("{:?}", &e);
    let _ = e.message();
}

#[test]
fn fmt_twitch_err_other_error() {
    let other_error = TwitchErr::Other("Other Error".to_string());
    let _ = other_error.message();
}

#[test]
fn fmt_twitch_err_failedtoparse_error() {
    let failed_to_parse = TwitchErr::FailedToParse {
        key: "TEST_FAIL".to_string(),
        value: "failed to parse".to_string(),
        error: Some("Failed successfully".to_string()),
    };
    let _ = failed_to_parse.message();
}

#[test]
fn link_command_handle() {
    let decision = link_command("!link CourtesyCallGaming 379001295744532481");
    assert_eq!(
        decision,
        LinkDecision::Linked {
            twitch_un: "CourtesyCallGaming".to_string(),
            discord_id: "379001295744532481".to_string(),
            inverted: false,
        }
    );
}

#[test]
fn command_handle_flipped_params() {
    let decision = link_command("!link 379001295744532481 CourtesyCallGaming");
    assert_eq!(
        decision,
        LinkDecision::Linked {
            twitch_un: "CourtesyCallGaming".to_string(),
            discord_id: "379001295744532481".to_string(),
            inverted: true,
        }
    );
}

#[test]
fn command_handle_too_few_params() {
    let decision = link_command("!link CourtesyCallGaming");
    assert_eq!(decision, LinkDecision::Usage);
}

#[test]
fn split_whitespace_tokens() {
    let toks = ccg_bot::strings::split_whitespace_vec("  one two\tthree  ");
    assert_eq!(toks, vec!["one".to_string(), "two".to_string(), "three".to_string()]);
    let none: Vec<String> = ccg_bot::strings::split_whitespace_vec("   ");
    assert!(none.is_empty());
}

#[test]
fn parse_u64_digits() {
    assert_eq!(ccg_bot::strings::parse_u64("0"), Some(0));
    assert_eq!(ccg_bot::strings::parse_u64("379001295744532481"), Some(379001295744532481));
    assert_eq!(ccg_bot::strings::parse_u64("18446744073709551615"), Some(u64::MAX));
    assert_eq!(ccg_bot::strings::parse_u64("18446744073709551616"), None);
    assert_eq!(ccg_bot::strings::parse_u64(""), None);
    assert_eq!(ccg_bot::strings::parse_u64("12a"), None);
    assert_eq!(ccg_bot::strings::parse_u64("007"), Some(7));
}

#[test]
fn stacktrace_joins_messages() {
    let frames = vec![
        "outermost failure".to_string(),
        "caused by the middle layer".to_string(),
        "root cause".to_string(),
    ];
    assert_eq!(
        ccg_bot::twitch::get_stacktrace(&frames),
        "outermost failure\ncaused by the middle layer\nroot cause"
    );
    assert_eq!(ccg_bot::twitch::get_stacktrace(&vec![]), "");
    assert_eq!(ccg_bot::twitch::get_stacktrace(&vec!["just one".to_string()]), "just one");
}

#[test]
fn twitch_err_messages() {
    assert_eq!(
        TwitchErr::Other("Other Error".to_string()).message(),
        "Other error: Other Error"
    );
    assert_eq!(
        TwitchErr::VarErr("NotPresent".to_string()).message(),
        "Var error: NotPresent"
    );
    assert_eq!(
        TwitchErr::FailedToParse {
            key: "TEST_FAIL".to_string(),
            value: "failed to parse".to_string(),
            error: Some("Failed successfully".to_string()),
        }
        .message(),
        "Failed to parse failed to parse as TEST_FAIL"
    );
}
