//! Bot configuration and the defaulting rules used when parts of the
//! configuration file are absent.
//!
//! Reading the file and decoding TOML happen outside this crate; the raw
//! optional values are handed in and combined here, so the defaulting
//! policy itself is verified.

use vstd::prelude::*;
use vstd::string::*;

verus! {

#[derive(Clone, Debug)]
pub struct Config {
    pub database_url: String,
    pub discord_guildid: String,
    pub discord_token: String,
    pub twitch_channels: Vec<String>,
    pub twitch_client_id: String,
    pub twitch_client_secret: String,
    pub twitch_bot_name: String,
    pub twitch_redirect_url: String,
    pub bot_admins: Vec<String>,
}

/// Raw `[database]` table of the configuration file.
#[derive(Clone, Debug)]
pub struct ConfigTomlDatabase {
    pub database_url: Option<String>,
}

/// Raw `[discord]` table of the configuration file.
#[derive(Clone, Debug)]
pub struct ConfigTomlDiscord {
    pub guildid: Option<String>,
    pub token: Option<String>,
}

/// Raw `[twitch]` table of the configuration file.
#[derive(Clone, Debug)]
pub struct ConfigTomlTwitch {
    pub channels: Option<Vec<String>>,
    pub client_id: Option<String>,
    pub client_secret: Option<String>,
    pub bot_name: Option<String>,
    pub redirect_url: Option<String>,
}

/// Raw configuration file contents: every table and field may be absent.
#[derive(Clone, Debug)]
pub struct ConfigToml {
    pub database: Option<ConfigTomlDatabase>,
    pub discord: Option<ConfigTomlDiscord>,
    pub twitch: Option<ConfigTomlTwitch>,
}

impl Default for Config {
    /// An empty configuration, with the one non-empty default the guild id
    /// `"0"`.
    fn default() -> (r: Config)
        ensures
            r.database_url@ == Seq::<char>::empty(),
            r.discord_guildid@ == "0"@,
            r.discord_token@ == Seq::<char>::empty(),
            r.twitch_channels@ == Seq::<String>::empty(),
            r.twitch_client_id@ == Seq::<char>::empty(),
            r.twitch_client_secret@ == Seq::<char>::empty(),
            r.twitch_bot_name@ == Seq::<char>::empty(),
            r.twitch_redirect_url@ == Seq::<char>::empty(),
            r.bot_admins@ == Seq::<String>::empty(),
    {
        Config {
            database_url: String::new(),
            discord_guildid: String::from_str("0"),
            discord_token: String::new(),
            twitch_channels: Vec::new(),
            twitch_client_id: String::new(),
            twitch_client_secret: String::new(),
            twitch_bot_name: String::new(),
            twitch_redirect_url: String::new(),
            bot_admins: Vec::new(),
        }
    }
}

/// The value a string field takes: the field itself if present, else the
/// fallback if present, else the literal default.
pub open spec fn field_or(
    field: Option<Seq<char>>,
    fallback: Option<Seq<char>>,
    dflt: Seq<char>,
) -> Seq<char> {
    match field {
        Some(v) => v,
        None => match fallback {
            Some(v) => v,
            None => dflt,
        },
    }
}

fn pick_string(field: Option<String>, fallback: Option<String>, dflt: &str) -> (r: String)
    ensures
        r@ == field_or(view_opt(field), view_opt(fallback), dflt@),
{
    match field {
        Some(v) => v,
        None => match fallback {
            Some(v) => v,
            None => String::from_str(dflt),
        },
    }
}

/// The view of an optional string.
pub open spec fn view_opt(o: Option<String>) -> Option<Seq<char>> {
    match o {
        Some(v) => Some(v@),
        None => None,
    }
}

impl Config {
    /// Combines the raw configuration file with environment fallbacks,
    /// applying the documented defaults for every absent table or field.
    pub fn from_toml(
        raw: ConfigToml,
        env_database_url: Option<String>,
        env_discord_guildid: Option<String>,
        env_discord_token: Option<String>,
        bot_admins: Vec<String>,
    ) -> (r: Config)
        ensures
            r.database_url@ == (match raw.database {
                Some(db) => field_or(view_opt(db.database_url), view_opt(env_database_url), Seq::<char>::empty()),
                None => Seq::<char>::empty(),
            }),
            r.discord_guildid@ == (match raw.discord {
                Some(d) => field_or(view_opt(d.guildid), view_opt(env_discord_guildid), "0"@),
                None => "0"@,
            }),
            r.discord_token@ == (match raw.discord {
                Some(d) => field_or(view_opt(d.token), view_opt(env_discord_token), "discord"@),
                None => "discord"@,
            }),
            r.twitch_bot_name@ == (match raw.twitch {
                Some(t) => field_or(view_opt(t.bot_name), None, "twitch"@),
                None => "twitch"@,
            }),
            r.twitch_client_id@ == (match raw.twitch {
                Some(t) => field_or(view_opt(t.client_id), None, "twitch"@),
                None => "twitch"@,
            }),
            r.twitch_client_secret@ == (match raw.twitch {
                Some(t) => field_or(view_opt(t.client_secret), None, "twitch"@),
                None => "twitch"@,
            }),
            r.twitch_redirect_url@ == (match raw.twitch {
                Some(t) => field_or(view_opt(t.redirect_url), None, "twitch"@),
                None => "twitch"@,
            }),
            (match raw.twitch {
                Some(t) => match t.channels {
                    Some(cs) => r.twitch_channels@ == cs@,
                    None => r.twitch_channels@.len() == 1 && r.twitch_channels@[0]@ == "twitch"@,
                },
                None => r.twitch_channels@.len() == 1 && r.twitch_channels@[0]@ == "twitch"@,
            }),
            r.bot_admins@ == bot_admins@,
    {
        proof {
            reveal_strlit("");
            assert(""@ =~= Seq::<char>::empty());
        }
        let database_url = match raw.database {
            Some(db) => pick_string(db.database_url, env_database_url, ""),
            None => String::new(),
        };
        let (discord_guildid, discord_token) = match raw.discord {
            Some(d) => (
                pick_string(d.guildid, env_discord_guildid, "0"),
                pick_string(d.token, env_discord_token, "discord"),
            ),
            None => (String::from_str("0"), String::from_str("discord")),
        };
        let (twitch_channels, twitch_client_id, twitch_client_secret, twitch_bot_name,
            twitch_redirect_url) = match raw.twitch {
            Some(t) => {
                let channels = match t.channels {
                    Some(cs) => cs,
                    None => {
                        let mut v: Vec<String> = Vec::new();
                        v.push(String::from_str("twitch"));
                        v
                    },
                };
                (
                    channels,
                    pick_string(t.client_id, None, "twitch"),
                    pick_string(t.client_secret, None, "twitch"),
                    pick_string(t.bot_name, None, "twitch"),
                    pick_string(t.redirect_url, None, "twitch"),
                )
            },
            None => {
                let mut v: Vec<String> = Vec::new();
                v.push(String::from_str("twitch"));
                (
                    v,
                    String::from_str("twitch"),
                    String::from_str("twitch"),
                    String::from_str("twitch"),
                    String::from_str("twitch"),
                )
            },
        };
        Config {
            database_url,
            discord_guildid,
            discord_token,
            twitch_channels,
            twitch_client_id,
            twitch_client_secret,
            twitch_bot_name,
            twitch_redirect_url,
            bot_admins,
        }
    }
}

} // verus!
