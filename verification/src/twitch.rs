//! Twitch-side plumbing: the error taxonomy, the chat handler shell, and
//! the small decision rules of the chat-command layer.

use vstd::prelude::*;
use vstd::string::*;
use crate::config::Config;
use crate::strings::{dec_val, is_dec_digits, parse_u64, split_whitespace_vec, strs_view,
    ws_tokens};

verus! {

/// Handle to a running chat listener, carrying its configuration.
#[derive(Debug)]
pub struct Handler(pub Config);

/// Errors of the Twitch side: a value that failed to parse, a missing
/// environment value, or anything else.
#[derive(Clone, Debug)]
pub enum TwitchErr {
    FailedToParse { key: String, value: String, error: Option<String> },
    Other(String),
    VarErr(String),
}

impl TwitchErr {
    /// A human-readable rendering of the error.
    pub fn message(&self) -> (r: String)
        ensures
            r@.len() > 0,
    {
        match self {
            TwitchErr::FailedToParse { key, value, error: _ } => {
                let mut s = String::from_str("Failed to parse ");
                s.append(value.as_str());
                s.append(" as ");
                s.append(key.as_str());
                proof {
                    reveal_strlit("Failed to parse ");
                }
                s
            },
            TwitchErr::VarErr(e) => {
                let mut s = String::from_str("Var error: ");
                s.append(e.as_str());
                proof {
                    reveal_strlit("Var error: ");
                }
                s
            },
            TwitchErr::Other(e) => {
                let mut s = String::from_str("Other error: ");
                s.append(e.as_str());
                proof {
                    reveal_strlit("Other error: ");
                }
                s
            },
        }
    }
}

/// A chat badge: a name and a version, as carried on chat messages.
#[derive(Clone, Debug)]
pub struct Badge {
    pub name: String,
    pub version: String,
}

/// The parts of a channel chat message that the command layer reads.
#[derive(Clone, Debug)]
pub struct ChatMessage {
    pub channel_login: String,
    pub sender_login: String,
    pub message_text: String,
    pub badges: Vec<Badge>,
}

/// True iff some badge in the sequence has the given name with version "1".
pub open spec fn has_badge(badges: Seq<Badge>, name: Seq<char>) -> bool {
    exists|i: int| 0 <= i < badges.len() && badges[i].name@ == name && badges[i].version@ == "1"@
}

/// Whether the sender of a message holds moderator rights in the channel:
/// a `moderator/1` or `broadcaster/1` badge.
pub fn has_mod_rights(message: ChatMessage) -> (r: bool)
    ensures
        r == (has_badge(message.badges@, "moderator"@) || has_badge(
            message.badges@,
            "broadcaster"@,
        )),
{
    badges_have_mod(&message.badges)
}

fn badges_have_mod(badges: &Vec<Badge>) -> (r: bool)
    ensures
        r == (has_badge(badges@, "moderator"@) || has_badge(badges@, "broadcaster"@)),
{
    let moderator = String::from_str("moderator");
    let broadcaster = String::from_str("broadcaster");
    let one = String::from_str("1");
    let n = badges.len();
    let mut i: usize = 0;
    while i < n
        invariant
            n == badges.len(),
            0 <= i <= n,
            moderator@ == "moderator"@,
            broadcaster@ == "broadcaster"@,
            one@ == "1"@,
            forall|j: int|
                0 <= j < i ==> !(badges@[j].name@ == "moderator"@ && badges@[j].version@ == "1"@),
            forall|j: int|
                0 <= j < i ==> !(badges@[j].name@ == "broadcaster"@ && badges@[j].version@
                    == "1"@),
        decreases n - i,
    {
        let b = &badges[i];
        if (b.name == moderator || b.name == broadcaster) && b.version == one {
            return true;
        }
        i += 1;
    }
    false
}

/// True iff some admitted login equals the given one.
pub open spec fn is_admin(admins: Seq<String>, login: Seq<char>) -> bool {
    exists|i: int| 0 <= i < admins.len() && admins[i]@ == login
}

/// Whether a user is one of the configured bot administrators.
pub fn has_bot_admin_rights(user_login: String, config: &Config) -> (r: bool)
    ensures
        r == is_admin(config.bot_admins@, user_login@),
{
    let n = config.bot_admins.len();
    let mut i: usize = 0;
    while i < n
        invariant
            n == config.bot_admins.len(),
            0 <= i <= n,
            forall|j: int| 0 <= j < i ==> config.bot_admins@[j]@ != user_login@,
        decreases n - i,
    {
        if config.bot_admins[i] == user_login {
            return true;
        }
        i += 1;
    }
    false
}


/// Accepts a log line at one of the supported verbosity levels (`info`,
/// `debug` or `trace`); other levels are not accepted.  The logging sink
/// itself lives outside this crate.
pub fn parse_message(level: &str, message: &str) -> (r: bool)
    requires
        level@ == "info"@ || level@ == "debug"@ || level@ == "trace"@,
    ensures
        r,
{
    let _ = message;
    true
}


/// True iff `p` is a prefix of `s`.
pub open spec fn starts_with_spec(s: Seq<char>, p: Seq<char>) -> bool {
    s.len() >= p.len() && s.subrange(0, p.len() as int) == p
}

/// Whether the string starts with the given prefix.
pub fn starts_with(s: &str, prefix: &str) -> (r: bool)
    ensures
        r == starts_with_spec(s@, prefix@),
{
    let n = prefix.unicode_len();
    let m = s.unicode_len();
    if m < n {
        return false;
    }
    let head = String::from_str(s.substring_char(0, n));
    let p = String::from_str(prefix);
    head == p
}

/// Which kind of chat message the command layer is looking at.
#[derive(Clone, Copy, Debug, PartialEq, Eq, Structural)]
pub enum MessageKind {
    /// A channel message.
    Privmsg,
    /// A direct whisper.
    Whisper,
}

/// What the command layer decides to do with a message.
#[derive(Clone, Copy, Debug, PartialEq, Eq, Structural)]
pub enum CommandDecision {
    /// Run the ping command.
    RunPing,
    /// Run the account-link command.
    RunLink,
    /// Log the message at debug level and move on.
    LogDebug,
    /// Nothing to do.
    Ignore,
}

/// Decides what a chat message triggers.  In a channel, a sender with
/// moderator or bot-admin rights may run the ping command; in a whisper,
/// only a bot admin is heard at all, and may run the account-link
/// command.
pub fn parse_command(kind: MessageKind, message: &ChatMessage, config: &Config) -> (r:
    CommandDecision)
    ensures
        ({
            let rights = has_badge(message.badges@, "moderator"@) || has_badge(
                message.badges@,
                "broadcaster"@,
            ) || is_admin(config.bot_admins@, message.sender_login@);
            let admin = is_admin(config.bot_admins@, message.sender_login@);
            match kind {
                MessageKind::Privmsg => r == (if rights && starts_with_spec(
                    message.message_text@,
                    "!ping"@,
                ) {
                    CommandDecision::RunPing
                } else {
                    CommandDecision::Ignore
                }),
                MessageKind::Whisper => r == (if admin {
                    if starts_with_spec(message.message_text@, "!link"@) {
                        CommandDecision::RunLink
                    } else {
                        CommandDecision::LogDebug
                    }
                } else {
                    CommandDecision::Ignore
                }),
            }
        }),
{
    match kind {
        MessageKind::Privmsg => {
            let rights = badges_have_mod(&message.badges) || has_bot_admin_rights(
                message.sender_login.clone(),
                config,
            );
            if rights && starts_with(message.message_text.as_str(), "!ping") {
                CommandDecision::RunPing
            } else {
                CommandDecision::Ignore
            }
        },
        MessageKind::Whisper => {
            if has_bot_admin_rights(message.sender_login.clone(), config) {
                if starts_with(message.message_text.as_str(), "!link") {
                    CommandDecision::RunLink
                } else {
                    CommandDecision::LogDebug
                }
            } else {
                CommandDecision::Ignore
            }
        },
    }
}


/// What an account-link whisper asks for.
#[derive(Clone, Debug, PartialEq, Eq)]
pub enum LinkDecision {
    /// Link this Twitch username to this Discord id.  `inverted` records
    /// that the two arguments arrived in the swapped order, so the sender
    /// is told about the assumption.
    Linked { twitch_un: String, discord_id: String, inverted: bool },
    /// The message did not carry exactly two arguments: answer with the
    /// usage line.
    Usage,
}

/// Reads the arguments of an account-link whisper: `!link` plus exactly
/// two words, a Twitch username and a numeric Discord id in either
/// order.  A second word that is a number is taken as the Discord id;
/// otherwise the arguments are assumed inverted.
pub fn link_command(content: &str) -> (r: LinkDecision)
    ensures
        ({
            let toks = ws_tokens(content@);
            if toks.len() == 3 {
                &&& (r matches LinkDecision::Linked { twitch_un, discord_id, inverted } ==> {
                    if is_dec_digits(toks[2]) && dec_val(toks[2]) <= u64::MAX {
                        twitch_un@ == toks[1] && discord_id@ == toks[2] && !inverted
                    } else {
                        twitch_un@ == toks[2] && discord_id@ == toks[1] && inverted
                    }
                })
                &&& r !is Usage
            } else {
                r is Usage
            }
        }),
{
    let toks = split_whitespace_vec(content);
    if toks.len() == 3 {
        let first = toks[1].clone();
        let second = toks[2].clone();
        match parse_u64(second.as_str()) {
            Some(_) => LinkDecision::Linked {
                twitch_un: first,
                discord_id: second,
                inverted: false,
            },
            None => LinkDecision::Linked {
                twitch_un: second,
                discord_id: first,
                inverted: true,
            },
        }
    } else {
        LinkDecision::Usage
    }
}


/// A sequence of messages joined with newlines.
pub open spec fn joined_lines(v: Seq<Seq<char>>) -> Seq<char>
    decreases v.len(),
{
    if v.len() == 0 {
        Seq::empty()
    } else if v.len() == 1 {
        v[0]
    } else {
        joined_lines(v.drop_last()) + seq!['\n'] + v.last()
    }
}

/// Renders an error and the chain of its causes, one message per line,
/// outermost first.
pub fn get_stacktrace(frames: &Vec<String>) -> (r: String)
    ensures
        r@ == joined_lines(strs_view(frames@)),
{
    let mut s = String::new();
    let n = frames.len();
    let mut i: usize = 0;
    proof {
        reveal_strlit("\n");
        assert("\n"@ =~= seq!['\n']);
        assert(strs_view(frames@).take(0) =~= Seq::<Seq<char>>::empty());
    }
    while i < n
        invariant
            n == frames@.len(),
            0 <= i <= n,
            "\n"@ == seq!['\n'],
            s@ == joined_lines(strs_view(frames@).take(i as int)),
        decreases n - i,
    {
        if i > 0 {
            s.append("\n");
        }
        s.append(frames[i].as_str());
        proof {
            let v = strs_view(frames@);
            assert(v.take(i + 1).drop_last() =~= v.take(i as int));
            assert(v.take(i + 1).last() == v[i as int]);
        }
        i += 1;
    }
    proof {
        assert(strs_view(frames@).take(n as int) =~= strs_view(frames@));
    }
    s
}

} // verus!
