//! The realtime event client: a state machine over one logical
//! event-stream connection.
//!
//! The transport (socket connects, reads, writes, HTTP subscription
//! calls) lives with the caller; every decision stands here.  Each socket
//! event is fed to [`WebsocketClient::process_message`], which updates
//! the session state and answers with the actions to perform (send a
//! pong, refresh the token, create subscriptions, dispatch a moderation
//! event, reconnect) or with the typed fatal error that ends the run.
//! [`WebsocketClient::run_script`] folds a whole sequence of events, so
//! the run loop's behaviour is pinned down by one spec function.

use vstd::prelude::*;
use vstd::string::*;
use crate::config::view_opt;
use crate::json::{json_str_at, json_bool_at_spec, json_string_at, json_bool_at};
use crate::strings::strs_view;
use crate::tokens::{Token, AppToken};

verus! {

// ---------------------------------------------------------------------
// Socket events and their views
// ---------------------------------------------------------------------

/// A close frame's payload: a code and a reason.
#[derive(Debug)]
pub struct CloseInfo {
    pub code: u16,
    pub reason: String,
}

pub struct CloseV {
    pub code: u16,
    pub reason: Seq<char>,
}

impl View for CloseInfo {
    type V = CloseV;

    open spec fn view(&self) -> CloseV {
        CloseV { code: self.code, reason: self.reason@ }
    }
}

/// What one read of the socket produced, as the transport hands it in.
#[derive(Debug)]
pub enum SocketEvent {
    /// A text frame: UTF-8 JSON to classify.
    Text(String),
    /// A binary frame: logged and ignored.
    Binary(Vec<u8>),
    /// A ping frame carrying a payload to echo.
    Ping(Vec<u8>),
    /// A pong frame: ignored.
    Pong(Vec<u8>),
    /// A close frame, with or without a payload.
    Close(Option<CloseInfo>),
    /// The connection was reset without a close handshake.
    Reset,
    /// Any other socket-level failure, with its description.
    Failed(String),
}

pub enum EventV {
    Text(Seq<char>),
    Binary(Seq<u8>),
    Ping(Seq<u8>),
    Pong(Seq<u8>),
    Close(Option<CloseV>),
    Reset,
    Failed(Seq<char>),
}

impl View for SocketEvent {
    type V = EventV;

    open spec fn view(&self) -> EventV {
        match *self {
            SocketEvent::Text(s) => EventV::Text(s@),
            SocketEvent::Binary(b) => EventV::Binary(b@),
            SocketEvent::Ping(b) => EventV::Ping(b@),
            SocketEvent::Pong(b) => EventV::Pong(b@),
            SocketEvent::Close(None) => EventV::Close(None),
            SocketEvent::Close(Some(c)) => EventV::Close(Some(c@)),
            SocketEvent::Reset => EventV::Reset,
            SocketEvent::Failed(s) => EventV::Failed(s@),
        }
    }
}

// ---------------------------------------------------------------------
// Frames and their views
// ---------------------------------------------------------------------

/// The session identity a welcome or reconnect handshake carries.
#[derive(Debug)]
pub struct SessionInfo {
    pub id: String,
    pub reconnect_url: Option<String>,
}

pub struct SessionV {
    pub id: Seq<char>,
    pub reconnect_url: Option<Seq<char>>,
}

impl View for SessionInfo {
    type V = SessionV;

    open spec fn view(&self) -> SessionV {
        SessionV { id: self.id@, reconnect_url: view_opt(self.reconnect_url) }
    }
}

/// A channel ban event, as a notification frame carries it.
#[derive(Debug)]
pub struct BanEvent {
    pub user_id: String,
    pub user_login: String,
    pub broadcaster_user_id: String,
    pub moderator_user_id: String,
    pub reason: String,
    pub is_permanent: bool,
}

pub struct BanV {
    pub user_id: Seq<char>,
    pub user_login: Seq<char>,
    pub broadcaster_user_id: Seq<char>,
    pub moderator_user_id: Seq<char>,
    pub reason: Seq<char>,
    pub is_permanent: bool,
}

impl View for BanEvent {
    type V = BanV;

    open spec fn view(&self) -> BanV {
        BanV {
            user_id: self.user_id@,
            user_login: self.user_login@,
            broadcaster_user_id: self.broadcaster_user_id@,
            moderator_user_id: self.moderator_user_id@,
            reason: self.reason@,
            is_permanent: self.is_permanent,
        }
    }
}

/// A channel unban event, as a notification frame carries it.
#[derive(Debug)]
pub struct UnbanEvent {
    pub user_id: String,
    pub user_login: String,
    pub broadcaster_user_id: String,
    pub moderator_user_id: String,
}

pub struct UnbanV {
    pub user_id: Seq<char>,
    pub user_login: Seq<char>,
    pub broadcaster_user_id: Seq<char>,
    pub moderator_user_id: Seq<char>,
}

impl View for UnbanEvent {
    type V = UnbanV;

    open spec fn view(&self) -> UnbanV {
        UnbanV {
            user_id: self.user_id@,
            user_login: self.user_login@,
            broadcaster_user_id: self.broadcaster_user_id@,
            moderator_user_id: self.moderator_user_id@,
        }
    }
}

/// What a notification frame announces.
#[derive(Debug)]
pub enum Notice {
    Ban(BanEvent),
    Unban(UnbanEvent),
    /// An event type this client does not handle: ignored, not fatal.
    Other,
}

pub enum NoticeV {
    Ban(BanV),
    Unban(UnbanV),
    Other,
}

impl View for Notice {
    type V = NoticeV;

    open spec fn view(&self) -> NoticeV {
        match *self {
            Notice::Ban(e) => NoticeV::Ban(e@),
            Notice::Unban(e) => NoticeV::Unban(e@),
            Notice::Other => NoticeV::Other,
        }
    }
}

/// A classified event-stream frame.
#[derive(Debug)]
pub enum Frame {
    Welcome(SessionInfo),
    Reconnect(SessionInfo),
    Notification(Notice),
    Revocation,
    Keepalive,
    /// A message type this client does not know: ignored, not fatal.
    Unknown,
}

pub enum FrameV {
    Welcome(SessionV),
    Reconnect(SessionV),
    Notification(NoticeV),
    Revocation,
    Keepalive,
    Unknown,
}

impl View for Frame {
    type V = FrameV;

    open spec fn view(&self) -> FrameV {
        match *self {
            Frame::Welcome(s) => FrameV::Welcome(s@),
            Frame::Reconnect(s) => FrameV::Reconnect(s@),
            Frame::Notification(n) => FrameV::Notification(n@),
            Frame::Revocation => FrameV::Revocation,
            Frame::Keepalive => FrameV::Keepalive,
            Frame::Unknown => FrameV::Unknown,
        }
    }
}

// ---------------------------------------------------------------------
// Frame classification
// ---------------------------------------------------------------------

/// The string at a pointer, or the empty string.
pub open spec fn str_or_empty(t: Seq<char>, p: Seq<char>) -> Seq<char> {
    match json_str_at(t, p) {
        Some(s) => s,
        None => Seq::empty(),
    }
}

/// The boolean at a pointer, or false.
pub open spec fn bool_or_false(t: Seq<char>, p: Seq<char>) -> bool {
    match json_bool_at_spec(t, p) {
        Some(b) => b,
        None => false,
    }
}

/// The session identity carried by a handshake frame, or `None` when the
/// frame lacks a session id.
pub open spec fn session_spec(t: Seq<char>) -> Option<SessionV> {
    match json_str_at(t, "/payload/session/id"@) {
        Some(id) => Some(
            SessionV { id, reconnect_url: json_str_at(t, "/payload/session/reconnect_url"@) },
        ),
        None => None,
    }
}

/// The ban event carried by a `channel.ban` notification; absent fields
/// degrade to empty strings.
pub open spec fn ban_spec(t: Seq<char>) -> BanV {
    BanV {
        user_id: str_or_empty(t, "/payload/event/user_id"@),
        user_login: str_or_empty(t, "/payload/event/user_login"@),
        broadcaster_user_id: str_or_empty(t, "/payload/event/broadcaster_user_id"@),
        moderator_user_id: str_or_empty(t, "/payload/event/moderator_user_id"@),
        reason: str_or_empty(t, "/payload/event/reason"@),
        is_permanent: bool_or_false(t, "/payload/event/is_permanent"@),
    }
}

/// The unban event carried by a `channel.unban` notification.
pub open spec fn unban_spec(t: Seq<char>) -> UnbanV {
    UnbanV {
        user_id: str_or_empty(t, "/payload/event/user_id"@),
        user_login: str_or_empty(t, "/payload/event/user_login"@),
        broadcaster_user_id: str_or_empty(t, "/payload/event/broadcaster_user_id"@),
        moderator_user_id: str_or_empty(t, "/payload/event/moderator_user_id"@),
    }
}

/// How a text frame classifies: by its `metadata.message_type`, then for
/// handshakes by the session payload and for notifications by the
/// subscription type.  `None` is a malformed frame, which is fatal.
pub open spec fn frame_spec(t: Seq<char>) -> Option<FrameV> {
    match json_str_at(t, "/metadata/message_type"@) {
        None => None,
        Some(mt) => if mt == "session_welcome"@ {
            match session_spec(t) {
                Some(s) => Some(FrameV::Welcome(s)),
                None => None,
            }
        } else if mt == "session_reconnect"@ {
            match session_spec(t) {
                Some(s) => Some(FrameV::Reconnect(s)),
                None => None,
            }
        } else if mt == "notification"@ {
            match json_str_at(t, "/payload/subscription/type"@) {
                None => None,
                Some(st) => if st == "channel.ban"@ {
                    Some(FrameV::Notification(NoticeV::Ban(ban_spec(t))))
                } else if st == "channel.unban"@ {
                    Some(FrameV::Notification(NoticeV::Unban(unban_spec(t))))
                } else {
                    Some(FrameV::Notification(NoticeV::Other))
                },
            }
        } else if mt == "revocation"@ {
            Some(FrameV::Revocation)
        } else if mt == "session_keepalive"@ {
            Some(FrameV::Keepalive)
        } else {
            Some(FrameV::Unknown)
        },
    }
}

fn get_str_or_empty(text: &str, pointer: &str) -> (r: String)
    ensures
        r@ == str_or_empty(text@, pointer@),
{
    match json_string_at(text, pointer) {
        Some(v) => v,
        None => String::new(),
    }
}

fn get_bool_or_false(text: &str, pointer: &str) -> (r: bool)
    ensures
        r == bool_or_false(text@, pointer@),
{
    match json_bool_at(text, pointer) {
        Some(b) => b,
        None => false,
    }
}

fn read_session(text: &str) -> (r: Option<SessionInfo>)
    ensures
        r matches Some(s) ==> session_spec(text@) == Some(s@),
        r is None ==> session_spec(text@) is None,
{
    match json_string_at(text, "/payload/session/id") {
        Some(id) => {
            let reconnect_url = json_string_at(text, "/payload/session/reconnect_url");
            Some(SessionInfo { id, reconnect_url })
        },
        None => None,
    }
}

/// Classifies a text frame; `None` means the frame is malformed.
pub fn classify_frame(text: &str) -> (r: Option<Frame>)
    ensures
        r matches Some(f) ==> frame_spec(text@) == Some(f@),
        r is None ==> frame_spec(text@) is None,
{
    let mt = match json_string_at(text, "/metadata/message_type") {
        Some(v) => v,
        None => {
            return None;
        },
    };
    if mt == String::from_str("session_welcome") {
        match read_session(text) {
            Some(s) => Some(Frame::Welcome(s)),
            None => None,
        }
    } else if mt == String::from_str("session_reconnect") {
        match read_session(text) {
            Some(s) => Some(Frame::Reconnect(s)),
            None => None,
        }
    } else if mt == String::from_str("notification") {
        let st = match json_string_at(text, "/payload/subscription/type") {
            Some(v) => v,
            None => {
                return None;
            },
        };
        if st == String::from_str("channel.ban") {
            let e = BanEvent {
                user_id: get_str_or_empty(text, "/payload/event/user_id"),
                user_login: get_str_or_empty(text, "/payload/event/user_login"),
                broadcaster_user_id: get_str_or_empty(text, "/payload/event/broadcaster_user_id"),
                moderator_user_id: get_str_or_empty(text, "/payload/event/moderator_user_id"),
                reason: get_str_or_empty(text, "/payload/event/reason"),
                is_permanent: get_bool_or_false(text, "/payload/event/is_permanent"),
            };
            Some(Frame::Notification(Notice::Ban(e)))
        } else if st == String::from_str("channel.unban") {
            let e = UnbanEvent {
                user_id: get_str_or_empty(text, "/payload/event/user_id"),
                user_login: get_str_or_empty(text, "/payload/event/user_login"),
                broadcaster_user_id: get_str_or_empty(text, "/payload/event/broadcaster_user_id"),
                moderator_user_id: get_str_or_empty(text, "/payload/event/moderator_user_id"),
            };
            Some(Frame::Notification(Notice::Unban(e)))
        } else {
            Some(Frame::Notification(Notice::Other))
        }
    } else if mt == String::from_str("revocation") {
        Some(Frame::Revocation)
    } else if mt == String::from_str("session_keepalive") {
        Some(Frame::Keepalive)
    } else {
        Some(Frame::Unknown)
    }
}

// ---------------------------------------------------------------------
// Actions, errors, steps
// ---------------------------------------------------------------------

/// Which moderation events a subscription covers.
#[derive(Clone, Copy, Debug, PartialEq, Eq, Structural)]
pub enum SubKind {
    Ban,
    Unban,
}

/// What the transport is asked to do after a step.
#[derive(Debug)]
pub enum Action {
    /// Echo a pong with this payload on the same socket.
    SendPong(Vec<u8>),
    /// Refresh the user token before subscriptions are created.
    RefreshToken,
    /// Create a subscription for this channel, bound to the session.
    Subscribe(String, SubKind),
    /// Hand a ban event to its handler.
    DispatchBan(BanEvent),
    /// Hand an unban event to its handler.
    DispatchUnban(UnbanEvent),
    /// Reconnect to the current connect URL.
    Reconnect,
}

pub enum ActionV {
    SendPong(Seq<u8>),
    RefreshToken,
    Subscribe(Seq<char>, SubKind),
    DispatchBan(BanV),
    DispatchUnban(UnbanV),
    Reconnect,
}

impl View for Action {
    type V = ActionV;

    open spec fn view(&self) -> ActionV {
        match *self {
            Action::SendPong(p) => ActionV::SendPong(p@),
            Action::RefreshToken => ActionV::RefreshToken,
            Action::Subscribe(c, k) => ActionV::Subscribe(c@, k),
            Action::DispatchBan(e) => ActionV::DispatchBan(e@),
            Action::DispatchUnban(e) => ActionV::DispatchUnban(e@),
            Action::Reconnect => ActionV::Reconnect,
        }
    }
}

/// The typed fatal errors that end a run.
#[derive(Debug)]
pub enum EventError {
    /// The server revoked a subscription: the run must end and a fresh
    /// run re-subscribe.
    Revoked,
    /// The socket was closed with a reason.
    SocketClosed(CloseInfo),
    /// Any socket failure other than a reset without close handshake.
    SocketFailed(String),
    /// A text frame that could not be classified.
    MalformedFrame,
    /// A notification arrived before any welcome handshake: a protocol
    /// violation.
    NotificationBeforeWelcome,
}

pub enum ErrV {
    Revoked,
    SocketClosed(CloseV),
    SocketFailed(Seq<char>),
    MalformedFrame,
    NotificationBeforeWelcome,
}

impl View for EventError {
    type V = ErrV;

    open spec fn view(&self) -> ErrV {
        match *self {
            EventError::Revoked => ErrV::Revoked,
            EventError::SocketClosed(c) => ErrV::SocketClosed(c@),
            EventError::SocketFailed(s) => ErrV::SocketFailed(s@),
            EventError::MalformedFrame => ErrV::MalformedFrame,
            EventError::NotificationBeforeWelcome => ErrV::NotificationBeforeWelcome,
        }
    }
}

/// What one step produced: whether the run is cleanly done, and the
/// actions for the transport to perform.
#[derive(Debug)]
pub struct StepRes {
    pub done: bool,
    pub actions: Vec<Action>,
}

/// The view of a sequence of actions.
pub open spec fn acts_view(a: Seq<Action>) -> Seq<ActionV> {
    Seq::new(a.len(), |i: int| a[i]@)
}

/// The view of a step result.
pub open spec fn res_view(r: Result<StepRes, EventError>) -> Result<(bool, Seq<ActionV>), ErrV> {
    match r {
        Ok(s) => Ok((s.done, acts_view(s.actions@))),
        Err(e) => Err(e@),
    }
}


// ---------------------------------------------------------------------
// The state machine
// ---------------------------------------------------------------------

/// Names the result of `str::to_lowercase`, which depends on the
/// characters alone: the lowercase form of a string.
pub uninterp spec fn lower_of(s: Seq<char>) -> Seq<char>;

/// Relies on `str::to_lowercase`: the lowercase form of the string.
#[verifier::external_body]
pub(crate) fn lowercase(s: &str) -> (r: String)
    ensures
        r@ == lower_of(s@),
{
    s.to_lowercase()
}

/// The subscriptions one channel calls for: a ban and an unban
/// subscription when the channel (lowercased) is the bot's own identity,
/// none otherwise — other channels are not yet supported and are skipped.
pub open spec fn channel_subs(c: Seq<char>, bot_name: Seq<char>) -> Seq<ActionV> {
    if lower_of(c) == bot_name {
        seq![ActionV::Subscribe(c, SubKind::Ban), ActionV::Subscribe(c, SubKind::Unban)]
    } else {
        Seq::empty()
    }
}

/// The subscriptions a handshake calls for, channel by channel in
/// configuration order.
pub open spec fn sub_plan(channels: Seq<Seq<char>>, bot_name: Seq<char>) -> Seq<ActionV>
    decreases channels.len(),
{
    if channels.len() == 0 {
        Seq::empty()
    } else {
        sub_plan(channels.drop_last(), bot_name) + channel_subs(channels.last(), bot_name)
    }
}

/// A refresh action when the token has elapsed, nothing otherwise:
/// subscriptions are never created with a token about to expire.
pub open spec fn refresh_plan(token_elapsed: bool) -> Seq<ActionV> {
    if token_elapsed {
        seq![ActionV::RefreshToken]
    } else {
        Seq::empty()
    }
}

/// What a notification dispatches.
pub open spec fn notice_actions(n: NoticeV) -> Seq<ActionV> {
    match n {
        NoticeV::Ban(e) => seq![ActionV::DispatchBan(e)],
        NoticeV::Unban(e) => seq![ActionV::DispatchUnban(e)],
        NoticeV::Other => Seq::empty(),
    }
}

/// The state after a step and what the step answered.
pub struct StepOutcome {
    pub session_id: Option<Seq<char>>,
    pub connect_url: Seq<char>,
    pub res: Result<(bool, Seq<ActionV>), ErrV>,
}

/// How a handshake is processed: the session is replaced, the reconnect
/// URL (when given) becomes the next connect URL, and the step answers
/// with the refresh decision followed by the subscription plan.
pub open spec fn welcome_outcome(
    s: SessionV,
    connect_url: Seq<char>,
    channels: Seq<Seq<char>>,
    bot_name: Seq<char>,
    token_elapsed: bool,
) -> StepOutcome {
    StepOutcome {
        session_id: Some(s.id),
        connect_url: match s.reconnect_url {
            Some(u) => u,
            None => connect_url,
        },
        res: Ok((false, refresh_plan(token_elapsed) + sub_plan(channels, bot_name))),
    }
}

/// One step of the state machine: how the client state changes and what
/// it answers, for every socket event.
pub open spec fn step_spec(
    session_id: Option<Seq<char>>,
    connect_url: Seq<char>,
    channels: Seq<Seq<char>>,
    bot_name: Seq<char>,
    token_elapsed: bool,
    ev: EventV,
) -> StepOutcome {
    let unchanged_continue = StepOutcome {
        session_id,
        connect_url,
        res: Ok((false, Seq::empty())),
    };
    match ev {
        EventV::Text(t) => match frame_spec(t) {
            None => StepOutcome { session_id, connect_url, res: Err(ErrV::MalformedFrame) },
            Some(FrameV::Welcome(s)) => welcome_outcome(
                s,
                connect_url,
                channels,
                bot_name,
                token_elapsed,
            ),
            Some(FrameV::Reconnect(s)) => welcome_outcome(
                s,
                connect_url,
                channels,
                bot_name,
                token_elapsed,
            ),
            Some(FrameV::Notification(n)) => if session_id is None {
                StepOutcome { session_id, connect_url, res: Err(ErrV::NotificationBeforeWelcome) }
            } else {
                StepOutcome { session_id, connect_url, res: Ok((false, notice_actions(n))) }
            },
            Some(FrameV::Revocation) => StepOutcome {
                session_id,
                connect_url,
                res: Err(ErrV::Revoked),
            },
            Some(FrameV::Keepalive) => unchanged_continue,
            Some(FrameV::Unknown) => unchanged_continue,
        },
        EventV::Binary(_) => unchanged_continue,
        EventV::Ping(p) => StepOutcome {
            session_id,
            connect_url,
            res: Ok((false, seq![ActionV::SendPong(p)])),
        },
        EventV::Pong(_) => unchanged_continue,
        EventV::Close(None) => StepOutcome {
            session_id,
            connect_url,
            res: Ok((true, Seq::empty())),
        },
        EventV::Close(Some(c)) => StepOutcome {
            session_id,
            connect_url,
            res: Err(ErrV::SocketClosed(c)),
        },
        EventV::Reset => StepOutcome {
            session_id,
            connect_url,
            res: Ok((false, seq![ActionV::Reconnect])),
        },
        EventV::Failed(m) => StepOutcome {
            session_id,
            connect_url,
            res: Err(ErrV::SocketFailed(m)),
        },
    }
}

/// The realtime event client: connection state plus the configuration it
/// subscribes with.  The tokens are owned by this client for its
/// lifetime.
#[derive(Debug)]
pub struct WebsocketClient {
    /// The session id of the current connection, once a handshake
    /// arrived.
    pub session_id: Option<String>,
    /// The user token used to authenticate subscriptions.
    pub user_token: Token,
    /// The application token used for user-id lookups.
    pub app_token: AppToken,
    /// The user id of the bot's own channel.
    pub user_id: String,
    /// The URL to use for the next connection attempt.
    pub connect_url: String,
    /// The channels to subscribe for.
    pub channels: Vec<String>,
    /// The bot's own login name.
    pub bot_name: String,
}

fn empty_actions() -> (r: Vec<Action>)
    ensures
        acts_view(r@) == Seq::<ActionV>::empty(),
{
    let r: Vec<Action> = Vec::new();
    proof {
        assert(acts_view(r@) =~= Seq::<ActionV>::empty());
    }
    r
}

fn copy_bytes(v: &Vec<u8>) -> (r: Vec<u8>)
    ensures
        r@ == v@,
{
    let mut r: Vec<u8> = Vec::new();
    let n = v.len();
    let mut i: usize = 0;
    while i < n
        invariant
            n == v@.len(),
            0 <= i <= n,
            r@ == v@.subrange(0, i as int),
        decreases n - i,
    {
        r.push(v[i]);
        proof {
            assert(r@ =~= v@.subrange(0, i + 1));
        }
        i += 1;
    }
    proof {
        assert(v@.subrange(0, n as int) =~= v@);
    }
    r
}

impl WebsocketClient {
    /// A client for a fresh connection: no session yet, connecting to the
    /// given URL.
    pub fn new(
        user_token: Token,
        app_token: AppToken,
        user_id: String,
        connect_url: String,
        channels: Vec<String>,
        bot_name: String,
    ) -> (r: WebsocketClient)
        ensures
            r.session_id is None,
            r.user_token == user_token,
            r.app_token == app_token,
            r.user_id == user_id,
            r.connect_url == connect_url,
            r.channels == channels,
            r.bot_name == bot_name,
    {
        WebsocketClient {
            session_id: None,
            user_token,
            app_token,
            user_id,
            connect_url,
            channels,
            bot_name,
        }
    }

    /// The subscription actions for the configured channels: two per
    /// channel that matches the bot's own identity, none for the others.
    fn plan_subscriptions(&self, actions: &mut Vec<Action>)
        ensures
            acts_view(final(actions)@) == acts_view(old(actions)@) + sub_plan(
                strs_view(self.channels@),
                self.bot_name@,
            ),
    {
        let n = self.channels.len();
        let mut i: usize = 0;
        while i < n
            invariant
                n == self.channels@.len(),
                0 <= i <= n,
                acts_view(actions@) == acts_view(old(actions)@) + sub_plan(
                    strs_view(self.channels@).take(i as int),
                    self.bot_name@,
                ),
            decreases n - i,
        {
            let ghost pre = actions@;
            let channel = &self.channels[i];
            let low = lowercase(channel.as_str());
            if low == self.bot_name {
                actions.push(Action::Subscribe(channel.clone(), SubKind::Ban));
                actions.push(Action::Subscribe(channel.clone(), SubKind::Unban));
            }
            proof {
                let cv = strs_view(self.channels@);
                assert(cv.take(i + 1).drop_last() =~= cv.take(i as int));
                assert(cv.take(i + 1).last() == cv[i as int]);
                if lower_of(cv[i as int]) == self.bot_name@ {
                    assert(acts_view(actions@) =~= acts_view(pre) + channel_subs(
                        cv[i as int],
                        self.bot_name@,
                    ));
                } else {
                    assert(acts_view(actions@) =~= acts_view(pre));
                }
                assert(acts_view(actions@) =~= acts_view(old(actions)@) + sub_plan(
                    cv.take(i + 1),
                    self.bot_name@,
                ));
            }
            i += 1;
        }
        proof {
            assert(strs_view(self.channels@).take(n as int) =~= strs_view(self.channels@));
        }
    }

    /// Handles a welcome or reconnect handshake: replaces the session,
    /// adopts a server-supplied reconnect URL, and answers with the
    /// refresh decision followed by the subscription plan.
    fn process_welcome_message(&mut self, session: SessionInfo, token_elapsed: bool) -> (r: StepRes)
        ensures
            ({
                let out = welcome_outcome(
                    session@,
                    old(self).connect_url@,
                    strs_view(old(self).channels@),
                    old(self).bot_name@,
                    token_elapsed,
                );
                &&& view_opt(final(self).session_id) == out.session_id
                &&& final(self).connect_url@ == out.connect_url
                &&& res_view(Ok(r)) == out.res
            }),
            final(self).user_token == old(self).user_token,
            final(self).app_token == old(self).app_token,
            final(self).user_id == old(self).user_id,
            final(self).channels == old(self).channels,
            final(self).bot_name == old(self).bot_name,
    {
        self.session_id = Some(session.id);
        match session.reconnect_url {
            Some(u) => {
                self.connect_url = u;
            },
            None => {},
        }
        let mut actions: Vec<Action> = Vec::new();
        if token_elapsed {
            actions.push(Action::RefreshToken);
        }
        proof {
            assert(acts_view(actions@) =~= refresh_plan(token_elapsed));
        }
        self.plan_subscriptions(&mut actions);
        StepRes { done: false, actions }
    }

    /// One step of the run loop: classifies a socket event, updates the
    /// session state, and answers with the actions to perform or the
    /// typed fatal error that ends the run.  Exactly `step_spec`.
    pub fn process_message(&mut self, msg: &SocketEvent, token_elapsed: bool) -> (r: Result<
        StepRes,
        EventError,
    >)
        ensures
            ({
                let out = step_spec(
                    view_opt(old(self).session_id),
                    old(self).connect_url@,
                    strs_view(old(self).channels@),
                    old(self).bot_name@,
                    token_elapsed,
                    msg@,
                );
                &&& view_opt(final(self).session_id) == out.session_id
                &&& final(self).connect_url@ == out.connect_url
                &&& res_view(r) == out.res
            }),
            final(self).user_token == old(self).user_token,
            final(self).app_token == old(self).app_token,
            final(self).user_id == old(self).user_id,
            final(self).channels == old(self).channels,
            final(self).bot_name == old(self).bot_name,
    {
        match msg {
            SocketEvent::Text(t) => {
                match classify_frame(t.as_str()) {
                    None => Err(EventError::MalformedFrame),
                    Some(Frame::Welcome(s)) => Ok(self.process_welcome_message(s, token_elapsed)),
                    Some(Frame::Reconnect(s)) => Ok(self.process_welcome_message(s, token_elapsed)),
                    Some(Frame::Notification(n)) => {
                        if self.session_id.is_none() {
                            Err(EventError::NotificationBeforeWelcome)
                        } else {
                            let actions: Vec<Action> = match n {
                                Notice::Ban(e) => vec![Action::DispatchBan(e)],
                                Notice::Unban(e) => vec![Action::DispatchUnban(e)],
                                Notice::Other => empty_actions(),
                            };
                            proof {
                                assert(acts_view(actions@) =~= notice_actions(n@));
                            }
                            Ok(StepRes { done: false, actions })
                        }
                    },
                    Some(Frame::Revocation) => Err(EventError::Revoked),
                    Some(Frame::Keepalive) => Ok(StepRes { done: false, actions: empty_actions() }),
                    Some(Frame::Unknown) => Ok(StepRes { done: false, actions: empty_actions() }),
                }
            },
            SocketEvent::Binary(_) => Ok(StepRes { done: false, actions: empty_actions() }),
            SocketEvent::Ping(p) => {
                let actions = vec![Action::SendPong(copy_bytes(p))];
                proof {
                    assert(acts_view(actions@) =~= seq![ActionV::SendPong(p@)]);
                }
                Ok(StepRes { done: false, actions })
            },
            SocketEvent::Pong(_) => Ok(StepRes { done: false, actions: empty_actions() }),
            SocketEvent::Close(ocf) => match ocf {
                Some(cf) => Err(
                    EventError::SocketClosed(
                        CloseInfo { code: cf.code, reason: cf.reason.clone() },
                    ),
                ),
                None => Ok(StepRes { done: true, actions: empty_actions() }),
            },
            SocketEvent::Reset => {
                let actions = vec![Action::Reconnect];
                proof {
                    assert(acts_view(actions@) =~= seq![ActionV::Reconnect]);
                }
                Ok(StepRes { done: false, actions })
            },
            SocketEvent::Failed(m) => Err(EventError::SocketFailed(m.clone())),
        }
    }
}


// ---------------------------------------------------------------------
// The run loop
// ---------------------------------------------------------------------

/// How a run ended without a fatal error: a clean close, or the end of
/// the scripted events.
#[derive(Clone, Copy, Debug, PartialEq, Eq, Structural)]
pub enum RunEnd {
    /// A close frame without a payload: a clean shutdown.
    Clean,
    /// Every scripted event was consumed without terminating.
    Exhausted,
}

/// The view of a sequence of socket events.
pub open spec fn evs_view(v: Seq<SocketEvent>) -> Seq<EventV> {
    Seq::new(v.len(), |i: int| v[i]@)
}

/// What a whole run does: the final state, the outcome, the actions in
/// order, and how many events were consumed.
pub struct RunV {
    pub session_id: Option<Seq<char>>,
    pub connect_url: Seq<char>,
    pub outcome: Result<RunEnd, ErrV>,
    pub actions: Seq<ActionV>,
    pub consumed: int,
}

/// Folds the state machine over a sequence of events: steps run in order
/// until one ends the run, cleanly or with a fatal error.
pub open spec fn run_from(
    session_id: Option<Seq<char>>,
    connect_url: Seq<char>,
    channels: Seq<Seq<char>>,
    bot_name: Seq<char>,
    token_elapsed: bool,
    events: Seq<EventV>,
) -> RunV
    decreases events.len(),
{
    if events.len() == 0 {
        RunV {
            session_id,
            connect_url,
            outcome: Ok(RunEnd::Exhausted),
            actions: Seq::empty(),
            consumed: 0,
        }
    } else {
        let out = step_spec(session_id, connect_url, channels, bot_name, token_elapsed, events[0]);
        match out.res {
            Err(e) => RunV {
                session_id: out.session_id,
                connect_url: out.connect_url,
                outcome: Err(e),
                actions: Seq::empty(),
                consumed: 1,
            },
            Ok((done, acts)) => if done {
                RunV {
                    session_id: out.session_id,
                    connect_url: out.connect_url,
                    outcome: Ok(RunEnd::Clean),
                    actions: acts,
                    consumed: 1,
                }
            } else {
                let rest = run_from(
                    out.session_id,
                    out.connect_url,
                    channels,
                    bot_name,
                    token_elapsed,
                    events.drop_first(),
                );
                RunV {
                    session_id: rest.session_id,
                    connect_url: rest.connect_url,
                    outcome: rest.outcome,
                    actions: acts + rest.actions,
                    consumed: 1 + rest.consumed,
                }
            },
        }
    }
}

impl WebsocketClient {
    /// Runs the state machine over a scripted sequence of socket events,
    /// collecting the actions in order: exactly `run_from`.  The run ends
    /// at the first clean close or fatal error; a script that runs out of
    /// events leaves the client ready for more.
    pub fn run_script(&mut self, events: &Vec<SocketEvent>, token_elapsed: bool) -> (r: (
        Result<RunEnd, EventError>,
        Vec<Action>,
    ))
        ensures
            ({
                let rv = run_from(
                    view_opt(old(self).session_id),
                    old(self).connect_url@,
                    strs_view(old(self).channels@),
                    old(self).bot_name@,
                    token_elapsed,
                    evs_view(events@),
                );
                &&& view_opt(final(self).session_id) == rv.session_id
                &&& final(self).connect_url@ == rv.connect_url
                &&& (match r.0 {
                    Ok(end) => rv.outcome == Ok::<RunEnd, ErrV>(end),
                    Err(e) => rv.outcome == Err::<RunEnd, ErrV>(e@),
                })
                &&& acts_view(r.1@) == rv.actions
            }),
            final(self).user_token == old(self).user_token,
            final(self).app_token == old(self).app_token,
            final(self).user_id == old(self).user_id,
            final(self).channels == old(self).channels,
            final(self).bot_name == old(self).bot_name,
    {
        let ghost cv = strs_view(self.channels@);
        let ghost bv = self.bot_name@;
        let ghost evs = evs_view(events@);
        let ghost full = run_from(
            view_opt(self.session_id),
            self.connect_url@,
            cv,
            bv,
            token_elapsed,
            evs,
        );
        let mut actions: Vec<Action> = Vec::new();
        proof {
            assert(evs.skip(0) =~= evs);
            assert(acts_view(actions@) =~= Seq::<ActionV>::empty());
            assert(Seq::<ActionV>::empty() + full.actions =~= full.actions);
        }
        let n = events.len();
        let mut i: usize = 0;
        while i < n
            invariant
                n == events@.len(),
                0 <= i <= n,
                evs == evs_view(events@),
                cv == strs_view(self.channels@),
                bv == self.bot_name@,
                full == run_from(
                    view_opt(old(self).session_id),
                    old(self).connect_url@,
                    cv,
                    bv,
                    token_elapsed,
                    evs,
                ),
                ({
                    let rest = run_from(
                        view_opt(self.session_id),
                        self.connect_url@,
                        cv,
                        bv,
                        token_elapsed,
                        evs.skip(i as int),
                    );
                    &&& full.session_id == rest.session_id
                    &&& full.connect_url == rest.connect_url
                    &&& full.outcome == rest.outcome
                    &&& full.actions == acts_view(actions@) + rest.actions
                }),
                self.user_token == old(self).user_token,
                self.app_token == old(self).app_token,
                self.user_id == old(self).user_id,
                self.channels == old(self).channels,
                self.bot_name == old(self).bot_name,
            decreases n - i,
        {
            let ghost pre_actions = actions@;
            let ghost rest = run_from(
                view_opt(self.session_id),
                self.connect_url@,
                cv,
                bv,
                token_elapsed,
                evs.skip(i as int),
            );
            proof {
                assert(evs.skip(i as int)[0] == evs[i as int]);
                assert(evs.skip(i as int).drop_first() =~= evs.skip(i as int + 1));
            }
            let ev = &events[i];
            let res = self.process_message(ev, token_elapsed);
            proof {
                assert(ev@ == evs[i as int]);
            }
            match res {
                Err(e) => {
                    proof {
                        assert(rest.outcome == Err::<RunEnd, ErrV>(e@));
                        assert(rest.actions =~= Seq::<ActionV>::empty());
                        assert(acts_view(actions@) + rest.actions =~= acts_view(actions@));
                    }
                    return (Err(e), actions);
                },
                Ok(step) => {
                    let done = step.done;
                    let mut acts = step.actions;
                    let ghost step_acts = acts_view(acts@);
                    actions.append(&mut acts);
                    proof {
                        assert(acts_view(actions@) =~= acts_view(pre_actions) + step_acts);
                    }
                    if done {
                        proof {
                            assert(rest.outcome == Ok::<RunEnd, ErrV>(RunEnd::Clean));
                            assert(rest.actions == step_acts);
                            assert(full.actions == acts_view(pre_actions) + rest.actions);
                        }
                        return (Ok(RunEnd::Clean), actions);
                    }
                    proof {
                        let rest2 = run_from(
                            view_opt(self.session_id),
                            self.connect_url@,
                            cv,
                            bv,
                            token_elapsed,
                            evs.skip(i as int + 1),
                        );
                        assert(rest.actions == step_acts + rest2.actions);
                        assert(acts_view(pre_actions) + (step_acts + rest2.actions) =~= (
                        acts_view(pre_actions) + step_acts) + rest2.actions);
                        assert(full.actions == acts_view(actions@) + rest2.actions);
                    }
                },
            }
            i += 1;
        }
        proof {
            let rest = run_from(
                view_opt(self.session_id),
                self.connect_url@,
                cv,
                bv,
                token_elapsed,
                evs.skip(n as int),
            );
            assert(evs.skip(n as int) =~= Seq::<EventV>::empty());
            assert(acts_view(actions@) + rest.actions =~= acts_view(actions@));
        }
        (Ok(RunEnd::Exhausted), actions)
    }
}

// ---------------------------------------------------------------------
// Laws of the state machine
// ---------------------------------------------------------------------

/// True iff the event is a text frame classified as a revocation.
pub open spec fn is_revocation(ev: EventV) -> bool {
    ev matches EventV::Text(t) && frame_spec(t) == Some(FrameV::Revocation)
}

/// Law: a revocation frame is fatal regardless of prior state.  Whatever
/// the session state, connect URL, configuration, and token state, the
/// step for a revocation frame leaves the state unchanged and ends the
/// run with the typed `Revoked` error.
pub proof fn lemma_revocation_step_is_fatal(
    session_id: Option<Seq<char>>,
    connect_url: Seq<char>,
    channels: Seq<Seq<char>>,
    bot_name: Seq<char>,
    token_elapsed: bool,
    ev: EventV,
)
    requires
        is_revocation(ev),
    ensures
        step_spec(session_id, connect_url, channels, bot_name, token_elapsed, ev)
            == (StepOutcome { session_id, connect_url, res: Err(ErrV::Revoked) }),
{
}

/// Law: a run consumes events up to its end, and one that did not end
/// with the `Revoked` error never consumed a revocation frame; so
/// reaching one always terminates the run with that typed fatal error,
/// whatever came before.
pub proof fn lemma_revocation_ends_run(
    session_id: Option<Seq<char>>,
    connect_url: Seq<char>,
    channels: Seq<Seq<char>>,
    bot_name: Seq<char>,
    token_elapsed: bool,
    events: Seq<EventV>,
)
    ensures
        ({
            let rv = run_from(session_id, connect_url, channels, bot_name, token_elapsed, events);
            &&& 0 <= rv.consumed <= events.len()
            &&& (rv.outcome != Err::<RunEnd, ErrV>(ErrV::Revoked) ==> forall|j: int|
                0 <= j < rv.consumed ==> !is_revocation(#[trigger] events[j]))
        }),
    decreases events.len(),
{
    let rv = run_from(session_id, connect_url, channels, bot_name, token_elapsed, events);
    if events.len() > 0 {
        let out = step_spec(session_id, connect_url, channels, bot_name, token_elapsed, events[0]);
        match out.res {
            Err(_) => {
                if rv.outcome != Err::<RunEnd, ErrV>(ErrV::Revoked) {
                    assert(!is_revocation(events[0]));
                }
            },
            Ok((done, _)) => {
                assert(!is_revocation(events[0]));
                if !done {
                    lemma_revocation_ends_run(
                        out.session_id,
                        out.connect_url,
                        channels,
                        bot_name,
                        token_elapsed,
                        events.drop_first(),
                    );
                    let rest = run_from(
                        out.session_id,
                        out.connect_url,
                        channels,
                        bot_name,
                        token_elapsed,
                        events.drop_first(),
                    );
                    if rv.outcome != Err::<RunEnd, ErrV>(ErrV::Revoked) {
                        assert forall|j: int| 0 <= j < rv.consumed implies !is_revocation(
                            #[trigger] events[j],
                        ) by {
                            if j > 0 {
                                assert(0 <= j - 1 < rest.consumed);
                                assert(events.drop_first()[j - 1] == events[j]);
                            }
                        }
                    }
                }
            },
        }
    }
}

/// Law: a reset without a close handshake is recovered transparently.
/// Whatever the prior state, the step for a reset leaves the state
/// unchanged, surfaces no error, and asks the transport for exactly one
/// reconnect.
pub proof fn lemma_reset_reconnects(
    session_id: Option<Seq<char>>,
    connect_url: Seq<char>,
    channels: Seq<Seq<char>>,
    bot_name: Seq<char>,
    token_elapsed: bool,
)
    ensures
        step_spec(session_id, connect_url, channels, bot_name, token_elapsed, EventV::Reset)
            == (StepOutcome {
            session_id,
            connect_url,
            res: Ok::<(bool, Seq<ActionV>), ErrV>((false, seq![ActionV::Reconnect])),
        }),
{
}

/// Law: a handshake never subscribes with an elapsed token.  Whenever the
/// token has elapsed at a welcome or reconnect handshake, the refresh
/// action comes first, before every subscription the handshake creates.
pub proof fn lemma_refresh_precedes_subscriptions(
    s: SessionV,
    connect_url: Seq<char>,
    channels: Seq<Seq<char>>,
    bot_name: Seq<char>,
)
    ensures
        ({
            let out = welcome_outcome(s, connect_url, channels, bot_name, true);
            &&& out.res is Ok
            &&& out.res->Ok_0.1[0] == ActionV::RefreshToken
            &&& out.res->Ok_0.1.len() == 1 + sub_plan(channels, bot_name).len()
        }),
{
    let out = welcome_outcome(s, connect_url, channels, bot_name, true);
    assert(out.res->Ok_0.1 == seq![ActionV::RefreshToken] + sub_plan(channels, bot_name));
    assert(out.res->Ok_0.1[0] == ActionV::RefreshToken);
}

/// Law: a handshake subscribes exactly twice (ban and unban) for each
/// configured channel whose lowercased name is the bot's own identity,
/// and never for another channel.
pub proof fn lemma_subscribes_once_per_channel(channels: Seq<Seq<char>>, bot_name: Seq<char>, i: int)
    requires
        0 <= i < channels.len(),
    ensures
        lower_of(channels[i]) == bot_name ==> sub_plan(channels.take(i + 1), bot_name)
            == sub_plan(channels.take(i), bot_name) + seq![
            ActionV::Subscribe(channels[i], SubKind::Ban),
            ActionV::Subscribe(channels[i], SubKind::Unban),
        ],
        lower_of(channels[i]) != bot_name ==> sub_plan(channels.take(i + 1), bot_name) == sub_plan(
            channels.take(i),
            bot_name,
        ),
    decreases channels.len(),
{
    assert(channels.take(i + 1).drop_last() =~= channels.take(i));
    assert(channels.take(i + 1).last() == channels[i]);
}

} // verus!
