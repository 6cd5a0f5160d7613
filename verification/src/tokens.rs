//! Bearer credentials: the user token, the application token, and the
//! environment-backed token store.
//!
//! A token tracks its remaining lifetime against a monotonic-clock anchor
//! taken when the struct was created, so wall-clock skew cannot make an
//! expired token look fresh.  A token whose remaining lifetime is exactly
//! zero has elapsed and must be refreshed before use.

use vstd::prelude::*;
use vstd::string::*;
use crate::store::Env;
use crate::strings::{is_dec_digits, dec_val, parse_u64, upper_chars, ascii_uppercase};
use crate::time::{Dur, rfc3339_ts, parse_rfc3339_secs, format_rfc3339_secs, now_unix_secs,
    instant_now, elapsed_since};
use crate::twitch::TwitchErr;

verus! {

/// The durable shape of a user access token, as the chat client's
/// login-credential contract exchanges it.
#[derive(Clone, Debug)]
pub struct UserAccessToken {
    pub access_token: String,
    pub refresh_token: String,
    /// Unix timestamp (seconds) at which the token was created.
    pub created_at: i64,
    /// Unix timestamp (seconds) at which the token expires, if known.
    pub expires_at: Option<i64>,
}

/// The issuer's answer to an authorization-code or refresh exchange.
#[derive(Clone, Debug)]
pub struct GetAccessTokenResponse {
    pub access_token: String,
    pub refresh_token: String,
    /// Lifetime in seconds from when the response was generated.
    pub expires_in: Option<u64>,
}

/// A new access/refresh pair minted by a refresh exchange.
#[derive(Clone, Debug)]
pub struct RefreshResponse {
    pub access_token: String,
    pub refresh_token: Option<String>,
    pub expires_in_secs: u64,
}

/// Why a refresh could not be performed or was not accepted.
#[derive(Clone, Debug)]
pub enum RefreshError {
    /// No refresh secret is available to exchange.
    NoRefreshToken,
    /// The issuer rejected the exchange; the reason is carried along.
    RefreshRejected(String),
}

/// What a refresh exchange needs: the refresh secret and the issuing
/// client credentials.
#[derive(Clone, Debug)]
pub struct RefreshRequest {
    pub refresh_token: String,
    pub client_id: String,
    pub client_secret: String,
}

/// A user-scoped bearer token with expiry bookkeeping.
#[derive(Clone, Debug)]
pub struct Token {
    pub access_token: String,
    pub refresh_token: String,
    /// Unix timestamp (seconds) at which the token was created.
    pub created_at: i64,
    /// Unix timestamp (seconds) at which the token expires.
    pub expires_at: i64,
    /// When this struct was created, not when the token was created.
    pub struct_created: std::time::Instant,
    /// Lifetime from when the issuer's response was generated.
    pub expires_in: Dur,
    pub clientid: String,
    pub uid: String,
    pub name: String,
    pub client_secret: String,
}

impl Token {
    pub open spec fn wf(self) -> bool {
        self.expires_in.wf()
    }

    /// Remaining lifetime, given how much time has passed since the
    /// struct was created: `max(0, expires_in - elapsed)`.
    pub fn remaining_at(&self, elapsed: &Dur) -> (r: Dur)
        requires
            self.wf(),
            elapsed.wf(),
        ensures
            r.wf(),
            r.total_nanos() == if self.expires_in.total_nanos() >= elapsed.total_nanos() {
                self.expires_in.total_nanos() - elapsed.total_nanos()
            } else {
                0
            },
    {
        self.expires_in.saturating_sub(elapsed)
    }

    /// Whether the token has elapsed, given the time passed since the
    /// struct was created: exactly when no lifetime remains.
    pub fn is_elapsed_at(&self, elapsed: &Dur) -> (r: bool)
        requires
            self.wf(),
            elapsed.wf(),
        ensures
            r == (self.expires_in.total_nanos() <= elapsed.total_nanos()),
    {
        let rem = self.remaining_at(elapsed);
        rem.is_zero()
    }

    /// Remaining lifetime against the monotonic clock.  However much time
    /// has passed, the result never exceeds the issued lifetime, and a
    /// zero-lifetime token has nothing remaining.
    pub fn remaining(&self) -> (r: Dur)
        requires
            self.wf(),
        ensures
            r.wf(),
            r.total_nanos() <= self.expires_in.total_nanos(),
            self.expires_in.total_nanos() == 0 ==> r.total_nanos() == 0,
    {
        let elapsed = elapsed_since(&self.struct_created);
        self.remaining_at(&elapsed)
    }

    /// Whether the token has elapsed right now.  A token issued with a
    /// zero lifetime reports elapsed whatever the clock says.
    pub fn is_elapsed(&self) -> (r: bool)
        requires
            self.wf(),
        ensures
            self.expires_in.total_nanos() == 0 ==> r,
    {
        let elapsed = elapsed_since(&self.struct_created);
        self.is_elapsed_at(&elapsed)
    }

    /// Records the owning user id once an identity lookup has resolved it.
    pub fn set_uid(&mut self, uid: String)
        ensures
            final(self).uid == uid,
            final(self).access_token == old(self).access_token,
            final(self).refresh_token == old(self).refresh_token,
            final(self).created_at == old(self).created_at,
            final(self).expires_at == old(self).expires_at,
            final(self).struct_created == old(self).struct_created,
            final(self).expires_in == old(self).expires_in,
            final(self).clientid == old(self).clientid,
            final(self).name == old(self).name,
            final(self).client_secret == old(self).client_secret,
    {
        self.uid = uid;
    }

    /// Builds a token from its durable shape.  The remaining lifetime is
    /// counted from `now` to the stored expiry, clamped at zero; the
    /// owning user id starts empty until an identity lookup fills it.
    pub fn from_user_access_token(
        value: &UserAccessToken,
        client_id: &str,
        bot_name: &str,
        client_secret: &str,
        now: i64,
    ) -> (r: Token)
        requires
            value.expires_at is Some,
        ensures
            r.wf(),
            r.access_token@ == value.access_token@,
            r.refresh_token@ == value.refresh_token@,
            r.created_at == value.created_at,
            r.expires_at == value.expires_at->0,
            r.expires_in.total_nanos() == (if value.expires_at->0 >= now {
                (value.expires_at->0 - now) * 1_000_000_000
            } else {
                0
            }),
            r.clientid@ == client_id@,
            r.uid@ == Seq::<char>::empty(),
            r.name@ == bot_name@,
            r.client_secret@ == client_secret@,
    {
        let expires_at = match value.expires_at {
            Some(ts) => ts,
            None => 0,  // unreachable under the precondition
        };
        let expires_in = if expires_at >= now {
            Dur::from_secs(((expires_at as i128) - (now as i128)) as u64)
        } else {
            Dur::zero()
        };
        Token {
            access_token: value.access_token.clone(),
            refresh_token: value.refresh_token.clone(),
            created_at: value.created_at,
            expires_at,
            struct_created: instant_now(),
            expires_in,
            clientid: String::from_str(client_id),
            uid: String::new(),
            name: String::from_str(bot_name),
            client_secret: String::from_str(client_secret),
        }
    }

    /// Builds a token from a fresh authorization-code exchange response.
    /// The issuer reports only a lifetime, so creation is pinned at `now`
    /// and the expiry derived from it.
    pub fn from_access_token_response(
        value: &GetAccessTokenResponse,
        client_id: &str,
        bot_name: &str,
        client_secret: &str,
        now: i64,
    ) -> (r: Token)
        requires
            value.expires_in is Some,
            0 <= now,
            now + value.expires_in->0 <= i64::MAX,
        ensures
            r.wf(),
            r.access_token@ == value.access_token@,
            r.refresh_token@ == value.refresh_token@,
            r.created_at == now,
            r.expires_at == now + value.expires_in->0,
            r.expires_in.total_nanos() == value.expires_in->0 * 1_000_000_000,
            r.clientid@ == client_id@,
            r.uid@ == Seq::<char>::empty(),
            r.name@ == bot_name@,
            r.client_secret@ == client_secret@,
    {
        let expires_in_secs = match value.expires_in {
            Some(s) => s,
            None => 0,  // unreachable under the precondition
        };
        Token {
            access_token: value.access_token.clone(),
            refresh_token: value.refresh_token.clone(),
            created_at: now,
            expires_at: now + expires_in_secs as i64,
            struct_created: instant_now(),
            expires_in: Dur::from_secs(expires_in_secs),
            clientid: String::from_str(client_id),
            uid: String::new(),
            name: String::from_str(bot_name),
            client_secret: String::from_str(client_secret),
        }
    }

    /// What a refresh exchange for this token needs, or `NoRefreshToken`
    /// exactly when no refresh secret is held.
    pub fn refresh_request(&self) -> (r: Result<RefreshRequest, RefreshError>)
        ensures
            r is Ok <==> self.refresh_token@.len() > 0,
            r matches Ok(q) ==> q.refresh_token@ == self.refresh_token@ && q.client_id@
                == self.clientid@ && q.client_secret@ == self.client_secret@,
            r matches Err(e) ==> e is NoRefreshToken,
    {
        if self.refresh_token.as_str().is_empty() {
            Err(RefreshError::NoRefreshToken)
        } else {
            Ok(
                RefreshRequest {
                    refresh_token: self.refresh_token.clone(),
                    client_id: self.clientid.clone(),
                    client_secret: self.client_secret.clone(),
                },
            )
        }
    }

    /// Applies the outcome of a refresh exchange.  On success the access
    /// secret, refresh secret, and lifetime are replaced in place; on
    /// failure the token is left untouched and the rejection surfaces, so
    /// callers can re-authorize instead of retrying in a loop.
    pub fn refresh_token(&mut self, exchange: Result<RefreshResponse, String>) -> (r: Result<
        (),
        RefreshError,
    >)
        requires
            exchange matches Ok(resp) ==> resp.refresh_token is Some,
        ensures
            exchange matches Ok(resp) ==> {
                &&& r is Ok
                &&& final(self).access_token@ == resp.access_token@
                &&& final(self).refresh_token@ == resp.refresh_token->0@
                &&& final(self).expires_in.total_nanos() == resp.expires_in_secs * 1_000_000_000
                &&& final(self).created_at == old(self).created_at
                &&& final(self).expires_at == old(self).expires_at
                &&& final(self).struct_created == old(self).struct_created
                &&& final(self).clientid == old(self).clientid
                &&& final(self).uid == old(self).uid
                &&& final(self).name == old(self).name
                &&& final(self).client_secret == old(self).client_secret
            },
            exchange matches Err(e) ==> {
                &&& *final(self) == *old(self)
                &&& r matches Err(re) && re matches RefreshError::RefreshRejected(m) && m@ == e@
            },
    {
        match exchange {
            Ok(resp) => {
                self.access_token = resp.access_token;
                self.refresh_token = match resp.refresh_token {
                    Some(t) => t,
                    None => String::new(),  // unreachable under the precondition
                };
                self.expires_in = Dur::from_secs(resp.expires_in_secs);
                Ok(())
            },
            Err(e) => Err(RefreshError::RefreshRejected(e)),
        }
    }
}

/// An application-scoped bearer token: the same expiry bookkeeping as a
/// user token, but no user identity and an optional refresh secret.
#[derive(Clone, Debug)]
pub struct AppToken {
    pub access_token: String,
    pub refresh_token: Option<String>,
    pub expires_in: Dur,
    pub struct_created: std::time::Instant,
    pub client_id: String,
    pub client_secret: String,
    pub scopes: Vec<String>,
}

impl AppToken {
    pub open spec fn wf(self) -> bool {
        self.expires_in.wf()
    }

    /// Builds an application token from the issuer's response values.
    pub fn new(
        access_token: String,
        refresh_token: Option<String>,
        expires_in_secs: u64,
        client_id: String,
        client_secret: String,
        scopes: Vec<String>,
    ) -> (r: AppToken)
        ensures
            r.wf(),
            r.access_token == access_token,
            r.refresh_token == refresh_token,
            r.expires_in.total_nanos() == expires_in_secs * 1_000_000_000,
            r.client_id == client_id,
            r.client_secret == client_secret,
            r.scopes == scopes,
    {
        AppToken {
            access_token,
            refresh_token,
            expires_in: Dur::from_secs(expires_in_secs),
            struct_created: instant_now(),
            client_id,
            client_secret,
            scopes,
        }
    }

    /// Remaining lifetime, given the time passed since the struct was
    /// created.
    pub fn remaining_at(&self, elapsed: &Dur) -> (r: Dur)
        requires
            self.wf(),
            elapsed.wf(),
        ensures
            r.wf(),
            r.total_nanos() == if self.expires_in.total_nanos() >= elapsed.total_nanos() {
                self.expires_in.total_nanos() - elapsed.total_nanos()
            } else {
                0
            },
    {
        self.expires_in.saturating_sub(elapsed)
    }

    /// Whether the token has elapsed, given the time passed since the
    /// struct was created.
    pub fn is_elapsed_at(&self, elapsed: &Dur) -> (r: bool)
        requires
            self.wf(),
            elapsed.wf(),
        ensures
            r == (self.expires_in.total_nanos() <= elapsed.total_nanos()),
    {
        let rem = self.remaining_at(elapsed);
        rem.is_zero()
    }

    /// Whether the token has elapsed right now; a zero-lifetime token
    /// reports elapsed whatever the clock says.
    pub fn is_elapsed(&self) -> (r: bool)
        requires
            self.wf(),
        ensures
            self.expires_in.total_nanos() == 0 ==> r,
    {
        let elapsed = elapsed_since(&self.struct_created);
        self.is_elapsed_at(&elapsed)
    }

    /// What a refresh exchange needs, or `NoRefreshToken` exactly when no
    /// refresh secret is held.
    pub fn refresh_request(&self) -> (r: Result<RefreshRequest, RefreshError>)
        ensures
            r is Ok <==> self.refresh_token is Some,
            r matches Ok(q) ==> q.refresh_token@ == self.refresh_token->0@ && q.client_id@
                == self.client_id@ && q.client_secret@ == self.client_secret@,
            r matches Err(e) ==> e is NoRefreshToken,
    {
        match &self.refresh_token {
            Some(t) => Ok(
                RefreshRequest {
                    refresh_token: t.clone(),
                    client_id: self.client_id.clone(),
                    client_secret: self.client_secret.clone(),
                },
            ),
            None => Err(RefreshError::NoRefreshToken),
        }
    }

    /// Applies the outcome of a refresh exchange; a failure leaves the
    /// token untouched.
    pub fn refresh_token(&mut self, exchange: Result<RefreshResponse, String>) -> (r: Result<
        (),
        RefreshError,
    >)
        ensures
            exchange matches Ok(resp) ==> {
                &&& r is Ok
                &&& final(self).access_token@ == resp.access_token@
                &&& final(self).refresh_token == resp.refresh_token
                &&& final(self).expires_in.total_nanos() == resp.expires_in_secs * 1_000_000_000
                &&& final(self).struct_created == old(self).struct_created
                &&& final(self).client_id == old(self).client_id
                &&& final(self).client_secret == old(self).client_secret
                &&& final(self).scopes == old(self).scopes
            },
            exchange matches Err(e) ==> {
                &&& *final(self) == *old(self)
                &&& r matches Err(re) && re matches RefreshError::RefreshRejected(m) && m@ == e@
            },
    {
        match exchange {
            Ok(resp) => {
                self.access_token = resp.access_token;
                self.refresh_token = resp.refresh_token;
                self.expires_in = Dur::from_secs(resp.expires_in_secs);
                Ok(())
            },
            Err(e) => Err(RefreshError::RefreshRejected(e)),
        }
    }
}


/// The token store: reads and writes token fields in a flat key/value
/// environment, each under a name derived from a fixed prefix.
#[derive(Clone, Debug, PartialEq, Eq)]
pub struct BotTokenStorage {
    pub prefix: String,
}

/// The environment key a field is stored under:
/// `"{PREFIX}_{FIELD_UPPERCASE}"`.
pub open spec fn key_spec(prefix: Seq<char>, key: Seq<char>) -> Seq<char> {
    prefix + seq!['_'] + upper_chars(key)
}

/// The string stored under a key, or the empty string when absent.
pub open spec fn stored_str(env: Map<Seq<char>, Seq<char>>, key: Seq<char>) -> Seq<char> {
    if env.contains_key(key) {
        env[key]
    } else {
        Seq::empty()
    }
}

/// The timestamp stored under a key as RFC 3339, or the fallback when the
/// key is absent or does not parse.
pub open spec fn stored_ts(env: Map<Seq<char>, Seq<char>>, key: Seq<char>, dflt: int) -> int {
    if env.contains_key(key) {
        match rfc3339_ts(env[key]) {
            Some(ts) => ts,
            None => dflt,
        }
    } else {
        dflt
    }
}

/// True when no usable timestamp is stored under the key, so a load falls
/// back to its default.
pub open spec fn ts_defaulted(env: Map<Seq<char>, Seq<char>>, key: Seq<char>) -> bool {
    !env.contains_key(key) || rfc3339_ts(env[key]) is None
}

impl BotTokenStorage {
    /// A store under the conventional `TWITCH` namespace.
    pub fn new() -> (r: BotTokenStorage)
        ensures
            r.prefix@ == "TWITCH"@,
    {
        BotTokenStorage { prefix: String::from_str("TWITCH") }
    }

    /// A store under the given namespace.  The prefix must not contain the
    /// store's field separator, so keys stay unambiguous.
    pub fn init(&mut self, prefix: String) -> (r: BotTokenStorage)
        requires
            forall|i: int| 0 <= i < prefix@.len() ==> prefix@[i] != '_',
        ensures
            r.prefix@ == prefix@,
            *final(self) == *old(self),
    {
        BotTokenStorage { prefix }
    }

    /// The environment key a field is stored under.
    pub fn format_key(&self, key: &str) -> (r: String)
        ensures
            r@ == key_spec(self.prefix@, key@),
    {
        let up = ascii_uppercase(key);
        let mut s = self.prefix.clone();
        s.append("_");
        s.append(up.as_str());
        proof {
            reveal_strlit("_");
            assert("_"@ =~= seq!['_']);
            assert(s@ =~= key_spec(self.prefix@, key@));
        }
        s
    }

    /// The value stored under a field name, if any.
    pub fn get_env_opt(&self, env: &Env, key: &str) -> (r: Option<String>)
        requires
            env.wf(),
        ensures
            r matches Some(v) ==> env@.contains_key(key_spec(self.prefix@, key@)) && v@ == env@[
                key_spec(self.prefix@, key@)
            ],
            r is None ==> !env@.contains_key(key_spec(self.prefix@, key@)),
    {
        let k = self.format_key(key);
        env.get(k.as_str())
    }

    /// The value stored under a field name, or a missing-value error.
    pub fn get_env(&self, env: &Env, key: &str) -> (r: Result<String, TwitchErr>)
        requires
            env.wf(),
        ensures
            r is Ok <==> env@.contains_key(key_spec(self.prefix@, key@)),
            r matches Ok(v) ==> v@ == env@[key_spec(self.prefix@, key@)],
            r matches Err(e) ==> e is VarErr,
    {
        match self.get_env_opt(env, key) {
            Some(v) => Ok(v),
            None => Err(TwitchErr::VarErr(String::from_str("environment value not present"))),
        }
    }

    /// Stores a value under a field name.
    pub fn set_env(&self, env: &mut Env, key: &str, value: &str) -> (r: Result<(), TwitchErr>)
        requires
            old(env).wf(),
        ensures
            final(env).wf(),
            final(env)@ == old(env)@.insert(key_spec(self.prefix@, key@), value@),
            r is Ok,
    {
        let k = self.format_key(key);
        env.set(k.as_str(), value);
        Ok(())
    }
}


impl BotTokenStorage {
    /// Reads the durable token record, each field independently.  An
    /// absent or unparseable field falls back to its documented default
    /// (empty string for the secrets, `now` for the creation time, `now`
    /// plus 7500 seconds for the expiry) instead of failing the load, so
    /// a caller can detect an effectively empty token and re-authorize.
    pub fn load_token_at(&self, env: &Env, now: i64) -> (r: UserAccessToken)
        requires
            env.wf(),
            0 <= now <= i64::MAX - 7500,
        ensures
            r.access_token@ == stored_str(env@, key_spec(self.prefix@, "ACCESS_TOKEN"@)),
            r.refresh_token@ == stored_str(env@, key_spec(self.prefix@, "REFRESH_TOKEN"@)),
            r.created_at == stored_ts(env@, key_spec(self.prefix@, "TOKEN_CREATED_AT"@), now as int),
            r.expires_at matches Some(ea) && ea == stored_ts(
                env@,
                key_spec(self.prefix@, "TOKEN_EXPIRES_AT"@),
                now + 7500,
            ),
    {
        let at = match self.get_env_opt(env, "ACCESS_TOKEN") {
            Some(v) => v,
            None => String::new(),
        };
        let rt = match self.get_env_opt(env, "REFRESH_TOKEN") {
            Some(v) => v,
            None => String::new(),
        };
        let ca = match self.get_env_opt(env, "TOKEN_CREATED_AT") {
            Some(v) => match parse_rfc3339_secs(v.as_str()) {
                Some(ts) => ts,
                None => now,
            },
            None => now,
        };
        let ea = match self.get_env_opt(env, "TOKEN_EXPIRES_AT") {
            Some(v) => match parse_rfc3339_secs(v.as_str()) {
                Some(ts) => ts,
                None => now + 7500,
            },
            None => now + 7500,
        };
        UserAccessToken { access_token: at, refresh_token: rt, created_at: ca, expires_at: Some(ea) }
    }

    /// Reads the durable token record against the current wall clock.
    /// Secrets load exactly; a stored timestamp that parses loads exactly;
    /// and when both timestamps fall back to their defaults, the record
    /// reports the fixed 7500-second expiry window.
    pub fn load_token(&self, env: &Env) -> (r: UserAccessToken)
        requires
            env.wf(),
        ensures
            r.access_token@ == stored_str(env@, key_spec(self.prefix@, "ACCESS_TOKEN"@)),
            r.refresh_token@ == stored_str(env@, key_spec(self.prefix@, "REFRESH_TOKEN"@)),
            ({
                let kc = key_spec(self.prefix@, "TOKEN_CREATED_AT"@);
                &&& env@.contains_key(kc) && rfc3339_ts(env@[kc]) is Some ==> r.created_at
                    == rfc3339_ts(env@[kc])->0
            }),
            ({
                let ke = key_spec(self.prefix@, "TOKEN_EXPIRES_AT"@);
                &&& r.expires_at is Some
                &&& env@.contains_key(ke) && rfc3339_ts(env@[ke]) is Some ==> r.expires_at->0
                    == rfc3339_ts(env@[ke])->0
            }),
            ts_defaulted(env@, key_spec(self.prefix@, "TOKEN_CREATED_AT"@)) && ts_defaulted(
                env@,
                key_spec(self.prefix@, "TOKEN_EXPIRES_AT"@),
            ) ==> r.expires_at->0 == r.created_at + 7500,
    {
        let now = now_unix_secs();
        let now = if now < 0 {
            0
        } else if now > i64::MAX - 7500 {
            i64::MAX - 7500
        } else {
            now
        };
        self.load_token_at(env, now)
    }

    /// Builds a full user token from the durable record.  The client id,
    /// username, and user id come from the store itself, so a load is
    /// self-consistent with the last update; the remaining lifetime comes
    /// from the stored lifetime field when one parses, else from the
    /// stored expiry against `now`, clamped at zero.
    pub fn token_at(&self, env: &Env, client_secret: &str, now: i64) -> (r: Token)
        requires
            env.wf(),
            0 <= now <= i64::MAX - 7500,
        ensures
            r.wf(),
            r.access_token@ == stored_str(env@, key_spec(self.prefix@, "ACCESS_TOKEN"@)),
            r.refresh_token@ == stored_str(env@, key_spec(self.prefix@, "REFRESH_TOKEN"@)),
            r.created_at == stored_ts(env@, key_spec(self.prefix@, "TOKEN_CREATED_AT"@), now as int),
            r.expires_at == stored_ts(env@, key_spec(self.prefix@, "TOKEN_EXPIRES_AT"@), now + 7500),
            r.clientid@ == stored_str(env@, key_spec(self.prefix@, "CLIENT_ID"@)),
            r.uid@ == stored_str(env@, key_spec(self.prefix@, "USER_ID"@)),
            r.name@ == stored_str(env@, key_spec(self.prefix@, "USERNAME"@)),
            r.client_secret@ == client_secret@,
            ({
                let ki = key_spec(self.prefix@, "TOKEN_EXPIRES_IN"@);
                let ea = stored_ts(env@, key_spec(self.prefix@, "TOKEN_EXPIRES_AT"@), now + 7500);
                if env@.contains_key(ki) && is_dec_digits(env@[ki]) && dec_val(env@[ki])
                    <= u64::MAX {
                    r.expires_in.total_nanos() == dec_val(env@[ki]) * 1_000_000_000
                } else {
                    r.expires_in.total_nanos() == (if ea >= now {
                        (ea - now) * 1_000_000_000
                    } else {
                        0
                    })
                }
            }),
    {
        let uat = self.load_token_at(env, now);
        let clientid = match self.get_env_opt(env, "CLIENT_ID") {
            Some(v) => v,
            None => String::new(),
        };
        let uid = match self.get_env_opt(env, "USER_ID") {
            Some(v) => v,
            None => String::new(),
        };
        let name = match self.get_env_opt(env, "USERNAME") {
            Some(v) => v,
            None => String::new(),
        };
        let mut t = Token::from_user_access_token(
            &uat,
            clientid.as_str(),
            name.as_str(),
            client_secret,
            now,
        );
        t.set_uid(uid);
        match self.get_env_opt(env, "TOKEN_EXPIRES_IN") {
            Some(v) => match parse_u64(v.as_str()) {
                Some(secs) => {
                    t.expires_in = Dur::from_secs(secs);
                },
                None => {},
            },
            None => {},
        }
        t
    }

    /// Builds a full user token from the durable record against the
    /// current wall clock.  The secrets and identifiers load exactly; how
    /// much lifetime remains depends on what the clock says now.
    pub fn token(&self, env: &Env, client_secret: &str) -> (r: Token)
        requires
            env.wf(),
        ensures
            r.wf(),
            r.access_token@ == stored_str(env@, key_spec(self.prefix@, "ACCESS_TOKEN"@)),
            r.refresh_token@ == stored_str(env@, key_spec(self.prefix@, "REFRESH_TOKEN"@)),
            r.clientid@ == stored_str(env@, key_spec(self.prefix@, "CLIENT_ID"@)),
            r.uid@ == stored_str(env@, key_spec(self.prefix@, "USER_ID"@)),
            r.name@ == stored_str(env@, key_spec(self.prefix@, "USERNAME"@)),
            r.client_secret@ == client_secret@,
    {
        let now = now_unix_secs();
        let now = if now < 0 {
            0
        } else if now > i64::MAX - 7500 {
            i64::MAX - 7500
        } else {
            now
        };
        self.token_at(env, client_secret, now)
    }

    /// Writes every field of the durable record, so that a later load is
    /// self-consistent even if the process restarts immediately after:
    /// the secrets and identifiers verbatim, the timestamps as RFC 3339
    /// strings that parse back to the same second (a missing expiry is
    /// written as the epoch).  No other key of the environment changes.
    pub fn update_token(
        &self,
        env: &mut Env,
        token: &UserAccessToken,
        client_id: &str,
        username: &str,
        user_id: &str,
    ) -> (r: Result<(), TwitchErr>)
        requires
            old(env).wf(),
            0 <= token.created_at < 100_000_000_000,
            token.expires_at matches Some(ts) ==> 0 <= ts < 100_000_000_000,
        ensures
            final(env).wf(),
            r is Ok,
            final(env)@[key_spec(self.prefix@, "ACCESS_TOKEN"@)] == token.access_token@,
            final(env)@[key_spec(self.prefix@, "REFRESH_TOKEN"@)] == token.refresh_token@,
            rfc3339_ts(final(env)@[key_spec(self.prefix@, "TOKEN_CREATED_AT"@)]) == Some(
                token.created_at as int,
            ),
            rfc3339_ts(final(env)@[key_spec(self.prefix@, "TOKEN_EXPIRES_AT"@)]) == Some(
                match token.expires_at {
                    Some(ts) => ts as int,
                    None => 0,
                },
            ),
            final(env)@[key_spec(self.prefix@, "CLIENT_ID"@)] == client_id@,
            final(env)@[key_spec(self.prefix@, "USERNAME"@)] == username@,
            final(env)@[key_spec(self.prefix@, "USER_ID"@)] == user_id@,
            forall|k: Seq<char>|
                final(env)@.contains_key(k) <==> old(env)@.contains_key(k)
                    || is_record_key(self.prefix@, k),
            forall|k: Seq<char>|
                old(env)@.contains_key(k) && !is_record_key(self.prefix@, k) ==> final(env)@[k]
                    == old(env)@[k],
    {
        let ghost prefix = self.prefix@;
        proof {
            lemma_record_keys_distinct(prefix);
        }
        let _ = self.set_env(env, "ACCESS_TOKEN", token.access_token.as_str());
        let _ = self.set_env(env, "REFRESH_TOKEN", token.refresh_token.as_str());
        let ca = format_rfc3339_secs(token.created_at);
        let _ = self.set_env(env, "TOKEN_CREATED_AT", ca.as_str());
        let ea_ts = match token.expires_at {
            Some(ts) => ts,
            None => 0,
        };
        let ea = format_rfc3339_secs(ea_ts);
        let _ = self.set_env(env, "TOKEN_EXPIRES_AT", ea.as_str());
        let _ = self.set_env(env, "CLIENT_ID", client_id);
        let _ = self.set_env(env, "USERNAME", username);
        let _ = self.set_env(env, "USER_ID", user_id);
        Ok(())
    }
}

/// True iff `k` is one of the seven record keys under the given prefix.
pub open spec fn is_record_key(prefix: Seq<char>, k: Seq<char>) -> bool {
    ||| k == key_spec(prefix, "ACCESS_TOKEN"@)
    ||| k == key_spec(prefix, "REFRESH_TOKEN"@)
    ||| k == key_spec(prefix, "TOKEN_CREATED_AT"@)
    ||| k == key_spec(prefix, "TOKEN_EXPIRES_AT"@)
    ||| k == key_spec(prefix, "CLIENT_ID"@)
    ||| k == key_spec(prefix, "USERNAME"@)
    ||| k == key_spec(prefix, "USER_ID"@)
}

/// The seven record keys are pairwise distinct: their field names differ
/// in length or, for the two timestamp keys, at a fixed position.
pub proof fn lemma_record_keys_distinct(prefix: Seq<char>)
    ensures
        key_spec(prefix, "ACCESS_TOKEN"@) != key_spec(prefix, "REFRESH_TOKEN"@),
        key_spec(prefix, "ACCESS_TOKEN"@) != key_spec(prefix, "TOKEN_CREATED_AT"@),
        key_spec(prefix, "ACCESS_TOKEN"@) != key_spec(prefix, "TOKEN_EXPIRES_AT"@),
        key_spec(prefix, "ACCESS_TOKEN"@) != key_spec(prefix, "CLIENT_ID"@),
        key_spec(prefix, "ACCESS_TOKEN"@) != key_spec(prefix, "USERNAME"@),
        key_spec(prefix, "ACCESS_TOKEN"@) != key_spec(prefix, "USER_ID"@),
        key_spec(prefix, "REFRESH_TOKEN"@) != key_spec(prefix, "TOKEN_CREATED_AT"@),
        key_spec(prefix, "REFRESH_TOKEN"@) != key_spec(prefix, "TOKEN_EXPIRES_AT"@),
        key_spec(prefix, "REFRESH_TOKEN"@) != key_spec(prefix, "CLIENT_ID"@),
        key_spec(prefix, "REFRESH_TOKEN"@) != key_spec(prefix, "USERNAME"@),
        key_spec(prefix, "REFRESH_TOKEN"@) != key_spec(prefix, "USER_ID"@),
        key_spec(prefix, "TOKEN_CREATED_AT"@) != key_spec(prefix, "TOKEN_EXPIRES_AT"@),
        key_spec(prefix, "TOKEN_CREATED_AT"@) != key_spec(prefix, "CLIENT_ID"@),
        key_spec(prefix, "TOKEN_CREATED_AT"@) != key_spec(prefix, "USERNAME"@),
        key_spec(prefix, "TOKEN_CREATED_AT"@) != key_spec(prefix, "USER_ID"@),
        key_spec(prefix, "TOKEN_EXPIRES_AT"@) != key_spec(prefix, "CLIENT_ID"@),
        key_spec(prefix, "TOKEN_EXPIRES_AT"@) != key_spec(prefix, "USERNAME"@),
        key_spec(prefix, "TOKEN_EXPIRES_AT"@) != key_spec(prefix, "USER_ID"@),
        key_spec(prefix, "CLIENT_ID"@) != key_spec(prefix, "USERNAME"@),
        key_spec(prefix, "CLIENT_ID"@) != key_spec(prefix, "USER_ID"@),
        key_spec(prefix, "USERNAME"@) != key_spec(prefix, "USER_ID"@),
{
    reveal_strlit("ACCESS_TOKEN");
    reveal_strlit("REFRESH_TOKEN");
    reveal_strlit("TOKEN_CREATED_AT");
    reveal_strlit("TOKEN_EXPIRES_AT");
    reveal_strlit("CLIENT_ID");
    reveal_strlit("USERNAME");
    reveal_strlit("USER_ID");
    assert("ACCESS_TOKEN"@.len() == 12);
    assert("REFRESH_TOKEN"@.len() == 13);
    assert("TOKEN_CREATED_AT"@.len() == 16);
    assert("TOKEN_EXPIRES_AT"@.len() == 16);
    assert("CLIENT_ID"@.len() == 9);
    assert("USERNAME"@.len() == 8);
    assert("USER_ID"@.len() == 7);
    let pl = prefix.len() as int;
    assert forall|a: Seq<char>, b: Seq<char>|
        a.len() != b.len() implies key_spec(prefix, a) != key_spec(prefix, b) by {
        assert(key_spec(prefix, a).len() == pl + 1 + a.len());
        assert(key_spec(prefix, b).len() == pl + 1 + b.len());
    }
    let kc = key_spec(prefix, "TOKEN_CREATED_AT"@);
    let ke = key_spec(prefix, "TOKEN_EXPIRES_AT"@);
    assert(upper_chars("TOKEN_CREATED_AT"@)[6] == crate::strings::upper_char('C'));
    assert(upper_chars("TOKEN_EXPIRES_AT"@)[6] == crate::strings::upper_char('E'));
    assert(crate::strings::upper_char('C') == 'C');
    assert(crate::strings::upper_char('E') == 'E');
    assert(kc[pl + 1 + 6] == 'C');
    assert(ke[pl + 1 + 6] == 'E');
    assert(kc != ke);
}

/// Law: a store round trip is lossless.  After an update has written a
/// token record, a load from the resulting environment yields the same
/// access secret, refresh secret, and user id, and the same creation and
/// expiry timestamps to second precision.
pub proof fn lemma_store_round_trip(
    env1: Map<Seq<char>, Seq<char>>,
    prefix: Seq<char>,
    access: Seq<char>,
    refresh: Seq<char>,
    created: int,
    expires: int,
    user_id: Seq<char>,
    now: int,
)
    requires
        env1.contains_key(key_spec(prefix, "ACCESS_TOKEN"@)),
        env1[key_spec(prefix, "ACCESS_TOKEN"@)] == access,
        env1.contains_key(key_spec(prefix, "REFRESH_TOKEN"@)),
        env1[key_spec(prefix, "REFRESH_TOKEN"@)] == refresh,
        env1.contains_key(key_spec(prefix, "TOKEN_CREATED_AT"@)),
        rfc3339_ts(env1[key_spec(prefix, "TOKEN_CREATED_AT"@)]) == Some(created),
        env1.contains_key(key_spec(prefix, "TOKEN_EXPIRES_AT"@)),
        rfc3339_ts(env1[key_spec(prefix, "TOKEN_EXPIRES_AT"@)]) == Some(expires),
        env1.contains_key(key_spec(prefix, "USER_ID"@)),
        env1[key_spec(prefix, "USER_ID"@)] == user_id,
    ensures
        stored_str(env1, key_spec(prefix, "ACCESS_TOKEN"@)) == access,
        stored_str(env1, key_spec(prefix, "REFRESH_TOKEN"@)) == refresh,
        stored_ts(env1, key_spec(prefix, "TOKEN_CREATED_AT"@), now) == created,
        stored_ts(env1, key_spec(prefix, "TOKEN_EXPIRES_AT"@), now + 7500) == expires,
        stored_str(env1, key_spec(prefix, "USER_ID"@)) == user_id,
{
}

} // verus!
