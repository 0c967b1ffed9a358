//! The interactive login: a browser is opened on the login page and watched
//! until a session cookie of a new account shows up, the user cancels, or
//! time runs out. This module makes the decisions of that watch; opening,
//! polling and waiting are the caller's.

use crate::api::http::NamedValue;
use crate::error::NexusError;
use crate::strings::str_eq;
use std::collections::HashSet;
use vstd::prelude::*;
use vstd::string::*;
use vstd::utf8::*;

verus! {

broadcast use vstd::std_specs::hash::group_hash_axioms;

/// The page the browser is opened on.
pub const LOGIN_URL: &'static str = "https://www.roblox.com/login";

/// The size of the browser's window.
pub const WINDOW_WIDTH: u32 = 900;

pub const WINDOW_HEIGHT: u32 = 700;

/// The pause between two looks at the browser's cookies, in milliseconds.
pub const CHECK_INTERVAL_MILLIS: u64 = 1500;

/// How long a login may take, in milliseconds.
pub const LOGIN_TIMEOUT_MILLIS: u64 = 300_000;

/// A session cookie shorter than this many bytes, or as short, is not taken
/// for one.
pub const MIN_COOKIE_LEN: usize = 100;

/// How a login ended.
#[derive(Clone, Debug, PartialEq, Eq)]
pub enum LoginResult {
    Success { cookie: String, user_id: u64, username: String, display_name: String },
    Cancelled,
    Error(String),
}

/// How far the browser has come.
#[derive(Clone, Copy, Debug, PartialEq, Eq, Structural)]
pub enum BrowserStatus {
    Launching,
    WaitingForLogin,
    LoggedIn,
}

/// What a look into the channel from the watch brought.
#[derive(Clone, Debug, PartialEq, Eq)]
pub enum Received {
    /// A result.
    Value(LoginResult),
    /// Nothing yet.
    Empty,
    /// Nothing, and the watch is gone.
    Disconnected,
}

/// What to do at a tick of the watch.
#[derive(Clone, Copy, Debug, PartialEq, Eq, Structural)]
pub enum PollStep {
    /// The user cancelled: stop.
    Cancel,
    /// Time is up: stop.
    TimeOut,
    /// Look at the cookies, then wait for the next tick.
    Inspect,
}

/// The step for a tick: a cancelled login stops before anything else, one
/// that has taken more than the timeout stops next.
pub open spec fn step_at(cancelled: bool, elapsed_millis: u64) -> PollStep {
    if cancelled {
        PollStep::Cancel
    } else if elapsed_millis > LOGIN_TIMEOUT_MILLIS {
        PollStep::TimeOut
    } else {
        PollStep::Inspect
    }
}

/// Whether a browser cookie may be a session cookie: the name fits and the
/// value is longer than the minimum.
pub open spec fn is_candidate(cookie: NamedValue) -> bool {
    &&& cookie.name@ == ".ROBLOSECURITY"@
    &&& cookie.value is Some
    &&& (encode_utf8(cookie.value->0@).len() as usize) > MIN_COOKIE_LEN
}

/// The values of the candidates among some cookies, in their order.
pub open spec fn candidates_of(cookies: Seq<NamedValue>) -> Seq<Seq<char>>
    decreases cookies.len(),
{
    if cookies.len() == 0 {
        Seq::empty()
    } else if is_candidate(cookies.last()) {
        candidates_of(cookies.drop_last()).push(cookies.last().value->0@)
    } else {
        candidates_of(cookies.drop_last())
    }
}

/// The texts of a list of strings.
pub open spec fn texts_of(values: Seq<String>) -> Seq<Seq<char>> {
    values.map_values(|v: String| v@)
}

/// The step for a tick of the watch.
pub fn poll_step(cancelled: bool, elapsed_millis: u64) -> (step: PollStep)
    ensures
        step == step_at(cancelled, elapsed_millis),
{
    if cancelled {
        PollStep::Cancel
    } else if elapsed_millis > LOGIN_TIMEOUT_MILLIS {
        PollStep::TimeOut
    } else {
        PollStep::Inspect
    }
}

/// The result that ends the watch at a step, if the step ends it.
pub fn poll_result(step: PollStep) -> (result: Option<LoginResult>)
    ensures
        match step {
            PollStep::Cancel => result matches Some(LoginResult::Cancelled),
            PollStep::TimeOut => result matches Some(LoginResult::Error(text)) && text@
                == "Login timed out after 5 minutes"@,
            PollStep::Inspect => result is None,
        },
{
    match step {
        PollStep::Cancel => Some(LoginResult::Cancelled),
        PollStep::TimeOut => Some(
            LoginResult::Error(String::from_str("Login timed out after 5 minutes")),
        ),
        PollStep::Inspect => None,
    }
}

/// The session cookies to try among the browser's cookies, in their order.
pub fn session_candidates(cookies: &Vec<NamedValue>) -> (values: Vec<String>)
    ensures
        texts_of(values@) == candidates_of(cookies@),
{
    let mut values: Vec<String> = Vec::new();
    let mut i: usize = 0;
    assert(texts_of(values@) =~= Seq::empty());
    assert(cookies@.subrange(0, 0) =~= Seq::empty());
    while i < cookies.len()
        invariant
            i <= cookies.len(),
            texts_of(values@) == candidates_of(cookies@.subrange(0, i as int)),
        decreases cookies.len() - i,
    {
        let ghost prefix = cookies@.subrange(0, i + 1);
        assert(prefix.drop_last() =~= cookies@.subrange(0, i as int));
        assert(prefix.last() == cookies@[i as int]);
        let ghost before = values@;
        let cookie = &cookies[i];
        if str_eq(cookie.name.as_str(), ".ROBLOSECURITY") {
            match &cookie.value {
                Some(value) => {
                    if value.as_str().len() > MIN_COOKIE_LEN {
                        values.push(value.clone());
                        assert(texts_of(values@) =~= texts_of(before).push(value@));
                    }
                },
                None => {},
            }
        }
        i += 1;
    }
    assert(cookies@.subrange(0, i as int) =~= cookies@);
    values
}

/// Whether a login counts: the identity check succeeded and the user is not
/// among the accounts there are already.
pub fn accepts_login(
    existing: &HashSet<u64>,
    identity: &Result<(u64, String), NexusError>,
) -> (accepted: bool)
    ensures
        accepted == match *identity {
            Ok((user_id, _)) => !existing@.contains(user_id),
            Err(_) => false,
        },
{
    match identity {
        Ok((user_id, _)) => !existing.contains(user_id),
        Err(_) => false,
    }
}

/// The result of a login that counts. Where the user's name could not be
/// looked up, the display name stands for it.
pub fn login_success(
    cookie: String,
    user_id: u64,
    display_name: String,
    username: Option<String>,
) -> (result: LoginResult)
    ensures
        result matches LoginResult::Success { cookie: c, user_id: id, username: u, display_name: d }
            && c == cookie && id == user_id && d == display_name && u@ == match username {
            Some(name) => name@,
            None => display_name@,
        },
{
    let name = match username {
        Some(name) => name,
        None => display_name.clone(),
    };
    LoginResult::Success { cookie, user_id, username: name, display_name }
}

/// The caller's end of a login under way: it can ask for the result without
/// waiting, and cancel.
pub struct WebLoginSession {
    cancel_flag: bool,
}

impl WebLoginSession {
    /// A session that was not cancelled.
    pub fn new() -> (session: Self)
        ensures
            !session.is_cancelled(),
    {
        WebLoginSession { cancel_flag: false }
    }

    /// Whether the login was cancelled.
    pub closed spec fn cancelled(&self) -> bool {
        self.cancel_flag
    }

    /// Whether the login was cancelled.
    #[verifier::when_used_as_spec(cancelled)]
    pub fn is_cancelled(&self) -> (flag: bool)
        ensures
            flag == self.cancelled(),
    {
        self.cancel_flag
    }

    /// The result, if there is one: what was received, nothing while the
    /// channel is empty, and `Cancelled` once the watch is gone without a
    /// result.
    pub fn try_get_result(&self, received: Received) -> (result: Option<LoginResult>)
        ensures
            result == match received {
                Received::Value(value) => Some(value),
                Received::Empty => None,
                Received::Disconnected => Some(LoginResult::Cancelled),
            },
    {
        match received {
            Received::Value(value) => Some(value),
            Received::Empty => None,
            Received::Disconnected => Some(LoginResult::Cancelled),
        }
    }

    /// Asks the watch to stop at its next tick.
    pub fn cancel(&mut self)
        ensures
            final(self).is_cancelled(),
    {
        self.cancel_flag = true;
    }
}

} // verus!
