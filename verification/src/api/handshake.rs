//! The anti-forgery handshake behind the launch ticket and every account
//! action that changes something.
//!
//! Each action is one request, sent twice: first without a token, which the
//! service is expected to refuse while naming a token in a response header,
//! then again with that token. There is no third request. The library decides
//! what to send and reads what came back; the caller sends.

use crate::api::http::{
    find_named, first_named, opt_text, status_is_success, HttpRequest, HttpResponse, Method,
    RequestText,
};
use crate::deps::json::{json_quote, json_quoted};
use crate::deps::text::{trim, trimmed};
use crate::error::{Failure, NexusError};
use crate::strings::{decimal, push_decimal};
use vstd::prelude::*;
use vstd::string::*;

verus! {

/// What is asked of the service on behalf of an account.
#[derive(Clone, Debug, PartialEq, Eq)]
pub enum AccountAction {
    /// Issue a one-time ticket that starts the client as this account.
    LaunchTicket,
    /// Sign every other session out and renew this one.
    LogoutOtherSessions,
    ChangePassword { current_password: String, new_password: String },
    SetDisplayName { user_id: u64, new_display_name: String },
    BlockUser { user_id: u64 },
    UnblockUser { user_id: u64 },
    SendFriendRequest { user_id: u64 },
}

/// What a completed action brought.
#[derive(Clone, Debug, PartialEq, Eq)]
pub enum ActionOutcome {
    /// The launch ticket.
    Ticket(String),
    /// The renewed session cookie, empty where the response set none.
    NewSession(String),
    /// Nothing but success.
    Done,
}

/// An outcome with its text as a sequence of characters.
pub enum OutcomeText {
    Ticket(Seq<char>),
    NewSession(Seq<char>),
    Done,
}

impl View for ActionOutcome {
    type V = OutcomeText;

    open spec fn view(&self) -> OutcomeText {
        match *self {
            ActionOutcome::Ticket(t) => OutcomeText::Ticket(t@),
            ActionOutcome::NewSession(c) => OutcomeText::NewSession(c@),
            ActionOutcome::Done => OutcomeText::Done,
        }
    }
}

/// Where a handshake stands.
#[derive(Clone, Copy, Debug, PartialEq, Eq, Structural)]
pub enum BrokerState {
    /// Nothing sent yet.
    Ready,
    /// The request went out without a token.
    AwaitingToken,
    /// The request went out again, with the token.
    AwaitingResult,
    /// Over, whichever way.
    Finished,
}

/// What the caller reports back.
#[derive(Clone, Debug, PartialEq, Eq)]
pub enum BrokerEvent {
    /// Begin.
    Start,
    /// The answer to the request last sent.
    Response(HttpResponse),
    /// The request last sent got no answer.
    TransportError(String),
}

/// What the caller is to do next.
#[derive(Debug, PartialEq, Eq)]
pub enum BrokerCommand {
    /// Send this and report the answer.
    Send(HttpRequest),
    /// Stop: this is the result.
    Finish(Result<ActionOutcome, NexusError>),
}

/// A command with its texts as sequences of characters.
pub enum CommandText {
    Send(RequestText),
    Finish(Result<OutcomeText, Failure>),
}

/// The result of an action with its texts as sequences of characters.
pub open spec fn result_text(result: Result<ActionOutcome, NexusError>) -> Result<
    OutcomeText,
    Failure,
> {
    match result {
        Ok(outcome) => Ok(outcome@),
        Err(error) => Err(error@),
    }
}

impl View for BrokerCommand {
    type V = CommandText;

    open spec fn view(&self) -> CommandText {
        match *self {
            BrokerCommand::Send(request) => CommandText::Send(request@),
            BrokerCommand::Finish(result) => CommandText::Finish(result_text(result)),
        }
    }
}

/// The verb of each action.
pub open spec fn action_method(action: AccountAction) -> Method {
    match action {
        AccountAction::SetDisplayName { .. } => Method::Patch,
        _ => Method::Post,
    }
}

/// The address of each action.
pub open spec fn action_url(action: AccountAction) -> Seq<char> {
    match action {
        AccountAction::LaunchTicket => "https://auth.roblox.com/v1/authentication-ticket/"@,
        AccountAction::LogoutOtherSessions =>
            "https://www.roblox.com/authentication/signoutfromallsessionsandreauthenticate"@,
        AccountAction::ChangePassword { .. } => "https://auth.roblox.com/v2/user/passwords/change"@,
        AccountAction::SetDisplayName { user_id, .. } => "https://users.roblox.com/v1/users/"@
            + decimal(user_id as nat) + "/display-names"@,
        AccountAction::BlockUser { user_id } => "https://accountsettings.roblox.com/v1/users/"@
            + decimal(user_id as nat) + "/block"@,
        AccountAction::UnblockUser { user_id } => "https://accountsettings.roblox.com/v1/users/"@
            + decimal(user_id as nat) + "/unblock"@,
        AccountAction::SendFriendRequest { user_id } => "https://friends.roblox.com/v1/users/"@
            + decimal(user_id as nat) + "/request-friendship"@,
    }
}

/// The content type each action declares.
pub open spec fn action_content_type(action: AccountAction) -> Seq<char> {
    match action {
        AccountAction::LogoutOtherSessions => "application/x-www-form-urlencoded"@,
        _ => "application/json"@,
    }
}

/// The page each action claims to come from.
pub open spec fn action_referer(action: AccountAction) -> Seq<char> {
    match action {
        AccountAction::LaunchTicket => "https://www.roblox.com/games/4924922222/Brookhaven-RP"@,
        _ => "https://www.roblox.com/"@,
    }
}

/// The client each action claims to be, where it claims one.
pub open spec fn action_user_agent(action: AccountAction) -> Option<Seq<char>> {
    match action {
        AccountAction::LaunchTicket => Some("Roblox/WinInet"@),
        _ => None,
    }
}

/// The JSON body of each action that has one.
pub open spec fn action_body(action: AccountAction) -> Option<Seq<char>> {
    match action {
        AccountAction::ChangePassword { current_password, new_password } => Some(
            "{\"currentPassword\":"@ + json_quoted(current_password@) + ",\"newPassword\":"@
                + json_quoted(new_password@) + "}"@,
        ),
        AccountAction::SetDisplayName { new_display_name, .. } => Some(
            "{\"newDisplayName\":"@ + json_quoted(new_display_name@) + "}"@,
        ),
        _ => None,
    }
}

/// The `Cookie` header that carries a session cookie.
pub open spec fn cookie_header(cookie: Seq<char>) -> Seq<char> {
    ".ROBLOSECURITY="@ + trimmed(cookie)
}

/// The request of an action for an account, with or without a token.
pub open spec fn action_request(
    action: AccountAction,
    cookie: Seq<char>,
    token: Option<Seq<char>>,
) -> RequestText {
    RequestText {
        method: action_method(action),
        url: action_url(action),
        cookie: Some(cookie_header(cookie)),
        csrf_token: token,
        content_type: Some(action_content_type(action)),
        referer: Some(action_referer(action)),
        user_agent: action_user_agent(action),
        accept: None,
        body: action_body(action),
    }
}

/// What the answer to the second request means for an action: a failure
/// status rejects it with status and body; a success brings the ticket from
/// its header, the renewed cookie if one was set, or nothing more.
pub open spec fn action_result(action: AccountAction, response: HttpResponse) -> Result<
    OutcomeText,
    Failure,
> {
    if !status_is_success(response.status) {
        Err(Failure::ActionRejected { status: response.status, body: response.body@ })
    } else {
        match action {
            AccountAction::LaunchTicket => match first_named(
                response.headers@,
                "rbx-authentication-ticket"@,
            ) {
                Some(ticket) => Ok(OutcomeText::Ticket(ticket)),
                None => Err(Failure::TransportFailure("No authentication ticket in response"@)),
            },
            AccountAction::LogoutOtherSessions | AccountAction::ChangePassword { .. } => Ok(
                OutcomeText::NewSession(
                    match first_named(response.cookies@, ".ROBLOSECURITY"@) {
                        Some(cookie) => cookie,
                        None => Seq::empty(),
                    },
                ),
            ),
            _ => Ok(OutcomeText::Done),
        }
    }
}

/// The failure reported when a request got no answer.
pub open spec fn transport_failure(detail: Seq<char>) -> Failure {
    Failure::TransportFailure("Request failed: "@ + detail)
}

/// The failure reported for an event that the state does not expect.
pub open spec fn out_of_turn() -> Failure {
    Failure::TransportFailure("Unexpected event for this step of the handshake"@)
}

/// One step of the handshake: the state after an event, and what to do.
///
/// The first answer matters for its token header alone, whatever its status;
/// without the header the handshake fails at once and nothing more is sent.
pub open spec fn next_step(
    action: AccountAction,
    cookie: Seq<char>,
    state: BrokerState,
    event: BrokerEvent,
) -> (BrokerState, CommandText) {
    match (state, event) {
        (BrokerState::Ready, BrokerEvent::Start) => (
            BrokerState::AwaitingToken,
            CommandText::Send(action_request(action, cookie, None)),
        ),
        (BrokerState::AwaitingToken, BrokerEvent::Response(response)) => match first_named(
            response.headers@,
            "x-csrf-token"@,
        ) {
            Some(token) => (
                BrokerState::AwaitingResult,
                CommandText::Send(action_request(action, cookie, Some(token))),
            ),
            None => (
                BrokerState::Finished,
                CommandText::Finish(Err(Failure::TokenAcquisitionFailed)),
            ),
        },
        (BrokerState::AwaitingResult, BrokerEvent::Response(response)) => (
            BrokerState::Finished,
            CommandText::Finish(action_result(action, response)),
        ),
        (BrokerState::AwaitingToken, BrokerEvent::TransportError(detail)) => (
            BrokerState::Finished,
            CommandText::Finish(Err(transport_failure(detail@))),
        ),
        (BrokerState::AwaitingResult, BrokerEvent::TransportError(detail)) => (
            BrokerState::Finished,
            CommandText::Finish(Err(transport_failure(detail@))),
        ),
        _ => (BrokerState::Finished, CommandText::Finish(Err(out_of_turn()))),
    }
}

/// How far a state is from the start.
pub open spec fn progress(state: BrokerState) -> nat {
    match state {
        BrokerState::Ready => 0,
        BrokerState::AwaitingToken => 1,
        BrokerState::AwaitingResult => 2,
        BrokerState::Finished => 3,
    }
}

/// A handshake sends two requests at most and never tries again: every step
/// moves it forward or ends it, a request goes out on the step out of
/// `Ready` and on the step out of `AwaitingToken` that brought a token and on
/// no other, and a step that sends nothing ends the handshake.
pub proof fn lemma_two_requests_at_most(
    action: AccountAction,
    cookie: Seq<char>,
    state: BrokerState,
    event: BrokerEvent,
)
    ensures
        ({
            let next = next_step(action, cookie, state, event);
            &&& progress(next.0) > progress(state) || next.0 == BrokerState::Finished
            &&& next.1 is Send <==> (state == BrokerState::Ready && event is Start) || (state
                == BrokerState::AwaitingToken && event is Response && first_named(
                event->Response_0.headers@,
                "x-csrf-token"@,
            ) is Some)
            &&& next.1 is Finish <==> next.0 == BrokerState::Finished
        }),
{
}

/// A first answer without the token header ends the handshake with
/// `TokenAcquisitionFailed`: the second request is never made.
pub proof fn lemma_missing_token_is_final(
    action: AccountAction,
    cookie: Seq<char>,
    response: HttpResponse,
)
    requires
        first_named(response.headers@, "x-csrf-token"@) is None,
    ensures
        next_step(action, cookie, BrokerState::AwaitingToken, BrokerEvent::Response(response)) == (
            BrokerState::Finished,
            CommandText::Finish(Err(Failure::TokenAcquisitionFailed)),
        ),
{
}

/// The address of an action.
fn build_url(action: &AccountAction) -> (url: String)
    ensures
        url@ == action_url(*action),
{
    match action {
        AccountAction::LaunchTicket => String::from_str(
            "https://auth.roblox.com/v1/authentication-ticket/",
        ),
        AccountAction::LogoutOtherSessions => String::from_str(
            "https://www.roblox.com/authentication/signoutfromallsessionsandreauthenticate",
        ),
        AccountAction::ChangePassword { .. } => String::from_str(
            "https://auth.roblox.com/v2/user/passwords/change",
        ),
        AccountAction::SetDisplayName { user_id, .. } => {
            let mut url = String::from_str("https://users.roblox.com/v1/users/");
            push_decimal(&mut url, *user_id);
            url.append("/display-names");
            url
        },
        AccountAction::BlockUser { user_id } => {
            let mut url = String::from_str("https://accountsettings.roblox.com/v1/users/");
            push_decimal(&mut url, *user_id);
            url.append("/block");
            url
        },
        AccountAction::UnblockUser { user_id } => {
            let mut url = String::from_str("https://accountsettings.roblox.com/v1/users/");
            push_decimal(&mut url, *user_id);
            url.append("/unblock");
            url
        },
        AccountAction::SendFriendRequest { user_id } => {
            let mut url = String::from_str("https://friends.roblox.com/v1/users/");
            push_decimal(&mut url, *user_id);
            url.append("/request-friendship");
            url
        },
    }
}

/// The JSON body of an action, if it has one.
fn build_body(action: &AccountAction) -> (body: Option<String>)
    ensures
        opt_text(body) == action_body(*action),
{
    match action {
        AccountAction::ChangePassword { current_password, new_password } => {
            let mut body = String::from_str("{\"currentPassword\":");
            let current = json_quote(current_password.as_str());
            body.append(current.as_str());
            body.append(",\"newPassword\":");
            let new = json_quote(new_password.as_str());
            body.append(new.as_str());
            body.append("}");
            Some(body)
        },
        AccountAction::SetDisplayName { new_display_name, .. } => {
            let mut body = String::from_str("{\"newDisplayName\":");
            let name = json_quote(new_display_name.as_str());
            body.append(name.as_str());
            body.append("}");
            Some(body)
        },
        _ => None,
    }
}

/// The `Cookie` header for a session cookie: the cookie's name, `=`, and
/// the cookie without surrounding white space.
pub fn format_cookie_header(cookie: &str) -> (header: String)
    ensures
        header@ == cookie_header(cookie@),
{
    let mut header = String::from_str(".ROBLOSECURITY=");
    header.append(trim(cookie));
    header
}

/// Builds the request of an action, with the token where there is one.
pub fn build_request(action: &AccountAction, cookie: &str, token: Option<String>) -> (request:
    HttpRequest)
    ensures
        request@ == action_request(*action, cookie@, opt_text(token)),
{
    let method = match action {
        AccountAction::SetDisplayName { .. } => Method::Patch,
        _ => Method::Post,
    };
    let content_type = match action {
        AccountAction::LogoutOtherSessions => String::from_str("application/x-www-form-urlencoded"),
        _ => String::from_str("application/json"),
    };
    let referer = match action {
        AccountAction::LaunchTicket => String::from_str(
            "https://www.roblox.com/games/4924922222/Brookhaven-RP",
        ),
        _ => String::from_str("https://www.roblox.com/"),
    };
    let user_agent = match action {
        AccountAction::LaunchTicket => Some(String::from_str("Roblox/WinInet")),
        _ => None,
    };
    HttpRequest {
        method,
        url: build_url(action),
        cookie: Some(format_cookie_header(cookie)),
        csrf_token: token,
        content_type: Some(content_type),
        referer: Some(referer),
        user_agent,
        accept: None,
        body: build_body(action),
    }
}

/// Reads the answer to the second request of an action.
pub fn read_result(action: &AccountAction, response: &HttpResponse) -> (result: Result<
    ActionOutcome,
    NexusError,
>)
    ensures
        result_text(result) == action_result(*action, *response),
{
    if !response.is_success() {
        return Err(
            NexusError::ActionRejected { status: response.status, body: response.body.clone() },
        );
    }
    match action {
        AccountAction::LaunchTicket => match response.header("rbx-authentication-ticket") {
            Some(ticket) => Ok(ActionOutcome::Ticket(ticket)),
            None => Err(
                NexusError::TransportFailure(
                    String::from_str("No authentication ticket in response"),
                ),
            ),
        },
        AccountAction::LogoutOtherSessions | AccountAction::ChangePassword { .. } => {
            match response.cookie(".ROBLOSECURITY") {
                Some(cookie) => Ok(ActionOutcome::NewSession(cookie)),
                None => Ok(ActionOutcome::NewSession(String::new())),
            }
        },
        _ => Ok(ActionOutcome::Done),
    }
}

/// The failure for a request that got no answer.
pub fn transport_error(detail: &str) -> (error: NexusError)
    ensures
        error@ == transport_failure(detail@),
{
    let mut text = String::from_str("Request failed: ");
    text.append(detail);
    NexusError::TransportFailure(text)
}

/// One step of a handshake whose action and cookie the caller holds: the
/// state after the event, and what to do next.
pub fn advance(action: &AccountAction, cookie: &str, state: BrokerState, event: BrokerEvent) -> (next:
    (BrokerState, BrokerCommand))
    ensures
        (next.0, next.1@) == next_step(*action, cookie@, state, event),
{
    match (state, event) {
        (BrokerState::Ready, BrokerEvent::Start) => (
            BrokerState::AwaitingToken,
            BrokerCommand::Send(build_request(action, cookie, None)),
        ),
        (BrokerState::AwaitingToken, BrokerEvent::Response(response)) => {
            match find_named(&response.headers, "x-csrf-token") {
                Some(token) => (
                    BrokerState::AwaitingResult,
                    BrokerCommand::Send(build_request(action, cookie, Some(token))),
                ),
                None => (
                    BrokerState::Finished,
                    BrokerCommand::Finish(Err(NexusError::TokenAcquisitionFailed)),
                ),
            }
        },
        (BrokerState::AwaitingResult, BrokerEvent::Response(response)) => (
            BrokerState::Finished,
            BrokerCommand::Finish(read_result(action, &response)),
        ),
        (BrokerState::AwaitingToken, BrokerEvent::TransportError(detail)) => (
            BrokerState::Finished,
            BrokerCommand::Finish(Err(transport_error(detail.as_str()))),
        ),
        (BrokerState::AwaitingResult, BrokerEvent::TransportError(detail)) => (
            BrokerState::Finished,
            BrokerCommand::Finish(Err(transport_error(detail.as_str()))),
        ),
        _ => (
            BrokerState::Finished,
            BrokerCommand::Finish(
                Err(
                    NexusError::TransportFailure(
                        String::from_str("Unexpected event for this step of the handshake"),
                    ),
                ),
            ),
        ),
    }
}

/// One handshake: an action for an account, and how far it has come.
#[derive(Clone, Debug, PartialEq, Eq)]
pub struct Handshake {
    pub action: AccountAction,
    pub cookie: String,
    pub state: BrokerState,
}

impl Handshake {
    /// A handshake that has not begun.
    pub fn new(action: AccountAction, cookie: &str) -> (handshake: Handshake)
        ensures
            handshake.action == action,
            handshake.cookie@ == cookie@,
            handshake.state == BrokerState::Ready,
    {
        Handshake { action, cookie: String::from_str(cookie), state: BrokerState::Ready }
    }

    /// Whether the handshake is over.
    pub fn is_finished(&self) -> (done: bool)
        ensures
            done == (self.state == BrokerState::Finished),
    {
        self.state == BrokerState::Finished
    }

    /// Takes one event and says what to do next.
    ///
    /// Action and cookie never change. State and command are those of
    /// `next_step`: in particular a first answer without the token header
    /// ends the handshake with `TokenAcquisitionFailed` and no second
    /// request, and a finished handshake stays finished.
    pub fn step(&mut self, event: BrokerEvent) -> (command: BrokerCommand)
        ensures
            final(self).action == old(self).action,
            final(self).cookie == old(self).cookie,
            (final(self).state, command@) == next_step(
                old(self).action,
                old(self).cookie@,
                old(self).state,
                event,
            ),
    {
        let (state, command) = advance(&self.action, self.cookie.as_str(), self.state, event);
        self.state = state;
        command
    }
}

} // verus!
