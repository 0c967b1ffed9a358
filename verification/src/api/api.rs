//! The operations on an account: the identity check, the account actions and
//! the launches. Each one is set up here and carried out step by step by the
//! caller, who does the sending and the starting.

use crate::api::handshake::{cookie_header, format_cookie_header, AccountAction, BrokerState, Handshake};
use crate::api::http::{status_is_success, HttpRequest, HttpResponse, Method, RequestText};
use crate::api::launch::{
    effective_place, normalise_place, opt_str, Launch, LaunchIntent, LaunchPhase, LaunchTarget,
};
use crate::deps::json::{
    json_get_str, json_get_u64, json_is_document, json_number, json_parses, json_text,
};
use crate::deps::text::{trim, trimmed};
use crate::error::{Failure, NexusError};
use crate::strings::{decimal, push_decimal};
use vstd::prelude::*;
use vstd::string::*;

verus! {

/// Robux, friends and membership of an account.
#[derive(Default)]
pub struct AccountInfo {
    pub robux: i64,
    pub friends_count: u32,
    pub is_premium: bool,
}

/// The operations on an account.
pub struct RobloxApi;

/// A session cookie as it is sent: without surrounding white space.
pub fn format_cookie_str(cookie: &str) -> (inner: &str)
    ensures
        inner@ == trimmed(cookie@),
{
    trim(cookie)
}

/// The request that asks whose session a cookie is.
pub open spec fn identity_request(cookie: Seq<char>) -> RequestText {
    RequestText {
        method: Method::Get,
        url: "https://users.roblox.com/v1/users/authenticated"@,
        cookie: Some(cookie_header(cookie)),
        csrf_token: None,
        content_type: None,
        referer: None,
        user_agent: None,
        accept: None,
        body: None,
    }
}

/// What the answer to the identity check says: any status but success means
/// the session is invalid, whatever the body holds; a success names the user
/// by number and, where it gives one, by display name.
pub open spec fn identity_of(response: HttpResponse) -> Result<(u64, Seq<char>), Failure> {
    if !status_is_success(response.status) {
        Err(Failure::SessionInvalid)
    } else if !json_parses(response.body@) {
        Err(Failure::TransportFailure("Failed to parse response"@))
    } else {
        match json_number(response.body@, "/id"@) {
            None => Err(Failure::TransportFailure("No user ID in response"@)),
            Some(id) => Ok(
                (
                    id,
                    match json_text(response.body@, "/displayName"@) {
                        Some(name) => name,
                        None => "Unknown"@,
                    },
                ),
            ),
        }
    }
}

/// The request that asks for a user's name.
pub open spec fn username_request(user_id: u64) -> RequestText {
    RequestText {
        method: Method::Get,
        url: "https://users.roblox.com/v1/users/"@ + decimal(user_id as nat),
        cookie: None,
        csrf_token: None,
        content_type: None,
        referer: None,
        user_agent: None,
        accept: None,
        body: None,
    }
}

/// What the answer to the request for a user's name says.
pub open spec fn username_of(response: HttpResponse) -> Result<Seq<char>, Failure> {
    if !status_is_success(response.status) {
        Err(Failure::ActionRejected { status: response.status, body: response.body@ })
    } else if !json_parses(response.body@) {
        Err(Failure::TransportFailure("Failed to parse response"@))
    } else {
        match json_text(response.body@, "/name"@) {
            Some(name) => Ok(name),
            None => Err(Failure::TransportFailure("Username not found"@)),
        }
    }
}

/// A public launch as it stands before its first step.
pub open spec fn fresh_public_launch(
    launch: Launch,
    cookie: Seq<char>,
    place_id: Option<Seq<char>>,
    job_id: Option<Seq<char>>,
    multi_instance: bool,
) -> bool {
    &&& launch.phase == LaunchPhase::Ready
    &&& launch.broker == BrokerState::Ready
    &&& launch.intent.cookie@ == cookie
    &&& launch.intent.multi_instance == multi_instance
    &&& launch.intent.place_id@ == effective_place(place_id)
    &&& match launch.intent.target {
        LaunchTarget::Matchmake => job_id is None,
        LaunchTarget::RejoinServer { job_id: job } => job_id == Some(job@),
        LaunchTarget::JoinPrivate { .. } => false,
    }
}

/// A launch into a private server as it stands before its first step.
pub open spec fn fresh_private_launch(
    launch: Launch,
    cookie: Seq<char>,
    place_id: Seq<char>,
    access_code: Seq<char>,
    link_code: Option<Seq<char>>,
    multi_instance: bool,
) -> bool {
    &&& launch.phase == LaunchPhase::Ready
    &&& launch.broker == BrokerState::Ready
    &&& launch.intent.cookie@ == cookie
    &&& launch.intent.multi_instance == multi_instance
    &&& launch.intent.place_id@ == place_id
    &&& match launch.intent.target {
        LaunchTarget::JoinPrivate { access_code: access, link_code: link } => {
            &&& access@ == access_code
            &&& match link {
                Some(l) => link_code == Some(l@),
                None => link_code is None,
            }
        },
        _ => false,
    }
}

/// A handshake as it stands before its first step.
pub open spec fn fresh_handshake(handshake: Handshake, action: AccountAction, cookie: Seq<char>) -> bool {
    &&& handshake.action == action
    &&& handshake.cookie@ == cookie
    &&& handshake.state == BrokerState::Ready
}

impl RobloxApi {
    /// The request that checks a session cookie. It is sent once; nothing of
    /// an earlier check is kept.
    pub fn validate_cookie(cookie: &str) -> (request: HttpRequest)
        ensures
            request@ == identity_request(cookie@),
    {
        HttpRequest {
            method: Method::Get,
            url: String::from_str("https://users.roblox.com/v1/users/authenticated"),
            cookie: Some(format_cookie_header(cookie)),
            csrf_token: None,
            content_type: None,
            referer: None,
            user_agent: None,
            accept: None,
            body: None,
        }
    }

    /// Reads the answer to the identity check: the user's number and display
    /// name, or why there is none.
    pub fn read_identity(response: &HttpResponse) -> (identity: Result<(u64, String), NexusError>)
        ensures
            match identity {
                Ok((id, name)) => identity_of(*response) == Ok::<(u64, Seq<char>), Failure>(
                    (id, name@),
                ),
                Err(error) => identity_of(*response) == Err::<(u64, Seq<char>), Failure>(error@),
            },
    {
        if !response.is_success() {
            return Err(NexusError::SessionInvalid);
        }
        if !json_is_document(response.body.as_str()) {
            return Err(NexusError::TransportFailure(String::from_str("Failed to parse response")));
        }
        match json_get_u64(response.body.as_str(), "/id") {
            None => Err(NexusError::TransportFailure(String::from_str("No user ID in response"))),
            Some(id) => {
                let name = match json_get_str(response.body.as_str(), "/displayName") {
                    Some(name) => name,
                    None => String::from_str("Unknown"),
                };
                Ok((id, name))
            },
        }
    }

    /// The request that asks for a user's name.
    pub fn get_username_by_id(user_id: u64) -> (request: HttpRequest)
        ensures
            request@ == username_request(user_id),
    {
        let mut url = String::from_str("https://users.roblox.com/v1/users/");
        push_decimal(&mut url, user_id);
        HttpRequest {
            method: Method::Get,
            url,
            cookie: None,
            csrf_token: None,
            content_type: None,
            referer: None,
            user_agent: None,
            accept: None,
            body: None,
        }
    }

    /// Reads the answer to the request for a user's name.
    pub fn read_username(response: &HttpResponse) -> (name: Result<String, NexusError>)
        ensures
            match name {
                Ok(n) => username_of(*response) == Ok::<Seq<char>, Failure>(n@),
                Err(error) => username_of(*response) == Err::<Seq<char>, Failure>(error@),
            },
    {
        if !response.is_success() {
            return Err(
                NexusError::ActionRejected { status: response.status, body: response.body.clone() },
            );
        }
        if !json_is_document(response.body.as_str()) {
            return Err(NexusError::TransportFailure(String::from_str("Failed to parse response")));
        }
        match json_get_str(response.body.as_str(), "/name") {
            Some(name) => Ok(name),
            None => Err(NexusError::TransportFailure(String::from_str("Username not found"))),
        }
    }

    /// The handshake that fetches a launch ticket.
    pub fn get_auth_ticket(cookie: &str) -> (handshake: Handshake)
        ensures
            fresh_handshake(handshake, AccountAction::LaunchTicket, cookie@),
    {
        Handshake::new(AccountAction::LaunchTicket, cookie)
    }

    /// The handshake that signs every other session out.
    pub fn logout_other_sessions(cookie: &str) -> (handshake: Handshake)
        ensures
            fresh_handshake(handshake, AccountAction::LogoutOtherSessions, cookie@),
    {
        Handshake::new(AccountAction::LogoutOtherSessions, cookie)
    }

    /// The handshake that changes the password.
    pub fn change_password(cookie: &str, current_password: &str, new_password: &str) -> (handshake:
        Handshake)
        ensures
            handshake.cookie@ == cookie@,
            handshake.state == BrokerState::Ready,
            match handshake.action {
                AccountAction::ChangePassword { current_password: current, new_password: new } => {
                    current@ == current_password@ && new@ == new_password@
                },
                _ => false,
            },
    {
        Handshake::new(
            AccountAction::ChangePassword {
                current_password: String::from_str(current_password),
                new_password: String::from_str(new_password),
            },
            cookie,
        )
    }

    /// The handshake that changes the display name.
    pub fn set_display_name(cookie: &str, user_id: u64, new_display_name: &str) -> (handshake:
        Handshake)
        ensures
            handshake.cookie@ == cookie@,
            handshake.state == BrokerState::Ready,
            match handshake.action {
                AccountAction::SetDisplayName { user_id: id, new_display_name: name } => {
                    id == user_id && name@ == new_display_name@
                },
                _ => false,
            },
    {
        Handshake::new(
            AccountAction::SetDisplayName {
                user_id,
                new_display_name: String::from_str(new_display_name),
            },
            cookie,
        )
    }

    /// The handshake that blocks a user.
    pub fn block_user(cookie: &str, user_id: u64) -> (handshake: Handshake)
        ensures
            fresh_handshake(handshake, AccountAction::BlockUser { user_id }, cookie@),
    {
        Handshake::new(AccountAction::BlockUser { user_id }, cookie)
    }

    /// The handshake that lifts the block on a user.
    pub fn unblock_user(cookie: &str, user_id: u64) -> (handshake: Handshake)
        ensures
            fresh_handshake(handshake, AccountAction::UnblockUser { user_id }, cookie@),
    {
        Handshake::new(AccountAction::UnblockUser { user_id }, cookie)
    }

    /// The handshake that asks a user for friendship.
    pub fn send_friend_request(cookie: &str, user_id: u64) -> (handshake: Handshake)
        ensures
            fresh_handshake(handshake, AccountAction::SendFriendRequest { user_id }, cookie@),
    {
        Handshake::new(AccountAction::SendFriendRequest { user_id }, cookie)
    }

    /// A launch into any open server of a place, after terminating every
    /// running client.
    pub fn set_account_and_launch(cookie: &str, place_id: Option<&str>) -> (launch: Launch)
        ensures
            fresh_public_launch(launch, cookie@, opt_str(place_id), None, false),
    {
        Self::launch_with_options(cookie, place_id, false)
    }

    /// A launch into any open server of a place, beside the clients that
    /// are running.
    pub fn launch_multi_instance(cookie: &str, place_id: Option<&str>) -> (launch: Launch)
        ensures
            fresh_public_launch(launch, cookie@, opt_str(place_id), None, true),
    {
        Self::launch_with_options(cookie, place_id, true)
    }

    /// A launch into any open server of a place.
    pub fn launch_with_options(cookie: &str, place_id: Option<&str>, multi_instance: bool) -> (launch:
        Launch)
        ensures
            fresh_public_launch(launch, cookie@, opt_str(place_id), None, multi_instance),
    {
        Self::launch_with_job_id(cookie, place_id, None, multi_instance)
    }

    /// A launch into one running server of a place, or into any open one
    /// where no job id is given.
    pub fn launch_with_job_id(
        cookie: &str,
        place_id: Option<&str>,
        job_id: Option<&str>,
        multi_instance: bool,
    ) -> (launch: Launch)
        ensures
            fresh_public_launch(
                launch,
                cookie@,
                opt_str(place_id),
                opt_str(job_id),
                multi_instance,
            ),
    {
        let target = match job_id {
            Some(job) => LaunchTarget::RejoinServer { job_id: String::from_str(job) },
            None => LaunchTarget::Matchmake,
        };
        Launch::new(
            LaunchIntent {
                cookie: String::from_str(cookie),
                place_id: normalise_place(place_id),
                target,
                multi_instance,
            },
        )
    }

    /// A launch into one running server, after terminating every running
    /// client.
    pub fn launch_to_server(cookie: &str, place_id: &str, job_id: &str) -> (launch: Launch)
        ensures
            fresh_public_launch(launch, cookie@, Some(place_id@), Some(job_id@), false),
    {
        Self::launch_with_job_id(cookie, Some(place_id), Some(job_id), false)
    }

    /// A launch into a private server, by access code and perhaps link code.
    pub fn launch_to_private_server(
        cookie: &str,
        place_id: &str,
        access_code: &str,
        link_code: Option<&str>,
        multi_instance: bool,
    ) -> (launch: Launch)
        ensures
            fresh_private_launch(
                launch,
                cookie@,
                place_id@,
                access_code@,
                opt_str(link_code),
                multi_instance,
            ),
    {
        let link = match link_code {
            Some(l) => Some(String::from_str(l)),
            None => None,
        };
        Launch::new(
            LaunchIntent {
                cookie: String::from_str(cookie),
                place_id: String::from_str(place_id),
                target: LaunchTarget::JoinPrivate {
                    access_code: String::from_str(access_code),
                    link_code: link,
                },
                multi_instance,
            },
        )
    }
}

} // verus!
