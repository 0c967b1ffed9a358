//! Private and VIP servers: the links that name them, the favourites that
//! remember them, and the page that gives a link's access code away.

use crate::api::http::{first_named, HttpRequest, HttpResponse, Method, RequestText};
use crate::api::launch::opt_str;
use crate::deps::pattern::{first_capture, regex_first_capture};
use crate::deps::text::{
    char_is_alphanumeric, contains, has_prefix, is_alphanumeric, occurs_in, parse_u64, parsed_u64,
    strip_prefix, trim, trimmed,
};
use crate::error::{Failure, NexusError};
use vstd::prelude::*;
use vstd::string::*;
use vstd::utf8::*;

verus! {

/// The kinds of server.
#[derive(Clone, Copy, Debug, PartialEq, Eq, Structural)]
pub enum ServerType {
    Public,
    VIP,
    Private,
}

/// The label of each kind of server.
pub open spec fn server_type_label(kind: ServerType) -> Seq<char> {
    match kind {
        ServerType::Public => "Public"@,
        ServerType::VIP => "VIP"@,
        ServerType::Private => "Private"@,
    }
}

/// The icon of each kind of server.
pub open spec fn server_type_icon(kind: ServerType) -> Seq<char> {
    match kind {
        ServerType::Public => "\u{1F310}"@,
        ServerType::VIP => "\u{2B50}"@,
        ServerType::Private => "\u{1F512}"@,
    }
}

impl ServerType {
    /// The label shown for this kind of server.
    pub fn label(&self) -> (text: &'static str)
        ensures
            text@ == server_type_label(*self),
    {
        match self {
            ServerType::Public => "Public",
            ServerType::VIP => "VIP",
            ServerType::Private => "Private",
        }
    }

    /// The icon shown for this kind of server.
    pub fn icon(&self) -> (text: &'static str)
        ensures
            text@ == server_type_icon(*self),
    {
        match self {
            ServerType::Public => "\u{1F310}",
            ServerType::VIP => "\u{2B50}",
            ServerType::Private => "\u{1F512}",
        }
    }
}

impl Default for ServerType {
    fn default() -> (kind: Self)
        ensures
            kind == ServerType::Public,
    {
        ServerType::Public
    }
}

/// The owner of a VIP server, as the service lists it.
#[derive(Clone, Debug, PartialEq, Eq)]
pub struct VipServerOwner {
    pub has_verified_badge: Option<bool>,
    pub id: Option<u64>,
    pub name: Option<String>,
    pub display_name: Option<String>,
}

/// A VIP server, as the service lists it.
#[derive(Clone, Debug, PartialEq, Eq)]
pub struct VipServerData {
    pub id: String,
    pub name: String,
    pub vip_server_id: Option<u64>,
    pub access_code: Option<String>,
    pub max_players: u32,
    pub playing: u32,
    pub owner: Option<VipServerOwner>,
}

/// One page of the list of VIP servers.
#[derive(Clone, Debug, PartialEq, Eq)]
pub struct VipServersResponse {
    pub previous_page_cursor: Option<String>,
    pub next_page_cursor: Option<String>,
    pub data: Vec<VipServerData>,
}

/// What a link to a private server names.
#[derive(Clone, Debug, PartialEq, Eq)]
pub struct PrivateServerLink {
    pub place_id: u64,
    pub link_code: String,
    pub access_code: Option<String>,
}

/// A private server link with its texts as sequences of characters.
pub struct LinkText {
    pub place_id: u64,
    pub link_code: Seq<char>,
    pub access_code: Option<Seq<char>>,
}

impl View for PrivateServerLink {
    type V = LinkText;

    open spec fn view(&self) -> LinkText {
        LinkText {
            place_id: self.place_id,
            link_code: self.link_code@,
            access_code: match self.access_code {
                Some(code) => Some(code@),
                None => None,
            },
        }
    }
}

/// The expression that finds the link code in an address.
pub open spec fn link_code_pattern() -> Seq<char> {
    "privateServerLinkCode=([a-zA-Z0-9_-]+)"@
}

/// The expression that finds the place in an address.
pub open spec fn place_pattern() -> Seq<char> {
    "/games/(\\d+)"@
}

/// The characters of a bare link code: letters, digits, `-` and `_`.
pub open spec fn is_code_char(c: char) -> bool {
    is_alphanumeric(c) || c == '-' || c == '_'
}

/// A text made of code characters only.
pub open spec fn all_code_chars(text: Seq<char>) -> bool {
    forall|i: int| 0 <= i < text.len() ==> is_code_char(#[trigger] text[i])
}

/// The place that an address names: the number after `/games/`, or zero
/// where there is none or it is no 64-bit number.
pub open spec fn place_in(address: Seq<char>) -> u64 {
    match first_capture(place_pattern(), address) {
        Some(digits) => match parsed_u64(digits) {
            Some(place) => place,
            None => 0,
        },
        None => 0,
    }
}

/// The length of a text in bytes, as `str::len` counts it.
pub open spec fn byte_len(text: Seq<char>) -> usize {
    encode_utf8(text).len() as usize
}

/// What an input names, read in three ways in this order: an address with a
/// link code; `VIP:` and an access code; a bare link code, more than ten
/// bytes of code characters. Surrounding white space does not count.
pub open spec fn parsed_link(input: Seq<char>) -> Option<LinkText> {
    let text = trimmed(input);
    if occurs_in("privateServerLinkCode="@, text) {
        match first_capture(link_code_pattern(), text) {
            Some(code) => Some(
                LinkText { place_id: place_in(text), link_code: code, access_code: None },
            ),
            None => None,
        }
    } else if has_prefix(text, "VIP:"@) {
        Some(
            LinkText {
                place_id: 0,
                link_code: Seq::empty(),
                access_code: Some(text.subrange("VIP:"@.len() as int, text.len() as int)),
            },
        )
    } else if byte_len(text) > 10 && all_code_chars(text) {
        Some(LinkText { place_id: 0, link_code: text, access_code: None })
    } else {
        None
    }
}

/// Whether a text is made of code characters only.
fn only_code_chars(text: &str) -> (all: bool)
    ensures
        all == all_code_chars(text@),
{
    let n = text.unicode_len();
    let mut i: usize = 0;
    while i < n
        invariant
            n == text@.len(),
            i <= n,
            forall|j: int| 0 <= j < i ==> is_code_char(#[trigger] text@[j]),
        decreases n - i,
    {
        let c = text.get_char(i);
        if !(char_is_alphanumeric(c) || c == '-' || c == '_') {
            return false;
        }
        i += 1;
    }
    true
}

impl PrivateServerLink {
    /// Reads a link to a private server: a full address with a link code,
    /// `VIP:` followed by an access code, or a bare link code.
    pub fn parse(input: &str) -> (link: Option<PrivateServerLink>)
        ensures
            match link {
                Some(l) => parsed_link(input@) == Some(l@),
                None => parsed_link(input@) is None,
            },
    {
        let text = trim(input);
        if contains(text, "privateServerLinkCode=") {
            let link_code = match regex_first_capture(
                "privateServerLinkCode=([a-zA-Z0-9_-]+)",
                text,
            ) {
                Some(code) => code,
                None => {
                    return None;
                },
            };
            let place_id = match regex_first_capture("/games/(\\d+)", text) {
                Some(digits) => match parse_u64(digits.as_str()) {
                    Some(place) => place,
                    None => 0,
                },
                None => 0,
            };
            return Some(PrivateServerLink { place_id, link_code, access_code: None });
        }
        match strip_prefix(text, "VIP:") {
            Some(code) => {
                assert(code@ =~= text@.subrange("VIP:"@.len() as int, text@.len() as int));
                return Some(
                    PrivateServerLink {
                        place_id: 0,
                        link_code: String::new(),
                        access_code: Some(String::from_str(code)),
                    },
                );
            },
            None => {},
        }
        if text.len() > 10 && only_code_chars(text) {
            return Some(
                PrivateServerLink {
                    place_id: 0,
                    link_code: String::from_str(text),
                    access_code: None,
                },
            );
        }
        None
    }

    /// Whether the link names a server at all: by link code or access code.
    pub fn is_valid(&self) -> (valid: bool)
        ensures
            valid == (self.link_code@.len() > 0 || self.access_code is Some),
    {
        !self.link_code.as_str().is_empty() || self.access_code.is_some()
    }

    /// The code to launch with: the link code where there is one, else the
    /// access code.
    pub fn get_code(&self) -> (code: Option<&str>)
        ensures
            match code {
                Some(c) => if self.link_code@.len() > 0 {
                    c@ == self.link_code@
                } else {
                    self.access_code is Some && c@ == self.access_code->0@
                },
                None => self.link_code@.len() == 0 && self.access_code is None,
            },
    {
        if !self.link_code.as_str().is_empty() {
            Some(self.link_code.as_str())
        } else {
            match &self.access_code {
                Some(code) => Some(code.as_str()),
                None => None,
            }
        }
    }
}

impl Default for PrivateServerLink {
    fn default() -> (link: Self)
        ensures
            link.place_id == 0,
            link.link_code@.len() == 0,
            link.access_code is None,
    {
        PrivateServerLink { place_id: 0, link_code: String::new(), access_code: None }
    }
}

/// A favourite game, which may remember a private server.
#[derive(Clone, Debug, PartialEq, Eq)]
pub struct FavoriteServer {
    pub name: String,
    pub place_id: u64,
    pub private_server_link: Option<String>,
    pub access_code: Option<String>,
    pub last_played: Option<String>,
}

impl FavoriteServer {
    /// A favourite with a name and a place, and nothing else.
    pub fn new(name: String, place_id: u64) -> (favorite: Self)
        ensures
            favorite.name == name,
            favorite.place_id == place_id,
            favorite.private_server_link is None,
            favorite.access_code is None,
            favorite.last_played is None,
    {
        FavoriteServer {
            name,
            place_id,
            private_server_link: None,
            access_code: None,
            last_played: None,
        }
    }

    /// The same favourite with a link to a private server.
    pub fn with_private_link(self, link: &str) -> (favorite: Self)
        ensures
            favorite.private_server_link is Some,
            favorite.private_server_link->0@ == link@,
            favorite.name == self.name,
            favorite.place_id == self.place_id,
            favorite.access_code == self.access_code,
            favorite.last_played == self.last_played,
    {
        FavoriteServer {
            name: self.name,
            place_id: self.place_id,
            private_server_link: Some(String::from_str(link)),
            access_code: self.access_code,
            last_played: self.last_played,
        }
    }

    /// The same favourite with an access code.
    pub fn with_access_code(self, code: &str) -> (favorite: Self)
        ensures
            favorite.access_code is Some,
            favorite.access_code->0@ == code@,
            favorite.name == self.name,
            favorite.place_id == self.place_id,
            favorite.private_server_link == self.private_server_link,
            favorite.last_played == self.last_played,
    {
        FavoriteServer {
            name: self.name,
            place_id: self.place_id,
            private_server_link: self.private_server_link,
            access_code: Some(String::from_str(code)),
            last_played: self.last_played,
        }
    }

    /// Whether the favourite remembers a private server.
    pub fn is_private(&self) -> (private: bool)
        ensures
            private == (self.private_server_link is Some || self.access_code is Some),
    {
        self.private_server_link.is_some() || self.access_code.is_some()
    }
}

/// The request for one page of a place's VIP servers.
pub open spec fn vip_servers_request(
    cookie: Seq<char>,
    place_id: Seq<char>,
    cursor: Option<Seq<char>>,
) -> RequestText {
    RequestText {
        method: Method::Get,
        url: "https://games.roblox.com/v1/games/"@ + place_id
            + "/servers/VIP?sortOrder=Asc&limit=25"@ + match cursor {
            Some(c) => "&cursor="@ + c,
            None => Seq::empty(),
        },
        cookie: Some(".ROBLOSECURITY="@ + cookie),
        csrf_token: None,
        content_type: None,
        referer: None,
        user_agent: None,
        accept: Some("application/json"@),
        body: None,
    }
}

/// The request that is sent only to be answered with an anti-forgery token.
pub open spec fn token_request(cookie: Seq<char>) -> RequestText {
    RequestText {
        method: Method::Post,
        url: "https://auth.roblox.com/v1/authentication-ticket"@,
        cookie: Some(".ROBLOSECURITY="@ + cookie),
        csrf_token: None,
        content_type: None,
        referer: None,
        user_agent: None,
        accept: None,
        body: None,
    }
}

/// The request for the page of a private server link, with the token that
/// the answer to the token request named, or an empty one where it named
/// none.
pub open spec fn link_page_request(
    cookie: Seq<char>,
    place_id: Seq<char>,
    link_code: Seq<char>,
    answer: HttpResponse,
) -> RequestText {
    RequestText {
        method: Method::Get,
        url: "https://www.roblox.com/games/"@ + place_id + "/?privateServerLinkCode="@ + link_code,
        cookie: Some(".ROBLOSECURITY="@ + cookie),
        csrf_token: Some(
            match first_named(answer.headers@, "x-csrf-token"@) {
                Some(token) => token,
                None => Seq::empty(),
            },
        ),
        content_type: None,
        referer: Some("https://www.roblox.com/"@),
        user_agent: None,
        accept: None,
        body: None,
    }
}

/// The `Cookie` header for a cookie taken as it is.
fn raw_cookie_header(cookie: &str) -> (header: String)
    ensures
        header@ == ".ROBLOSECURITY="@ + cookie@,
{
    let mut header = String::from_str(".ROBLOSECURITY=");
    header.append(cookie);
    header
}

/// The request for one page of the VIP servers of a place, which only a
/// signed-in user is shown.
pub fn fetch_vip_servers(cookie: &str, place_id: &str, cursor: Option<&str>) -> (request:
    HttpRequest)
    ensures
        request@ == vip_servers_request(cookie@, place_id@, opt_str(cursor)),
{
    let mut url = String::from_str("https://games.roblox.com/v1/games/");
    url.append(place_id);
    url.append("/servers/VIP?sortOrder=Asc&limit=25");
    match cursor {
        Some(c) => {
            url.append("&cursor=");
            url.append(c);
            assert(url@ =~= vip_servers_request(cookie@, place_id@, opt_str(cursor)).url);
        },
        None => {
            assert(url@ =~= vip_servers_request(cookie@, place_id@, opt_str(cursor)).url);
        },
    }
    HttpRequest {
        method: Method::Get,
        url,
        cookie: Some(raw_cookie_header(cookie)),
        csrf_token: None,
        content_type: None,
        referer: None,
        user_agent: None,
        accept: Some(String::from_str("application/json")),
        body: None,
    }
}

/// The request that asks for an anti-forgery token before the page of a
/// private server link is fetched.
pub fn link_token_request(cookie: &str) -> (request: HttpRequest)
    ensures
        request@ == token_request(cookie@),
{
    HttpRequest {
        method: Method::Post,
        url: String::from_str("https://auth.roblox.com/v1/authentication-ticket"),
        cookie: Some(raw_cookie_header(cookie)),
        csrf_token: None,
        content_type: None,
        referer: None,
        user_agent: None,
        accept: None,
        body: None,
    }
}

/// The request for the page of a private server link, from which
/// `access_code_from_page` reads the access code. `answer` is the answer to
/// the token request; where it names no token the page is asked for with an
/// empty one.
pub fn get_access_code_from_link(
    cookie: &str,
    place_id: &str,
    link_code: &str,
    answer: &HttpResponse,
) -> (request: HttpRequest)
    ensures
        request@ == link_page_request(cookie@, place_id@, link_code@, *answer),
{
    let token = match answer.header("x-csrf-token") {
        Some(token) => token,
        None => String::new(),
    };
    let mut url = String::from_str("https://www.roblox.com/games/");
    url.append(place_id);
    url.append("/?privateServerLinkCode=");
    url.append(link_code);
    HttpRequest {
        method: Method::Get,
        url,
        cookie: Some(raw_cookie_header(cookie)),
        csrf_token: Some(token),
        content_type: None,
        referer: Some(String::from_str("https://www.roblox.com/")),
        user_agent: None,
        accept: None,
        body: None,
    }
}

/// The expression that finds the access code in the call that joins a
/// private game.
pub open spec fn join_call_pattern() -> Seq<char> {
    "Roblox\\.GameLauncher\\.joinPrivateGame\\(\\d+,\\s*'([^']+)'"@
}

/// The expression that finds the access code where it is written as a field.
pub open spec fn access_field_pattern() -> Seq<char> {
    "accessCode['\":\\s]+([a-f0-9-]+)"@
}

/// The access code that a game's page gives away: the one in the join call,
/// else the one written as a field.
pub open spec fn access_code_in(page: Seq<char>) -> Option<Seq<char>> {
    match first_capture(join_call_pattern(), page) {
        Some(code) => Some(code),
        None => first_capture(access_field_pattern(), page),
    }
}

/// Finds the access code of a private server in the page of its link.
pub fn access_code_from_page(page: &str) -> (code: Result<String, NexusError>)
    ensures
        match code {
            Ok(c) => access_code_in(page@) == Some(c@),
            Err(error) => access_code_in(page@) is None && error@ == Failure::TransportFailure(
                "Could not extract access code from private server link"@,
            ),
        },
{
    match regex_first_capture("Roblox\\.GameLauncher\\.joinPrivateGame\\(\\d+,\\s*'([^']+)'", page) {
        Some(code) => Ok(code),
        None => match regex_first_capture("accessCode['\":\\s]+([a-f0-9-]+)", page) {
            Some(code) => Ok(code),
            None => Err(
                NexusError::TransportFailure(
                    String::from_str("Could not extract access code from private server link"),
                ),
            ),
        },
    }
}

} // verus!
