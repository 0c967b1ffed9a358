//! The plain lookups: one request each, answered with a JSON document from
//! which a few fields are taken. For each there is the request to send and
//! the reading of its answer.

use crate::account::{presence_of, PresenceText, UserPresence, UserPresenceType};
use crate::api::api::{AccountInfo, RobloxApi};
use crate::api::handshake::{
    cookie_header, format_cookie_header, out_of_turn, transport_error, transport_failure,
    BrokerEvent,
};
use crate::api::http::{status_is_success, HttpRequest, HttpResponse, Method, RequestText};
use crate::deps::json::{
    json_get_i64, json_get_len, json_get_str, json_get_u64, json_integer, json_is_document,
    json_len, json_number, json_parses, json_quote, json_quoted, json_text,
};
use crate::error::{Failure, NexusError};
use crate::strings::{decimal, push_decimal, str_eq};
use std::collections::HashMap;
use vstd::prelude::*;
use vstd::string::*;

verus! {

broadcast use vstd::std_specs::hash::group_hash_axioms;

/// The JSON Pointer to a field of an item of an array under a key.
pub open spec fn item_pointer(key: Seq<char>, index: nat, field: Seq<char>) -> Seq<char> {
    "/"@ + key + "/"@ + decimal(index) + "/"@ + field
}

/// Numbers joined by commas.
pub open spec fn joined(ids: Seq<u64>) -> Seq<char>
    decreases ids.len(),
{
    if ids.len() == 0 {
        Seq::empty()
    } else if ids.len() == 1 {
        decimal(ids[0] as nat)
    } else {
        joined(ids.drop_last()) + ","@ + decimal(ids.last() as nat)
    }
}

/// A request without cookie, token or body.
pub open spec fn plain_get(url: Seq<char>) -> RequestText {
    RequestText {
        method: Method::Get,
        url,
        cookie: None,
        csrf_token: None,
        content_type: None,
        referer: None,
        user_agent: None,
        accept: None,
        body: None,
    }
}

/// A request that carries the session cookie and nothing else.
pub open spec fn signed_get(url: Seq<char>, cookie: Seq<char>) -> RequestText {
    RequestText {
        method: Method::Get,
        url,
        cookie: Some(cookie_header(cookie)),
        csrf_token: None,
        content_type: None,
        referer: None,
        user_agent: None,
        accept: None,
        body: None,
    }
}

/// A request that posts a JSON document, without cookie or token.
pub open spec fn json_post(url: Seq<char>, body: Seq<char>) -> RequestText {
    RequestText {
        method: Method::Post,
        url,
        cookie: None,
        csrf_token: None,
        content_type: Some("application/json"@),
        referer: None,
        user_agent: None,
        accept: None,
        body: Some(body),
    }
}

/// The failure for an answer whose status is no success.
pub open spec fn rejected(response: HttpResponse) -> Failure {
    Failure::ActionRejected { status: response.status, body: response.body@ }
}

/// The failure for an answer that is no JSON document.
pub open spec fn unreadable() -> Failure {
    Failure::TransportFailure("Failed to parse response"@)
}

/// A number cut down to its lowest byte, as a cast does.
pub open spec fn low_byte(n: u64) -> u8 {
    (n % 256) as u8
}

/// A number cut down to its lowest 32 bits, as a cast does.
pub open spec fn low_word(n: u64) -> u32 {
    (n % 0x1_0000_0000) as u32
}

/// The presence that a document lists at a position, with the user it is
/// of: a user or a kind of presence that is missing counts as zero.
pub open spec fn presence_at(document: Seq<char>, index: nat) -> (u64, PresenceText) {
    (
        match json_number(document, item_pointer("userPresences"@, index, "userId"@)) {
            Some(id) => id,
            None => 0,
        },
        PresenceText {
            presence_type: presence_of(
                low_byte(
                    match json_number(
                        document,
                        item_pointer("userPresences"@, index, "userPresenceType"@),
                    ) {
                        Some(code) => code,
                        None => 0,
                    },
                ),
            ),
            last_location: json_text(
                document,
                item_pointer("userPresences"@, index, "lastLocation"@),
            ),
            place_id: json_number(document, item_pointer("userPresences"@, index, "placeId"@)),
            game_id: json_text(document, item_pointer("userPresences"@, index, "gameId"@)),
            last_online: json_text(document, item_pointer("userPresences"@, index, "lastOnline"@)),
            game_name: None,
        },
    )
}

/// How many presences a document lists.
pub open spec fn presence_count(document: Seq<char>) -> nat {
    match json_len(document, "/userPresences"@) {
        Some(n) => n as nat,
        None => 0,
    }
}

/// The presences among the first `count` that a document lists, by user:
/// of two presences of one user the later one stands.
pub open spec fn presences_upto(document: Seq<char>, count: nat) -> Map<u64, PresenceText>
    decreases count,
{
    if count == 0 {
        Map::empty()
    } else {
        presences_upto(document, (count - 1) as nat).insert(
            presence_at(document, (count - 1) as nat).0,
            presence_at(document, (count - 1) as nat).1,
        )
    }
}

/// The presences of a map with their texts as sequences of characters.
pub open spec fn presences_text(listed: Map<u64, UserPresence>) -> Map<u64, PresenceText> {
    listed.map_values(|presence: UserPresence| presence@)
}

/// What the answer to a request for presences says.
pub open spec fn presences_of(response: HttpResponse) -> Result<Map<u64, PresenceText>, Failure> {
    if !status_is_success(response.status) {
        Err(rejected(response))
    } else if !json_parses(response.body@) {
        Err(unreadable())
    } else {
        Ok(presences_upto(response.body@, presence_count(response.body@)))
    }
}

/// The picture that a document lists at a position, with what it is of: only
/// a picture that is complete counts, and only with a target and an address.
pub open spec fn thumbnail_at(document: Seq<char>, index: nat) -> Option<(u64, Seq<char>)> {
    match (
        json_number(document, item_pointer("data"@, index, "targetId"@)),
        json_text(document, item_pointer("data"@, index, "imageUrl"@)),
    ) {
        (Some(target), Some(url)) => if json_text(document, item_pointer("data"@, index, "state"@))
            == Some("Completed"@) {
            Some((target, url))
        } else {
            None
        },
        _ => None,
    }
}

/// The pictures among the first `count` that a document lists, by target:
/// of two pictures of one target the later one stands.
pub open spec fn thumbnails_upto(document: Seq<char>, count: nat) -> Map<u64, Seq<char>>
    decreases count,
{
    if count == 0 {
        Map::empty()
    } else {
        match thumbnail_at(document, (count - 1) as nat) {
            Some(entry) => thumbnails_upto(document, (count - 1) as nat).insert(entry.0, entry.1),
            None => thumbnails_upto(document, (count - 1) as nat),
        }
    }
}

/// The addresses of a map of pictures as sequences of characters.
pub open spec fn thumbnails_text(listed: Map<u64, String>) -> Map<u64, Seq<char>> {
    listed.map_values(|url: String| url@)
}

/// What the answer to a request for pictures says.
pub open spec fn thumbnails_of(response: HttpResponse) -> Result<Map<u64, Seq<char>>, Failure> {
    if !status_is_success(response.status) {
        Err(rejected(response))
    } else if !json_parses(response.body@) {
        Err(unreadable())
    } else {
        Ok(
            thumbnails_upto(
                response.body@,
                match json_len(response.body@, "/data"@) {
                    Some(n) => n as nat,
                    None => 0,
                },
            ),
        )
    }
}

/// What the answer to a request for a place's universe says.
pub open spec fn universe_of(response: HttpResponse) -> Result<u64, Failure> {
    if !status_is_success(response.status) {
        Err(rejected(response))
    } else if !json_parses(response.body@) {
        Err(unreadable())
    } else {
        match json_number(response.body@, "/universeId"@) {
            Some(id) => Ok(id),
            None => Err(Failure::TransportFailure("Universe ID not found"@)),
        }
    }
}

/// What the answer to a request for a user's collectibles says: how many the
/// page lists.
pub open spec fn inventory_of(response: HttpResponse) -> Result<u32, Failure> {
    if !status_is_success(response.status) {
        Err(rejected(response))
    } else if !json_parses(response.body@) {
        Err(unreadable())
    } else {
        Ok(
            match json_len(response.body@, "/data"@) {
                Some(n) => low_word(n as u64),
                None => 0,
            },
        )
    }
}

/// What the answer to a request for a user by name says: the number of the
/// first user listed.
pub open spec fn user_id_of(response: HttpResponse) -> Result<u64, Failure> {
    if !status_is_success(response.status) {
        Err(rejected(response))
    } else if !json_parses(response.body@) {
        Err(unreadable())
    } else if json_len(response.body@, "/data"@) is None {
        Err(Failure::TransportFailure("User not found"@))
    } else {
        match json_number(response.body@, "/data/0/id"@) {
            Some(id) => Ok(id),
            None => Err(Failure::TransportFailure("User not found"@)),
        }
    }
}

/// The document that asks for users by one name.
pub open spec fn username_query(username: Seq<char>) -> Seq<char> {
    "{\"excludeBannedUsers\":false,\"usernames\":["@ + json_quoted(username) + "]}"@
}

/// The document that asks for the presence of some users.
pub open spec fn presence_query(user_ids: Seq<u64>) -> Seq<char> {
    "{\"userIds\":["@ + joined(user_ids) + "]}"@
}

/// The robux in the answer to a request for an account's currency: none
/// where there is no answer or it names none.
pub open spec fn robux_of(answer: Option<HttpResponse>) -> i64 {
    match answer {
        Some(response) => match json_integer(response.body@, "/robux"@) {
            Some(robux) => robux,
            None => 0,
        },
        None => 0,
    }
}

/// The number of friends in the answer to a request for it: none where
/// there is no answer or it names none.
pub open spec fn friends_of(answer: Option<HttpResponse>) -> u32 {
    match answer {
        Some(response) => match json_number(response.body@, "/count"@) {
            Some(count) => low_word(count),
            None => 0,
        },
        None => 0,
    }
}

/// Whether the answer to a request for an account's membership confirms it.
pub open spec fn premium_of(answer: Option<HttpResponse>) -> bool {
    match answer {
        Some(response) => status_is_success(response.status),
        None => false,
    }
}

/// Appends numbers joined by commas.
fn push_joined(out: &mut String, ids: &[u64])
    ensures
        final(out)@ == old(out)@ + joined(ids@),
{
    let mut i: usize = 0;
    assert(ids@.subrange(0, 0) =~= Seq::empty());
    assert(out@ =~= old(out)@ + joined(ids@.subrange(0, 0)));
    while i < ids.len()
        invariant
            i <= ids.len(),
            out@ == old(out)@ + joined(ids@.subrange(0, i as int)),
        decreases ids.len() - i,
    {
        let ghost before = ids@.subrange(0, i as int);
        let ghost after = ids@.subrange(0, i + 1);
        assert(after.drop_last() =~= before);
        assert(after.last() == ids@[i as int]);
        if i > 0 {
            out.append(",");
        }
        push_decimal(out, ids[i]);
        proof {
            reveal_with_fuel(joined, 2);
            if i == 0 {
                assert(joined(after) =~= decimal(ids@[0] as nat));
                assert(joined(before) =~= Seq::empty());
            }
            assert(out@ =~= old(out)@ + joined(after));
        }
        i += 1;
    }
    assert(ids@.subrange(0, i as int) =~= ids@);
}

/// The JSON Pointer to a field of an item of an array under a key.
fn build_item_pointer(key: &str, index: usize, field: &str) -> (pointer: String)
    ensures
        pointer@ == item_pointer(key@, index as nat, field@),
{
    let mut pointer = String::from_str("/");
    pointer.append(key);
    pointer.append("/");
    push_decimal(&mut pointer, index as u64);
    pointer.append("/");
    pointer.append(field);
    pointer
}

/// A request without cookie, token or body.
fn get_request(url: String) -> (request: HttpRequest)
    ensures
        request@ == plain_get(url@),
{
    HttpRequest {
        method: Method::Get,
        url,
        cookie: None,
        csrf_token: None,
        content_type: None,
        referer: None,
        user_agent: None,
        accept: None,
        body: None,
    }
}

/// A request that carries the session cookie and nothing else.
fn get_request_as(url: String, cookie: &str) -> (request: HttpRequest)
    ensures
        request@ == signed_get(url@, cookie@),
{
    HttpRequest {
        method: Method::Get,
        url,
        cookie: Some(format_cookie_header(cookie)),
        csrf_token: None,
        content_type: None,
        referer: None,
        user_agent: None,
        accept: None,
        body: None,
    }
}

/// A request that posts a JSON document.
fn post_request(url: &str, body: String) -> (request: HttpRequest)
    ensures
        request@ == json_post(url@, body@),
{
    HttpRequest {
        method: Method::Post,
        url: String::from_str(url),
        cookie: None,
        csrf_token: None,
        content_type: Some(String::from_str("application/json")),
        referer: None,
        user_agent: None,
        accept: None,
        body: Some(body),
    }
}

/// The failure for an answer whose status is no success.
fn reject(response: &HttpResponse) -> (error: NexusError)
    ensures
        error@ == rejected(*response),
{
    NexusError::ActionRejected { status: response.status, body: response.body.clone() }
}

/// The failure for an answer that is no JSON document.
fn unreadable_answer() -> (error: NexusError)
    ensures
        error@ == unreadable(),
{
    NexusError::TransportFailure(String::from_str("Failed to parse response"))
}

/// The presence that a document lists at a position.
fn read_presence_at(document: &str, index: usize) -> (entry: (u64, UserPresence))
    ensures
        (entry.0, entry.1@) == presence_at(document@, index as nat),
{
    let id_at = build_item_pointer("userPresences", index, "userId");
    let kind_at = build_item_pointer("userPresences", index, "userPresenceType");
    let location_at = build_item_pointer("userPresences", index, "lastLocation");
    let place_at = build_item_pointer("userPresences", index, "placeId");
    let game_at = build_item_pointer("userPresences", index, "gameId");
    let online_at = build_item_pointer("userPresences", index, "lastOnline");
    let user_id = match json_get_u64(document, id_at.as_str()) {
        Some(id) => id,
        None => 0,
    };
    let code = match json_get_u64(document, kind_at.as_str()) {
        Some(code) => code,
        None => 0,
    };
    let presence = UserPresence {
        presence_type: UserPresenceType::from_int((code % 256) as u8),
        last_location: json_get_str(document, location_at.as_str()),
        place_id: json_get_u64(document, place_at.as_str()),
        game_id: json_get_str(document, game_at.as_str()),
        last_online: json_get_str(document, online_at.as_str()),
        game_name: None,
    };
    (user_id, presence)
}

/// The picture that a document lists at a position, if it counts.
fn read_thumbnail_at(document: &str, index: usize) -> (entry: Option<(u64, String)>)
    ensures
        match entry {
            Some((target, url)) => thumbnail_at(document@, index as nat) == Some((target, url@)),
            None => thumbnail_at(document@, index as nat) is None,
        },
{
    let target_at = build_item_pointer("data", index, "targetId");
    let url_at = build_item_pointer("data", index, "imageUrl");
    let state_at = build_item_pointer("data", index, "state");
    let target = json_get_u64(document, target_at.as_str());
    let url = json_get_str(document, url_at.as_str());
    match (target, url) {
        (Some(target), Some(url)) => {
            match json_get_str(document, state_at.as_str()) {
                Some(state) => {
                    if str_eq(state.as_str(), "Completed") {
                        Some((target, url))
                    } else {
                        None
                    }
                },
                None => None,
            }
        },
        _ => None,
    }
}

/// Reads the answer to a request for pictures, avatar pictures or game
/// icons alike: the address of each complete picture under its target.
pub fn read_thumbnails(response: &HttpResponse) -> (pictures: Result<
    HashMap<u64, String>,
    NexusError,
>)
    ensures
        match pictures {
            Ok(listed) => thumbnails_of(*response) == Ok::<Map<u64, Seq<char>>, Failure>(
                thumbnails_text(listed@),
            ),
            Err(error) => thumbnails_of(*response) == Err::<Map<u64, Seq<char>>, Failure>(error@),
        },
{
    if !response.is_success() {
        return Err(reject(response));
    }
    let document = response.body.as_str();
    if !json_is_document(document) {
        return Err(unreadable_answer());
    }
    let count = match json_get_len(document, "/data") {
        Some(n) => n,
        None => 0,
    };
    let mut listed: HashMap<u64, String> = HashMap::new();
    let mut i: usize = 0;
    assert(thumbnails_text(listed@) =~= thumbnails_upto(document@, 0));
    while i < count
        invariant
            i <= count,
            thumbnails_text(listed@) == thumbnails_upto(document@, i as nat),
        decreases count - i,
    {
        let ghost before = listed@;
        match read_thumbnail_at(document, i) {
            Some((target, url)) => {
                listed.insert(target, url);
                assert(thumbnails_text(listed@) =~= thumbnails_text(before).insert(target, url@));
            },
            None => {},
        }
        i += 1;
    }
    Ok(listed)
}

/// Where the lookup of a game stands.
#[derive(Clone, Copy, Debug, PartialEq, Eq, Structural)]
pub enum GamePhase {
    /// Nothing asked yet.
    Ready,
    /// The universe of the place was asked for.
    Universe,
    /// The game of this universe was asked for.
    Games(u64),
    /// The details of the place were asked for.
    Places,
    /// Over, whichever way.
    Finished,
}

/// What the caller of a game lookup is to do next.
#[derive(Debug, PartialEq, Eq)]
pub enum GameCommand {
    /// Send this and report the answer.
    Send(HttpRequest),
    /// Stop: this is the result, the game's name and its universe.
    Finish(Result<(String, String), NexusError>),
}

/// A command of a game lookup with its texts as sequences of characters.
pub enum GameCommandText {
    Send(RequestText),
    Finish(Result<(Seq<char>, Seq<char>), Failure>),
}

impl View for GameCommand {
    type V = GameCommandText;

    open spec fn view(&self) -> GameCommandText {
        match *self {
            GameCommand::Send(request) => GameCommandText::Send(request@),
            GameCommand::Finish(Ok((name, universe))) => GameCommandText::Finish(
                Ok((name@, universe@)),
            ),
            GameCommand::Finish(Err(error)) => GameCommandText::Finish(Err(error@)),
        }
    }
}

/// The lookup of a game by its place: its name and its universe.
#[derive(Clone, Debug, PartialEq, Eq)]
pub struct GameLookup {
    pub place_id: String,
    pub phase: GamePhase,
}

/// The request for the universe of a place.
pub open spec fn universe_request(place: Seq<char>) -> RequestText {
    plain_get("https://apis.roblox.com/universes/v1/places/"@ + place + "/universe"@)
}

/// The request for the game of a universe.
pub open spec fn games_request(universe: u64) -> RequestText {
    plain_get("https://games.roblox.com/v1/games?universeIds="@ + decimal(universe as nat))
}

/// The request for the details of a place.
pub open spec fn places_request(place: Seq<char>) -> RequestText {
    plain_get("https://games.roblox.com/v1/games/multiget-place-details?placeIds="@ + place)
}

/// The name under a pointer, or the name of a game without one.
pub open spec fn game_name_at(document: Seq<char>, pointer: Seq<char>) -> Seq<char> {
    match json_text(document, pointer) {
        Some(name) => name,
        None => "Unknown Game"@,
    }
}

/// Whether a document holds an array that is not empty where a pointer
/// points.
pub open spec fn lists_something(document: Seq<char>, pointer: Seq<char>) -> bool {
    match json_len(document, pointer) {
        Some(n) => n > 0,
        None => false,
    }
}

/// What the details of a place say of its game.
pub open spec fn place_details(response: HttpResponse) -> Result<(Seq<char>, Seq<char>), Failure> {
    if !status_is_success(response.status) {
        Err(Failure::TransportFailure("Game not found"@))
    } else if !json_parses(response.body@) {
        Err(unreadable())
    } else if lists_something(response.body@, Seq::empty()) {
        Ok(
            (
                game_name_at(response.body@, "/0/name"@),
                match json_number(response.body@, "/0/universeId"@) {
                    Some(universe) => decimal(universe as nat),
                    None => Seq::empty(),
                },
            ),
        )
    } else {
        Err(Failure::TransportFailure("Game not found"@))
    }
}

/// One step of a game lookup: the universe of the place is asked for first,
/// then the game of that universe; where either gives nothing, the details of
/// the place are asked for instead.
pub open spec fn game_step(place: Seq<char>, phase: GamePhase, event: BrokerEvent) -> (
    GamePhase,
    GameCommandText,
) {
    match (phase, event) {
        (GamePhase::Ready, BrokerEvent::Start) => (
            GamePhase::Universe,
            GameCommandText::Send(universe_request(place)),
        ),
        (GamePhase::Universe, BrokerEvent::Response(response)) => if !status_is_success(
            response.status,
        ) {
            (GamePhase::Places, GameCommandText::Send(places_request(place)))
        } else if !json_parses(response.body@) {
            (
                GamePhase::Finished,
                GameCommandText::Finish(
                    Err(Failure::TransportFailure("Failed to parse universe response"@)),
                ),
            )
        } else {
            match json_number(response.body@, "/universeId"@) {
                Some(universe) => (
                    GamePhase::Games(universe),
                    GameCommandText::Send(games_request(universe)),
                ),
                None => (GamePhase::Places, GameCommandText::Send(places_request(place))),
            }
        },
        (GamePhase::Games(universe), BrokerEvent::Response(response)) => if !status_is_success(
            response.status,
        ) {
            (GamePhase::Places, GameCommandText::Send(places_request(place)))
        } else if !json_parses(response.body@) {
            (
                GamePhase::Finished,
                GameCommandText::Finish(
                    Err(Failure::TransportFailure("Failed to parse game response"@)),
                ),
            )
        } else if lists_something(response.body@, "/data"@) {
            (
                GamePhase::Finished,
                GameCommandText::Finish(
                    Ok((game_name_at(response.body@, "/data/0/name"@), decimal(universe as nat))),
                ),
            )
        } else {
            (GamePhase::Places, GameCommandText::Send(places_request(place)))
        },
        (GamePhase::Places, BrokerEvent::Response(response)) => (
            GamePhase::Finished,
            GameCommandText::Finish(place_details(response)),
        ),
        (GamePhase::Universe, BrokerEvent::TransportError(detail)) => (
            GamePhase::Finished,
            GameCommandText::Finish(Err(transport_failure(detail@))),
        ),
        (GamePhase::Games(_), BrokerEvent::TransportError(detail)) => (
            GamePhase::Finished,
            GameCommandText::Finish(Err(transport_failure(detail@))),
        ),
        (GamePhase::Places, BrokerEvent::TransportError(detail)) => (
            GamePhase::Finished,
            GameCommandText::Finish(Err(transport_failure(detail@))),
        ),
        _ => (GamePhase::Finished, GameCommandText::Finish(Err(out_of_turn()))),
    }
}

/// The name under a pointer, or the name of a game without one.
fn read_game_name(document: &str, pointer: &str) -> (name: String)
    ensures
        name@ == game_name_at(document@, pointer@),
{
    match json_get_str(document, pointer) {
        Some(name) => name,
        None => String::from_str("Unknown Game"),
    }
}

/// Whether a document holds an array that is not empty where a pointer
/// points.
fn has_items(document: &str, pointer: &str) -> (any: bool)
    ensures
        any == lists_something(document@, pointer@),
{
    match json_get_len(document, pointer) {
        Some(n) => n > 0,
        None => false,
    }
}

impl GameLookup {
    /// The request for the details of the place.
    fn ask_places(&self) -> (request: HttpRequest)
        ensures
            request@ == places_request(self.place_id@),
    {
        let mut url = String::from_str(
            "https://games.roblox.com/v1/games/multiget-place-details?placeIds=",
        );
        url.append(self.place_id.as_str());
        get_request(url)
    }

    /// Reads the details of the place.
    fn read_places(response: &HttpResponse) -> (game: Result<(String, String), NexusError>)
        ensures
            match game {
                Ok((name, universe)) => place_details(*response) == Ok::<
                    (Seq<char>, Seq<char>),
                    Failure,
                >((name@, universe@)),
                Err(error) => place_details(*response) == Err::<(Seq<char>, Seq<char>), Failure>(
                    error@,
                ),
            },
    {
        if !response.is_success() {
            return Err(NexusError::TransportFailure(String::from_str("Game not found")));
        }
        let document = response.body.as_str();
        if !json_is_document(document) {
            return Err(unreadable_answer());
        }
        proof {
            reveal_strlit("");
            assert(""@ =~= Seq::<char>::empty());
        }
        if has_items(document, "") {
            let name = read_game_name(document, "/0/name");
            let universe = match json_get_u64(document, "/0/universeId") {
                Some(universe) => {
                    let mut text = String::new();
                    push_decimal(&mut text, universe);
                    assert(text@ =~= decimal(universe as nat));
                    text
                },
                None => String::new(),
            };
            Ok((name, universe))
        } else {
            Err(NexusError::TransportFailure(String::from_str("Game not found")))
        }
    }

    /// Whether the lookup is over.
    pub fn is_finished(&self) -> (done: bool)
        ensures
            done == (self.phase == GamePhase::Finished),
    {
        self.phase == GamePhase::Finished
    }

    /// Takes one event and says what to do next: phase and command are those
    /// of `game_step`, and the place never changes.
    pub fn step(&mut self, event: BrokerEvent) -> (command: GameCommand)
        ensures
            final(self).place_id == old(self).place_id,
            (final(self).phase, command@) == game_step(
                old(self).place_id@,
                old(self).phase,
                event,
            ),
    {
        let phase = self.phase;
        match (phase, event) {
            (GamePhase::Ready, BrokerEvent::Start) => {
                self.phase = GamePhase::Universe;
                GameCommand::Send(RobloxApi::get_universe_id(self.place_id.as_str()))
            },
            (GamePhase::Universe, BrokerEvent::Response(response)) => {
                if !response.is_success() {
                    self.phase = GamePhase::Places;
                    return GameCommand::Send(self.ask_places());
                }
                if !json_is_document(response.body.as_str()) {
                    self.phase = GamePhase::Finished;
                    return GameCommand::Finish(
                        Err(
                            NexusError::TransportFailure(
                                String::from_str("Failed to parse universe response"),
                            ),
                        ),
                    );
                }
                match json_get_u64(response.body.as_str(), "/universeId") {
                    Some(universe) => {
                        self.phase = GamePhase::Games(universe);
                        let mut url = String::from_str(
                            "https://games.roblox.com/v1/games?universeIds=",
                        );
                        push_decimal(&mut url, universe);
                        GameCommand::Send(get_request(url))
                    },
                    None => {
                        self.phase = GamePhase::Places;
                        GameCommand::Send(self.ask_places())
                    },
                }
            },
            (GamePhase::Games(universe), BrokerEvent::Response(response)) => {
                if !response.is_success() {
                    self.phase = GamePhase::Places;
                    return GameCommand::Send(self.ask_places());
                }
                if !json_is_document(response.body.as_str()) {
                    self.phase = GamePhase::Finished;
                    return GameCommand::Finish(
                        Err(
                            NexusError::TransportFailure(
                                String::from_str("Failed to parse game response"),
                            ),
                        ),
                    );
                }
                if has_items(response.body.as_str(), "/data") {
                    self.phase = GamePhase::Finished;
                    let name = read_game_name(response.body.as_str(), "/data/0/name");
                    let mut text = String::new();
                    push_decimal(&mut text, universe);
                    assert(text@ =~= decimal(universe as nat));
                    GameCommand::Finish(Ok((name, text)))
                } else {
                    self.phase = GamePhase::Places;
                    GameCommand::Send(self.ask_places())
                }
            },
            (GamePhase::Places, BrokerEvent::Response(response)) => {
                self.phase = GamePhase::Finished;
                GameCommand::Finish(Self::read_places(&response))
            },
            (GamePhase::Universe, BrokerEvent::TransportError(detail)) => {
                self.phase = GamePhase::Finished;
                GameCommand::Finish(Err(transport_error(detail.as_str())))
            },
            (GamePhase::Games(_), BrokerEvent::TransportError(detail)) => {
                self.phase = GamePhase::Finished;
                GameCommand::Finish(Err(transport_error(detail.as_str())))
            },
            (GamePhase::Places, BrokerEvent::TransportError(detail)) => {
                self.phase = GamePhase::Finished;
                GameCommand::Finish(Err(transport_error(detail.as_str())))
            },
            _ => {
                self.phase = GamePhase::Finished;
                GameCommand::Finish(
                    Err(
                        NexusError::TransportFailure(
                            String::from_str("Unexpected event for this step of the handshake"),
                        ),
                    ),
                )
            },
        }
    }
}

impl RobloxApi {
    /// The lookup of a game by its place, before its first step.
    pub fn get_game_info(place_id: &str) -> (lookup: GameLookup)
        ensures
            lookup.place_id@ == place_id@,
            lookup.phase == GamePhase::Ready,
    {
        GameLookup { place_id: String::from_str(place_id), phase: GamePhase::Ready }
    }

    /// The three requests for what an account owns: its robux, the number of
    /// its friends, and its membership.
    pub fn get_account_info(cookie: &str, user_id: u64) -> (requests: (
        HttpRequest,
        HttpRequest,
        HttpRequest,
    ))
        ensures
            requests.0@ == signed_get("https://economy.roblox.com/v1/user/currency"@, cookie@),
            requests.1@ == signed_get(
                "https://friends.roblox.com/v1/users/"@ + decimal(user_id as nat)
                    + "/friends/count"@,
                cookie@,
            ),
            requests.2@ == signed_get(
                "https://premiumfeatures.roblox.com/v1/users/"@ + decimal(user_id as nat)
                    + "/validate-membership"@,
                cookie@,
            ),
    {
        let currency = String::from_str("https://economy.roblox.com/v1/user/currency");
        let mut friends = String::from_str("https://friends.roblox.com/v1/users/");
        push_decimal(&mut friends, user_id);
        friends.append("/friends/count");
        let mut premium = String::from_str("https://premiumfeatures.roblox.com/v1/users/");
        push_decimal(&mut premium, user_id);
        premium.append("/validate-membership");
        (
            get_request_as(currency, cookie),
            get_request_as(friends, cookie),
            get_request_as(premium, cookie),
        )
    }

    /// Reads the answers to the three requests of `get_account_info`. A
    /// request that got no answer, or an answer without the field, leaves
    /// nothing: no robux, no friends, no membership.
    pub fn read_account_info(
        currency: &Option<HttpResponse>,
        friends: &Option<HttpResponse>,
        premium: &Option<HttpResponse>,
    ) -> (info: AccountInfo)
        ensures
            info.robux == robux_of(*currency),
            info.friends_count == friends_of(*friends),
            info.is_premium == premium_of(*premium),
    {
        let robux = match currency {
            Some(response) => match json_get_i64(response.body.as_str(), "/robux") {
                Some(robux) => robux,
                None => 0,
            },
            None => 0,
        };
        let friends_count = match friends {
            Some(response) => match json_get_u64(response.body.as_str(), "/count") {
                Some(count) => (count % 0x1_0000_0000) as u32,
                None => 0,
            },
            None => 0,
        };
        let is_premium = match premium {
            Some(response) => response.is_success(),
            None => false,
        };
        AccountInfo { robux, friends_count, is_premium }
    }

    /// The request for the presence of some users; none where no user is
    /// named.
    pub fn get_presence(user_ids: &[u64]) -> (request: Option<HttpRequest>)
        ensures
            match request {
                Some(r) => user_ids@.len() > 0 && r@ == json_post(
                    "https://presence.roblox.com/v1/presence/users"@,
                    presence_query(user_ids@),
                ),
                None => user_ids@.len() == 0,
            },
    {
        if user_ids.len() == 0 {
            return None;
        }
        let mut body = String::from_str("{\"userIds\":[");
        push_joined(&mut body, user_ids);
        body.append("]}");
        Some(post_request("https://presence.roblox.com/v1/presence/users", body))
    }

    /// Reads the answer to a request for presences: the presence of each
    /// user listed.
    pub fn read_presence(response: &HttpResponse) -> (presences: Result<
        HashMap<u64, UserPresence>,
        NexusError,
    >)
        ensures
            match presences {
                Ok(listed) => presences_of(*response) == Ok::<Map<u64, PresenceText>, Failure>(
                    presences_text(listed@),
                ),
                Err(error) => presences_of(*response) == Err::<Map<u64, PresenceText>, Failure>(
                    error@,
                ),
            },
    {
        if !response.is_success() {
            return Err(reject(response));
        }
        let document = response.body.as_str();
        if !json_is_document(document) {
            return Err(unreadable_answer());
        }
        let count = match json_get_len(document, "/userPresences") {
            Some(n) => n,
            None => 0,
        };
        let mut listed: HashMap<u64, UserPresence> = HashMap::new();
        let mut i: usize = 0;
        assert(presences_text(listed@) =~= presences_upto(document@, 0));
        while i < count
            invariant
                i <= count,
                count == presence_count(document@),
                presences_text(listed@) == presences_upto(document@, i as nat),
            decreases count - i,
        {
            let ghost before = listed@;
            let (user_id, presence) = read_presence_at(document, i);
            listed.insert(user_id, presence);
            assert(presences_text(listed@) =~= presences_text(before).insert(user_id, presence@));
            i += 1;
        }
        Ok(listed)
    }

    /// The request for a user by name.
    pub fn get_user_id_by_username(username: &str) -> (request: HttpRequest)
        ensures
            request@ == json_post(
                "https://users.roblox.com/v1/usernames/users"@,
                username_query(username@),
            ),
    {
        let mut body = String::from_str("{\"excludeBannedUsers\":false,\"usernames\":[");
        let quoted = json_quote(username);
        body.append(quoted.as_str());
        body.append("]}");
        post_request("https://users.roblox.com/v1/usernames/users", body)
    }

    /// Reads the answer to a request for a user by name.
    pub fn read_user_id(response: &HttpResponse) -> (id: Result<u64, NexusError>)
        ensures
            match id {
                Ok(n) => user_id_of(*response) == Ok::<u64, Failure>(n),
                Err(error) => user_id_of(*response) == Err::<u64, Failure>(error@),
            },
    {
        if !response.is_success() {
            return Err(reject(response));
        }
        let document = response.body.as_str();
        if !json_is_document(document) {
            return Err(unreadable_answer());
        }
        if json_get_len(document, "/data").is_none() {
            return Err(NexusError::TransportFailure(String::from_str("User not found")));
        }
        match json_get_u64(document, "/data/0/id") {
            Some(id) => Ok(id),
            None => Err(NexusError::TransportFailure(String::from_str("User not found"))),
        }
    }

    /// The request for the presence of the user that a request by name
    /// found.
    pub fn get_user_presence_by_username(user_id: u64) -> (request: HttpRequest)
        ensures
            request@ == json_post(
                "https://presence.roblox.com/v1/presence/users"@,
                presence_query(seq![user_id]),
            ),
    {
        let mut body = String::from_str("{\"userIds\":[");
        push_decimal(&mut body, user_id);
        body.append("]}");
        proof {
            reveal_with_fuel(joined, 2);
            assert(joined(seq![user_id]) =~= decimal(user_id as nat));
        }
        post_request("https://presence.roblox.com/v1/presence/users", body)
    }

    /// Reads the answer to the request of `get_user_presence_by_username`:
    /// the first presence listed, for the user asked for.
    pub fn read_user_presence(user_id: u64, response: &HttpResponse) -> (presence: Result<
        (u64, UserPresence),
        NexusError,
    >)
        ensures
            match presence {
                Ok((id, found)) => {
                    &&& id == user_id
                    &&& status_is_success(response.status)
                    &&& json_parses(response.body@)
                    &&& presence_count(response.body@) > 0
                    &&& found@ == presence_at(response.body@, 0).1
                },
                Err(error) => if !status_is_success(response.status) {
                    error@ == rejected(*response)
                } else if !json_parses(response.body@) {
                    error@ == unreadable()
                } else {
                    presence_count(response.body@) == 0 && error@ == Failure::TransportFailure(
                        "Failed to get user presence"@,
                    )
                },
            },
    {
        if !response.is_success() {
            return Err(reject(response));
        }
        let document = response.body.as_str();
        if !json_is_document(document) {
            return Err(unreadable_answer());
        }
        let count = match json_get_len(document, "/userPresences") {
            Some(n) => n,
            None => 0,
        };
        if count == 0 {
            return Err(
                NexusError::TransportFailure(String::from_str("Failed to get user presence")),
            );
        }
        let entry = read_presence_at(document, 0);
        Ok((user_id, entry.1))
    }

    /// The request for the avatar pictures of some users; none where no user
    /// is named.
    pub fn get_avatar_thumbnails(user_ids: &[u64]) -> (request: Option<HttpRequest>)
        ensures
            match request {
                Some(r) => user_ids@.len() > 0 && r@ == plain_get(
                    "https://thumbnails.roblox.com/v1/users/avatar-headshot?userIds="@ + joined(
                        user_ids@,
                    ) + "&size=48x48&format=Png&isCircular=false"@,
                ),
                None => user_ids@.len() == 0,
            },
    {
        if user_ids.len() == 0 {
            return None;
        }
        let mut url = String::from_str(
            "https://thumbnails.roblox.com/v1/users/avatar-headshot?userIds=",
        );
        push_joined(&mut url, user_ids);
        url.append("&size=48x48&format=Png&isCircular=false");
        Some(get_request(url))
    }

    /// The request for the icons of some games; none where no game is named.
    pub fn get_game_icons(universe_ids: &[u64]) -> (request: Option<HttpRequest>)
        ensures
            match request {
                Some(r) => universe_ids@.len() > 0 && r@ == plain_get(
                    "https://thumbnails.roblox.com/v1/games/icons?universeIds="@ + joined(
                        universe_ids@,
                    ) + "&returnPolicy=PlaceHolder&size=150x150&format=Png&isCircular=false"@,
                ),
                None => universe_ids@.len() == 0,
            },
    {
        if universe_ids.len() == 0 {
            return None;
        }
        let mut url = String::from_str("https://thumbnails.roblox.com/v1/games/icons?universeIds=");
        push_joined(&mut url, universe_ids);
        url.append("&returnPolicy=PlaceHolder&size=150x150&format=Png&isCircular=false");
        Some(get_request(url))
    }

    /// The request for the collectibles of a user.
    pub fn get_inventory_info(user_id: u64) -> (request: HttpRequest)
        ensures
            request@ == plain_get(
                "https://inventory.roblox.com/v1/users/"@ + decimal(user_id as nat)
                    + "/assets/collectibles?limit=10"@,
            ),
    {
        let mut url = String::from_str("https://inventory.roblox.com/v1/users/");
        push_decimal(&mut url, user_id);
        url.append("/assets/collectibles?limit=10");
        get_request(url)
    }

    /// Reads the answer to a request for collectibles: how many are listed.
    pub fn read_inventory_info(response: &HttpResponse) -> (count: Result<u32, NexusError>)
        ensures
            match count {
                Ok(n) => inventory_of(*response) == Ok::<u32, Failure>(n),
                Err(error) => inventory_of(*response) == Err::<u32, Failure>(error@),
            },
    {
        if !response.is_success() {
            return Err(reject(response));
        }
        let document = response.body.as_str();
        if !json_is_document(document) {
            return Err(unreadable_answer());
        }
        match json_get_len(document, "/data") {
            Some(n) => Ok(((n as u64) % 0x1_0000_0000) as u32),
            None => Ok(0),
        }
    }

    /// The request for the universe of a place.
    pub fn get_universe_id(place_id: &str) -> (request: HttpRequest)
        ensures
            request@ == plain_get(
                "https://apis.roblox.com/universes/v1/places/"@ + place_id@ + "/universe"@,
            ),
    {
        let mut url = String::from_str("https://apis.roblox.com/universes/v1/places/");
        url.append(place_id);
        url.append("/universe");
        get_request(url)
    }

    /// Reads the answer to a request for the universe of a place.
    pub fn read_universe_id(response: &HttpResponse) -> (id: Result<u64, NexusError>)
        ensures
            match id {
                Ok(n) => universe_of(*response) == Ok::<u64, Failure>(n),
                Err(error) => universe_of(*response) == Err::<u64, Failure>(error@),
            },
    {
        if !response.is_success() {
            return Err(reject(response));
        }
        let document = response.body.as_str();
        if !json_is_document(document) {
            return Err(unreadable_answer());
        }
        match json_get_u64(document, "/universeId") {
            Some(id) => Ok(id),
            None => Err(NexusError::TransportFailure(String::from_str("Universe ID not found"))),
        }
    }
}

} // verus!
