use nexus_core::account::{UserPresence, UserPresenceType};
use nexus_core::api::lookups::{read_thumbnails, GameCommand, GamePhase};
use nexus_core::api::{BrokerEvent, HttpRequest, HttpResponse, Method, RobloxApi};
use nexus_core::error::NexusError;
use std::collections::HashMap;

fn response(status: u16, body: &str) -> HttpResponse {
    HttpResponse { status, headers: Vec::new(), cookies: Vec::new(), body: body.to_string() }
}

fn get(url: &str) -> HttpRequest {
    HttpRequest {
        method: Method::Get,
        url: url.to_string(),
        cookie: None,
        csrf_token: None,
        content_type: None,
        referer: None,
        user_agent: None,
        accept: None,
        body: None,
    }
}

fn post(url: &str, body: &str) -> HttpRequest {
    HttpRequest {
        method: Method::Post,
        content_type: Some("application/json".to_string()),
        body: Some(body.to_string()),
        ..get(url)
    }
}

fn unreadable() -> NexusError {
    NexusError::TransportFailure("Failed to parse response".to_string())
}

#[test]
fn the_user_name_is_asked_for_and_read() {
    assert_eq!(RobloxApi::get_username_by_id(261), get("https://users.roblox.com/v1/users/261"));
    assert_eq!(
        RobloxApi::read_username(&response(200, "{\"name\":\"builder\",\"id\":261}")),
        Ok("builder".to_string())
    );
    assert_eq!(
        RobloxApi::read_username(&response(200, "{\"id\":261}")),
        Err(NexusError::TransportFailure("Username not found".to_string()))
    );
    assert_eq!(RobloxApi::read_username(&response(200, "{")), Err(unreadable()));
    assert_eq!(
        RobloxApi::read_username(&response(404, "gone")),
        Err(NexusError::ActionRejected { status: 404, body: "gone".to_string() })
    );
}

#[test]
fn account_info_is_asked_for_in_three_requests() {
    let (currency, friends, premium) = RobloxApi::get_account_info(" c ", 77);
    let signed = |url: &str| HttpRequest { cookie: Some(".ROBLOSECURITY=c".to_string()), ..get(url) };
    assert_eq!(currency, signed("https://economy.roblox.com/v1/user/currency"));
    assert_eq!(friends, signed("https://friends.roblox.com/v1/users/77/friends/count"));
    assert_eq!(
        premium,
        signed("https://premiumfeatures.roblox.com/v1/users/77/validate-membership")
    );
}

#[test]
fn account_info_takes_what_the_answers_give() {
    let info = RobloxApi::read_account_info(
        &Some(response(200, "{\"robux\":-5}")),
        &Some(response(200, "{\"count\":12}")),
        &Some(response(200, "")),
    );
    assert_eq!((info.robux, info.friends_count, info.is_premium), (-5, 12, true));

    // an answer is read whatever its status; membership is the status alone
    let odd = RobloxApi::read_account_info(
        &Some(response(500, "{\"robux\":9000000000}")),
        &Some(response(403, "{\"count\":4294967298}")),
        &Some(response(404, "{}")),
    );
    assert_eq!((odd.robux, odd.friends_count, odd.is_premium), (9000000000, 2, false));

    let nothing = RobloxApi::read_account_info(&None, &Some(response(200, "nope")), &None);
    assert_eq!((nothing.robux, nothing.friends_count, nothing.is_premium), (0, 0, false));
}

#[test]
fn presence_is_asked_for_all_users_at_once() {
    assert_eq!(RobloxApi::get_presence(&[]), None);
    assert_eq!(
        RobloxApi::get_presence(&[5]),
        Some(post("https://presence.roblox.com/v1/presence/users", "{\"userIds\":[5]}"))
    );
    assert_eq!(
        RobloxApi::get_presence(&[5, 0, 18446744073709551615]),
        Some(post(
            "https://presence.roblox.com/v1/presence/users",
            "{\"userIds\":[5,0,18446744073709551615]}"
        ))
    );
    assert_eq!(
        RobloxApi::get_user_presence_by_username(9),
        post("https://presence.roblox.com/v1/presence/users", "{\"userIds\":[9]}")
    );
}

#[test]
fn presences_are_read_in_the_order_of_the_list() {
    let body = "{\"userPresences\":[\
        {\"userId\":1,\"userPresenceType\":2,\"lastLocation\":\"Arsenal\",\"placeId\":286090429,\
         \"gameId\":\"job-1\",\"lastOnline\":\"2024-01-01\"},\
        {\"userPresenceType\":259},\
        {\"userId\":3,\"userPresenceType\":7,\"placeId\":null}]}";
    let listed = RobloxApi::read_presence(&response(200, body)).unwrap();
    let absent = |presence_type| UserPresence {
        presence_type,
        last_location: None,
        place_id: None,
        game_id: None,
        last_online: None,
        game_name: None,
    };
    let expected: HashMap<u64, UserPresence> = [
        (
            1,
            UserPresence {
                presence_type: UserPresenceType::InGame,
                last_location: Some("Arsenal".to_string()),
                place_id: Some(286090429),
                game_id: Some("job-1".to_string()),
                last_online: Some("2024-01-01".to_string()),
                game_name: None,
            },
        ),
        // a presence without user counts for user zero; its code is cut to a byte: 259 is 3
        (0, absent(UserPresenceType::InStudio)),
        (3, absent(UserPresenceType::Offline)),
    ]
    .into_iter()
    .collect();
    assert_eq!(listed, expected);
    // of two presences of one user the later one stands
    let twice = "{\"userPresences\":[{\"userId\":4,\"userPresenceType\":1},{\"userId\":4,\"userPresenceType\":2}]}";
    let later: HashMap<u64, UserPresence> =
        [(4, absent(UserPresenceType::InGame))].into_iter().collect();
    assert_eq!(RobloxApi::read_presence(&response(200, twice)), Ok(later));
    assert_eq!(RobloxApi::read_presence(&response(200, "{}")), Ok(HashMap::new()));
    assert_eq!(
        RobloxApi::read_presence(&response(200, "{\"userPresences\":{\"0\":{}}}")),
        Ok(HashMap::new())
    );
    assert_eq!(RobloxApi::read_presence(&response(200, "x")), Err(unreadable()));
    assert_eq!(
        RobloxApi::read_presence(&response(429, "x")),
        Err(NexusError::ActionRejected { status: 429, body: "x".to_string() })
    );
}

#[test]
fn the_presence_of_one_user_is_the_first_listed() {
    let body = "{\"userPresences\":[{\"userId\":4,\"userPresenceType\":1},{\"userId\":5}]}";
    let (id, presence) = RobloxApi::read_user_presence(9, &response(200, body)).unwrap();
    assert_eq!(id, 9);
    assert_eq!(presence.presence_type, UserPresenceType::Online);
    assert_eq!(
        RobloxApi::read_user_presence(9, &response(200, "{\"userPresences\":[]}")),
        Err(NexusError::TransportFailure("Failed to get user presence".to_string()))
    );
    assert_eq!(
        RobloxApi::read_user_presence(9, &response(200, "{}")),
        Err(NexusError::TransportFailure("Failed to get user presence".to_string()))
    );
    assert_eq!(RobloxApi::read_user_presence(9, &response(200, "")), Err(unreadable()));
    assert_eq!(
        RobloxApi::read_user_presence(9, &response(500, "")),
        Err(NexusError::ActionRejected { status: 500, body: String::new() })
    );
}

#[test]
fn a_user_is_asked_for_by_name() {
    assert_eq!(
        RobloxApi::get_user_id_by_username("some \"name\""),
        post(
            "https://users.roblox.com/v1/usernames/users",
            "{\"excludeBannedUsers\":false,\"usernames\":[\"some \\\"name\\\"\"]}"
        )
    );
    assert_eq!(
        RobloxApi::read_user_id(&response(200, "{\"data\":[{\"id\":11},{\"id\":12}]}")),
        Ok(11)
    );
    let not_found = Err(NexusError::TransportFailure("User not found".to_string()));
    for body in ["{\"data\":[]}", "{}", "{\"data\":{\"0\":{\"id\":1}}}", "{\"data\":[{\"id\":\"1\"}]}"] {
        assert_eq!(RobloxApi::read_user_id(&response(200, body)), not_found);
    }
    assert_eq!(RobloxApi::read_user_id(&response(200, "[")), Err(unreadable()));
    assert_eq!(
        RobloxApi::read_user_id(&response(400, "bad")),
        Err(NexusError::ActionRejected { status: 400, body: "bad".to_string() })
    );
}

#[test]
fn pictures_are_asked_for_by_their_targets() {
    assert_eq!(RobloxApi::get_avatar_thumbnails(&[]), None);
    assert_eq!(RobloxApi::get_game_icons(&[]), None);
    assert_eq!(
        RobloxApi::get_avatar_thumbnails(&[1, 22, 333]),
        Some(get(
            "https://thumbnails.roblox.com/v1/users/avatar-headshot?userIds=1,22,333&size=48x48&format=Png&isCircular=false"
        ))
    );
    assert_eq!(
        RobloxApi::get_game_icons(&[7]),
        Some(get(
            "https://thumbnails.roblox.com/v1/games/icons?universeIds=7&returnPolicy=PlaceHolder&size=150x150&format=Png&isCircular=false"
        ))
    );
}

#[test]
fn only_complete_pictures_count() {
    let body = "{\"data\":[\
        {\"targetId\":1,\"state\":\"Completed\",\"imageUrl\":\"https://img/1\"},\
        {\"targetId\":2,\"state\":\"Pending\",\"imageUrl\":\"https://img/2\"},\
        {\"targetId\":3,\"state\":\"Completed\"},\
        {\"state\":\"Completed\",\"imageUrl\":\"https://img/4\"},\
        {\"targetId\":5,\"imageUrl\":\"https://img/5\"},\
        {\"targetId\":6,\"state\":\"Completed\",\"imageUrl\":\"https://img/6\"},\
        {\"targetId\":1,\"state\":\"Completed\",\"imageUrl\":\"https://img/1b\"}]}";
    // of two complete pictures of one target the later one stands
    let expected: HashMap<u64, String> =
        [(1, "https://img/1b".to_string()), (6, "https://img/6".to_string())].into_iter().collect();
    assert_eq!(read_thumbnails(&response(200, body)), Ok(expected));
    assert_eq!(read_thumbnails(&response(200, "{}")), Ok(HashMap::new()));
    assert_eq!(read_thumbnails(&response(200, "")), Err(unreadable()));
    assert_eq!(
        read_thumbnails(&response(503, "down")),
        Err(NexusError::ActionRejected { status: 503, body: "down".to_string() })
    );
}

#[test]
fn collectibles_are_counted() {
    assert_eq!(
        RobloxApi::get_inventory_info(8),
        get("https://inventory.roblox.com/v1/users/8/assets/collectibles?limit=10")
    );
    assert_eq!(RobloxApi::read_inventory_info(&response(200, "{\"data\":[{},{},{}]}")), Ok(3));
    assert_eq!(RobloxApi::read_inventory_info(&response(200, "{\"data\":[]}")), Ok(0));
    assert_eq!(RobloxApi::read_inventory_info(&response(200, "{\"data\":5}")), Ok(0));
    assert_eq!(RobloxApi::read_inventory_info(&response(200, "")), Err(unreadable()));
    assert_eq!(
        RobloxApi::read_inventory_info(&response(403, "")),
        Err(NexusError::ActionRejected { status: 403, body: String::new() })
    );
}

#[test]
fn the_universe_of_a_place() {
    assert_eq!(
        RobloxApi::get_universe_id("1818"),
        get("https://apis.roblox.com/universes/v1/places/1818/universe")
    );
    assert_eq!(RobloxApi::read_universe_id(&response(200, "{\"universeId\":127167484}")), Ok(127167484));
    assert_eq!(
        RobloxApi::read_universe_id(&response(200, "{\"universeId\":null}")),
        Err(NexusError::TransportFailure("Universe ID not found".to_string()))
    );
    assert_eq!(RobloxApi::read_universe_id(&response(200, "?")), Err(unreadable()));
    assert_eq!(
        RobloxApi::read_universe_id(&response(404, "")),
        Err(NexusError::ActionRejected { status: 404, body: String::new() })
    );
}

#[test]
fn a_game_is_found_through_its_universe() {
    let mut lookup = RobloxApi::get_game_info("4924922222");
    assert_eq!(lookup.phase, GamePhase::Ready);
    assert_eq!(
        lookup.step(BrokerEvent::Start),
        GameCommand::Send(get("https://apis.roblox.com/universes/v1/places/4924922222/universe"))
    );
    assert_eq!(
        lookup.step(BrokerEvent::Response(response(200, "{\"universeId\":1685831367}"))),
        GameCommand::Send(get("https://games.roblox.com/v1/games?universeIds=1685831367"))
    );
    assert_eq!(lookup.phase, GamePhase::Games(1685831367));
    assert_eq!(
        lookup.step(BrokerEvent::Response(response(200, "{\"data\":[{\"name\":\"Brookhaven\"}]}"))),
        GameCommand::Finish(Ok(("Brookhaven".to_string(), "1685831367".to_string())))
    );
    assert!(lookup.is_finished());
    assert_eq!(lookup.place_id, "4924922222");
}

#[test]
fn a_game_without_universe_is_found_through_its_place() {
    let places = GameCommand::Send(get(
        "https://games.roblox.com/v1/games/multiget-place-details?placeIds=95206881",
    ));
    // no universe at all
    let mut first = RobloxApi::get_game_info("95206881");
    first.step(BrokerEvent::Start);
    assert_eq!(first.step(BrokerEvent::Response(response(404, ""))), places);
    assert_eq!(first.phase, GamePhase::Places);
    assert_eq!(
        first.step(BrokerEvent::Response(response(
            200,
            "[{\"name\":\"Classic Baseplate\",\"universeId\":33},{\"name\":\"other\"}]"
        ))),
        GameCommand::Finish(Ok(("Classic Baseplate".to_string(), "33".to_string())))
    );

    // a universe without a field, then a universe without a game
    let mut second = RobloxApi::get_game_info("95206881");
    second.step(BrokerEvent::Start);
    assert_eq!(second.step(BrokerEvent::Response(response(200, "{}"))), places);
    let mut third = RobloxApi::get_game_info("95206881");
    third.step(BrokerEvent::Start);
    third.step(BrokerEvent::Response(response(200, "{\"universeId\":5}")));
    assert_eq!(third.step(BrokerEvent::Response(response(200, "{\"data\":[]}"))), places);
    assert_eq!(
        third.step(BrokerEvent::Response(response(200, "[{}]"))),
        GameCommand::Finish(Ok(("Unknown Game".to_string(), String::new())))
    );
    let mut fourth = RobloxApi::get_game_info("95206881");
    fourth.step(BrokerEvent::Start);
    fourth.step(BrokerEvent::Response(response(200, "{\"universeId\":5}")));
    assert_eq!(fourth.step(BrokerEvent::Response(response(500, ""))), places);
    assert_eq!(
        fourth.step(BrokerEvent::Response(response(200, "[]"))),
        GameCommand::Finish(Err(NexusError::TransportFailure("Game not found".to_string())))
    );
}

#[test]
fn a_game_lookup_ends_on_what_it_cannot_read() {
    let mut universe = RobloxApi::get_game_info("1");
    universe.step(BrokerEvent::Start);
    assert_eq!(
        universe.step(BrokerEvent::Response(response(200, "<html>"))),
        GameCommand::Finish(Err(NexusError::TransportFailure(
            "Failed to parse universe response".to_string()
        )))
    );
    let mut games = RobloxApi::get_game_info("1");
    games.step(BrokerEvent::Start);
    games.step(BrokerEvent::Response(response(200, "{\"universeId\":5}")));
    assert_eq!(
        games.step(BrokerEvent::Response(response(200, "<html>"))),
        GameCommand::Finish(Err(NexusError::TransportFailure(
            "Failed to parse game response".to_string()
        )))
    );
    let mut places = RobloxApi::get_game_info("1");
    places.step(BrokerEvent::Start);
    places.step(BrokerEvent::Response(response(404, "")));
    assert_eq!(
        places.step(BrokerEvent::Response(response(200, "<html>"))),
        GameCommand::Finish(Err(unreadable()))
    );
    let mut missing = RobloxApi::get_game_info("1");
    missing.step(BrokerEvent::Start);
    missing.step(BrokerEvent::Response(response(404, "")));
    assert_eq!(
        missing.step(BrokerEvent::Response(response(404, "[{\"name\":\"x\"}]"))),
        GameCommand::Finish(Err(NexusError::TransportFailure("Game not found".to_string())))
    );
    let mut offline = RobloxApi::get_game_info("1");
    offline.step(BrokerEvent::Start);
    assert_eq!(
        offline.step(BrokerEvent::TransportError("dns".to_string())),
        GameCommand::Finish(Err(NexusError::TransportFailure("Request failed: dns".to_string())))
    );
    assert!(offline.is_finished());
    assert!(matches!(
        offline.step(BrokerEvent::Start),
        GameCommand::Finish(Err(NexusError::TransportFailure(_)))
    ));
}
