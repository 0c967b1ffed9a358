use nexus_core::api::launch::{normalise_place, SETTLE_MILLIS, TRACKER_BOUND};
use nexus_core::api::{
    BrokerEvent, BrokerState, HttpResponse, Launch, LaunchCommand, LaunchEvent, LaunchIntent,
    LaunchPhase, LaunchTarget, NamedValue, RobloxApi, TargetKind,
};
use nexus_core::error::NexusError;

const NOW: i64 = 1_700_000_000_123;

fn header(name: &str, value: &str) -> NamedValue {
    NamedValue { name: name.to_string(), value: Some(value.to_string()) }
}

fn response(status: u16, headers: Vec<NamedValue>) -> HttpResponse {
    HttpResponse { status, headers, cookies: Vec::new(), body: String::new() }
}

fn field<'a>(descriptor: &'a str, key: &str) -> &'a str {
    descriptor
        .split('+')
        .find_map(|part| part.strip_prefix(key))
        .unwrap_or_else(|| panic!("no field {} in {}", key, descriptor))
}

#[test]
fn a_place_alone_selects_matchmaking() {
    let intent = LaunchIntent::new("c", Some("4924922222"), None, None, None, false).unwrap();
    assert_eq!(intent.target, LaunchTarget::Matchmake);
    assert_eq!(intent.target.kind(), TargetKind::Matchmake);
    assert_eq!(intent.place_id, "4924922222");
}

#[test]
fn a_job_id_selects_a_rejoin() {
    let intent = LaunchIntent::new("c", Some("X"), Some("abc"), None, None, false).unwrap();
    assert_eq!(intent.target, LaunchTarget::RejoinServer { job_id: "abc".to_string() });
    assert_eq!(intent.target.kind(), TargetKind::RejoinServer);
}

#[test]
fn an_access_code_selects_a_private_join() {
    let intent = LaunchIntent::new("c", Some("X"), None, Some("code1"), None, true).unwrap();
    assert_eq!(
        intent.target,
        LaunchTarget::JoinPrivate { access_code: "code1".to_string(), link_code: None }
    );
    assert_eq!(intent.target.kind(), TargetKind::JoinPrivate);
    assert!(intent.multi_instance);
    let linked = LaunchIntent::new("c", Some("X"), None, Some("code1"), Some("link"), false).unwrap();
    assert_eq!(
        linked.target,
        LaunchTarget::JoinPrivate {
            access_code: "code1".to_string(),
            link_code: Some("link".to_string())
        }
    );
}

#[test]
fn selection_depends_on_which_fields_are_given_and_nothing_else() {
    for place in [None, Some(""), Some("1"), Some("zzz")] {
        for multi in [false, true] {
            for job in [None, Some(""), Some("j")] {
                for access in [None, Some(""), Some("a")] {
                    for link in [None, Some(""), Some("l")] {
                        let intent = LaunchIntent::new("c", place, job, access, link, multi);
                        let expected = match (job.is_some(), access.is_some(), link.is_some()) {
                            (true, true, _) => None,
                            (_, false, true) => None,
                            (true, false, false) => Some(TargetKind::RejoinServer),
                            (false, true, _) => Some(TargetKind::JoinPrivate),
                            (false, false, false) => Some(TargetKind::Matchmake),
                        };
                        assert_eq!(intent.map(|i| i.target.kind()), expected);
                    }
                }
            }
        }
    }
}

#[test]
fn the_place_of_a_public_launch_is_trimmed_or_the_default() {
    assert_eq!(normalise_place(None), "1818");
    assert_eq!(normalise_place(Some("")), "1818");
    assert_eq!(normalise_place(Some("  \t ")), "1818");
    assert_eq!(normalise_place(Some(" 42 ")), "42");
    let private = LaunchIntent::new("c", Some(" 42 "), None, Some("a"), None, false).unwrap();
    assert_eq!(private.place_id, " 42 ");
    let no_place = LaunchIntent::new("c", None, None, Some("a"), None, false).unwrap();
    assert_eq!(no_place.place_id, "");
}

#[test]
fn the_locator_of_each_kind() {
    let matchmake = LaunchIntent::new("c", Some("4924922222"), None, None, None, false).unwrap();
    assert_eq!(
        matchmake.locator_url(123),
        "https://assetgame.roblox.com/game/PlaceLauncher.ashx?request=RequestGame&browserTrackerId=123&placeId=4924922222&isPlayTogetherGame=false"
    );
    let rejoin = LaunchIntent::new("c", Some("7"), Some("job-1"), None, None, false).unwrap();
    assert_eq!(
        rejoin.locator_url(0),
        "https://assetgame.roblox.com/game/PlaceLauncher.ashx?request=RequestGameJob&browserTrackerId=0&placeId=7&gameId=job-1&isPlayTogetherGame=false&isTeleport=true"
    );
    let private = LaunchIntent::new("c", Some("7"), None, Some("acc"), None, false).unwrap();
    assert_eq!(
        private.locator_url(5),
        "https://assetgame.roblox.com/game/PlaceLauncher.ashx?request=RequestPrivateGame&placeId=7&accessCode=acc"
    );
    let linked = LaunchIntent::new("c", Some("7"), None, Some("acc"), Some("lnk"), false).unwrap();
    assert_eq!(
        linked.locator_url(5),
        "https://assetgame.roblox.com/game/PlaceLauncher.ashx?request=RequestPrivateGame&placeId=7&accessCode=acc&linkCode=lnk"
    );
}

#[test]
fn the_descriptor_for_given_ticket_time_and_tracker() {
    let intent = LaunchIntent::new("c", Some("4924922222"), None, None, None, false).unwrap();
    assert_eq!(
        intent.descriptor_at("TICKET", 1700000000000, 123456789012),
        "roblox-player:1+launchmode:play+gameinfo:TICKET+launchtime:1700000000000+placelauncherurl:https%3A%2F%2Fassetgame.roblox.com%2Fgame%2FPlaceLauncher.ashx%3Frequest%3DRequestGame%26browserTrackerId%3D123456789012%26placeId%3D4924922222%26isPlayTogetherGame%3Dfalse+browsertrackerid:123456789012+robloxLocale:en_us+gameLocale:en_us+channel:+LaunchExp:InApp"
    );
}

#[test]
fn the_locator_is_percent_encoded_byte_by_byte() {
    let intent = LaunchIntent::new("c", Some("7"), Some("a b+c/\u{e9}~_.-"), None, None, false).unwrap();
    let descriptor = intent.descriptor_at("T", 0, 1);
    assert_eq!(
        field(&descriptor, "placelauncherurl:"),
        "https%3A%2F%2Fassetgame.roblox.com%2Fgame%2FPlaceLauncher.ashx%3Frequest%3DRequestGameJob%26browserTrackerId%3D1%26placeId%3D7%26gameId%3Da%20b%2Bc%2F%C3%A9~_.-%26isPlayTogetherGame%3Dfalse%26isTeleport%3Dtrue"
    );
    assert_eq!(field(&descriptor, "launchtime:"), "0");
}

#[test]
fn a_launch_time_before_the_epoch_keeps_its_sign() {
    let intent = LaunchIntent::new("c", None, None, None, None, false).unwrap();
    let descriptor = intent.descriptor_at("T", -15, 2);
    assert!(descriptor.starts_with("roblox-player:1+launchmode:play+gameinfo:T+launchtime:-15+placelauncherurl:"));
    let lowest = intent.descriptor_at("T", i64::MIN, 2);
    assert!(lowest.contains("+launchtime:-9223372036854775808+"));
    let highest = intent.descriptor_at("T", i64::MAX, u64::MAX);
    assert!(highest.contains("+launchtime:9223372036854775807+"));
    assert!(highest.contains("+browsertrackerid:18446744073709551615+"));
}

#[test]
fn build_draws_a_tracker_below_the_bound() {
    let intent = LaunchIntent::new("c", Some("4924922222"), None, None, None, false).unwrap();
    for _ in 0..200 {
        let descriptor = intent.build("TICKET", 1_700_000_000_123);
        let tracker: u64 = field(&descriptor, "browsertrackerid:").parse().unwrap();
        assert!(tracker < TRACKER_BOUND);
        assert_eq!(TRACKER_BOUND, 1_000_000_000_000);
        assert_eq!(field(&descriptor, "launchtime:"), "1700000000123");
        assert_eq!(descriptor, intent.descriptor_at("TICKET", 1_700_000_000_123, tracker));
    }
}

#[test]
fn launches_are_set_up_with_their_inputs() {
    let plain = RobloxApi::set_account_and_launch(" c ", Some(" 55 "));
    assert_eq!(plain.phase, LaunchPhase::Ready);
    assert_eq!(plain.broker, BrokerState::Ready);
    assert_eq!(
        plain.intent,
        LaunchIntent {
            cookie: " c ".to_string(),
            place_id: "55".to_string(),
            target: LaunchTarget::Matchmake,
            multi_instance: false,
        }
    );
    let multi = RobloxApi::launch_multi_instance("c", None);
    assert_eq!(multi.intent.place_id, "1818");
    assert!(multi.intent.multi_instance);
    assert_eq!(multi.intent.target, LaunchTarget::Matchmake);
    assert_eq!(RobloxApi::launch_with_options("c", None, true), multi);

    let server = RobloxApi::launch_to_server("c", "9", "job");
    assert_eq!(server.intent.target, LaunchTarget::RejoinServer { job_id: "job".to_string() });
    assert!(!server.intent.multi_instance);
    assert_eq!(RobloxApi::launch_with_job_id("c", Some("9"), Some("job"), false), server);

    let private = RobloxApi::launch_to_private_server("c", "9", "acc", Some("lnk"), true);
    assert_eq!(
        private.intent,
        LaunchIntent {
            cookie: "c".to_string(),
            place_id: "9".to_string(),
            target: LaunchTarget::JoinPrivate {
                access_code: "acc".to_string(),
                link_code: Some("lnk".to_string())
            },
            multi_instance: true,
        }
    );
}

#[test]
fn a_launch_terminates_running_clients_first() {
    let mut launch = RobloxApi::launch_to_server("secret", "9", "job");
    assert_eq!(
        launch.step(LaunchEvent::Start, NOW),
        LaunchCommand::TerminateClients { settle_millis: 500 }
    );
    assert_eq!(SETTLE_MILLIS, 500);
    assert_eq!(launch.phase, LaunchPhase::Settling);

    let first = match launch.step(LaunchEvent::ClientsTerminated, NOW) {
        LaunchCommand::Send(request) => request,
        other => panic!("expected a request, got {:?}", other),
    };
    assert_eq!(first.url, "https://auth.roblox.com/v1/authentication-ticket/");
    assert_eq!(first.csrf_token, None);
    assert_eq!(first.cookie, Some(".ROBLOSECURITY=secret".to_string()));
    assert_eq!(launch.phase, LaunchPhase::Ticketing);

    let refused = response(403, vec![header("x-csrf-token", "tok")]);
    let second = match launch.step(LaunchEvent::Broker(BrokerEvent::Response(refused)), NOW) {
        LaunchCommand::Send(request) => request,
        other => panic!("expected a request, got {:?}", other),
    };
    assert_eq!(second.csrf_token, Some("tok".to_string()));

    let granted = response(200, vec![header("rbx-authentication-ticket", "TICKET-9")]);
    let descriptor = match launch.step(LaunchEvent::Broker(BrokerEvent::Response(granted)), NOW) {
        LaunchCommand::Spawn(descriptor) => descriptor,
        other => panic!("expected a descriptor, got {:?}", other),
    };
    assert_eq!(launch.phase, LaunchPhase::Spawning);
    assert_eq!(field(&descriptor, "gameinfo:"), "TICKET-9");
    let tracker: u64 = field(&descriptor, "browsertrackerid:").parse().unwrap();
    assert_eq!(field(&descriptor, "launchtime:"), "1700000000123");
    assert!(tracker < TRACKER_BOUND);
    assert_eq!(descriptor, launch.intent.descriptor_at("TICKET-9", NOW, tracker));

    assert_eq!(launch.step(LaunchEvent::Spawned, NOW), LaunchCommand::Finish(Ok(())));
    assert!(launch.is_finished());
}

#[test]
fn a_multi_instance_launch_leaves_running_clients_alone() {
    let mut launch = RobloxApi::launch_multi_instance("secret", Some("9"));
    let command = launch.step(LaunchEvent::Start, NOW);
    assert!(matches!(command, LaunchCommand::Send(_)));
    assert_eq!(launch.phase, LaunchPhase::Ticketing);
}

#[test]
fn a_launch_ends_with_the_failure_of_its_handshake() {
    let mut launch = RobloxApi::launch_multi_instance("secret", Some("9"));
    launch.step(LaunchEvent::Start, NOW);
    let no_token = response(403, Vec::new());
    assert_eq!(
        launch.step(LaunchEvent::Broker(BrokerEvent::Response(no_token)), NOW),
        LaunchCommand::Finish(Err(NexusError::TokenAcquisitionFailed))
    );
    assert!(launch.is_finished());

    let mut rejected = RobloxApi::launch_multi_instance("secret", Some("9"));
    rejected.step(LaunchEvent::Start, NOW);
    rejected.step(LaunchEvent::Broker(BrokerEvent::Response(response(403, vec![header("x-csrf-token", "t")]))), NOW);
    assert_eq!(
        rejected.step(LaunchEvent::Broker(BrokerEvent::Response(response(401, Vec::new()))), NOW),
        LaunchCommand::Finish(Err(NexusError::ActionRejected { status: 401, body: String::new() }))
    );

    let mut offline = RobloxApi::launch_multi_instance("secret", Some("9"));
    offline.step(LaunchEvent::Start, NOW);
    assert_eq!(
        offline.step(LaunchEvent::Broker(BrokerEvent::TransportError("dns".to_string())), NOW),
        LaunchCommand::Finish(Err(NexusError::TransportFailure("Request failed: dns".to_string())))
    );
}

#[test]
fn a_client_that_does_not_start_is_reported() {
    let mut launch = Launch::new(LaunchIntent::new("c", None, None, None, None, true).unwrap());
    launch.step(LaunchEvent::Start, NOW);
    launch.step(LaunchEvent::Broker(BrokerEvent::Response(response(403, vec![header("x-csrf-token", "t")]))), NOW);
    let granted = response(200, vec![header("rbx-authentication-ticket", "T")]);
    assert!(matches!(
        launch.step(LaunchEvent::Broker(BrokerEvent::Response(granted)), NOW),
        LaunchCommand::Spawn(_)
    ));
    assert_eq!(
        launch.step(LaunchEvent::SpawnFailed("no handler".to_string()), NOW),
        LaunchCommand::Finish(Err(NexusError::TransportFailure(
            "Failed to launch: no handler".to_string()
        )))
    );
    assert!(launch.is_finished());
}

#[test]
fn launch_events_out_of_turn_end_the_launch() {
    let unexpected = NexusError::TransportFailure(
        "Unexpected event for this step of the handshake".to_string(),
    );
    let mut early = RobloxApi::set_account_and_launch("c", None);
    assert_eq!(early.step(LaunchEvent::Spawned, NOW), LaunchCommand::Finish(Err(unexpected.clone())));
    assert!(early.is_finished());
    assert_eq!(early.step(LaunchEvent::Start, NOW), LaunchCommand::Finish(Err(unexpected.clone())));

    let mut settling = RobloxApi::set_account_and_launch("c", None);
    settling.step(LaunchEvent::Start, NOW);
    assert_eq!(settling.step(LaunchEvent::Start, NOW), LaunchCommand::Finish(Err(unexpected)));
    assert!(settling.is_finished());
}
