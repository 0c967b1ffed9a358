use nexus_core::account::{AccountStatus, UserPresenceType};
use nexus_core::api::server_browser::{get_random_server, ServerType};
use nexus_core::api::{ServerBrowser, ServerData, SortColumn, SortDirection};
use nexus_core::error::NexusError;
use nexus_core::games::GameCategory;
use nexus_core::strings::{push_decimal, push_signed_decimal, str_eq, u64_to_string};

fn server(id: &str, playing: u32, max_players: u32) -> ServerData {
    ServerData {
        id: id.to_string(),
        max_players,
        playing,
        ping: None,
        name: None,
        vip_server_id: None,
        access_code: None,
        server_type: ServerType::Public,
    }
}

#[test]
fn decimal_numerals() {
    assert_eq!(u64_to_string(0), "0");
    assert_eq!(u64_to_string(9), "9");
    assert_eq!(u64_to_string(10), "10");
    assert_eq!(u64_to_string(1_000_000_000_000), "1000000000000");
    assert_eq!(u64_to_string(u64::MAX), "18446744073709551615");
    let mut text = "n=".to_string();
    push_decimal(&mut text, 407);
    push_signed_decimal(&mut text, -1);
    push_signed_decimal(&mut text, 0);
    push_signed_decimal(&mut text, i64::MIN);
    assert_eq!(text, "n=407-10-9223372036854775808");
    assert!(str_eq("abc", "abc"));
    assert!(!str_eq("abc", "abd"));
    assert!(!str_eq("abc", "ab"));
    assert!(str_eq("", ""));
}

#[test]
fn every_failure_has_its_message() {
    assert_eq!(NexusError::DiscoveryMiss.message(), "No cookies found");
    assert_eq!(NexusError::DecryptionFailed.message(), "Failed to decrypt cookie");
    assert_eq!(NexusError::SessionInvalid.message(), "Cookie is invalid or expired");
    assert_eq!(NexusError::TokenAcquisitionFailed.message(), "Failed to get CSRF token");
    assert_eq!(
        NexusError::ActionRejected { status: 403, body: "no".to_string() }.message(),
        "Failed: HTTP 403 - no"
    );
    assert_eq!(
        NexusError::ActionRejected { status: 0, body: String::new() }.message(),
        "Failed: HTTP 0 - "
    );
    assert_eq!(NexusError::TransportFailure("detail".to_string()).message(), "detail");
}

#[test]
fn account_status_labels_and_colours() {
    assert_eq!(AccountStatus::NotVerified.label(), "Not Verified");
    assert_eq!(AccountStatus::Valid.label(), "Valid");
    assert_eq!(AccountStatus::Invalid.label(), "Invalid");
    assert_eq!(AccountStatus::Requires2FA.label(), "2FA Required");
    assert_eq!(AccountStatus::NotVerified.color(), (120, 120, 130));
    assert_eq!(AccountStatus::Valid.color(), (80, 200, 120));
    assert_eq!(AccountStatus::Invalid.color(), (220, 80, 80));
    assert_eq!(AccountStatus::Requires2FA.color(), (230, 180, 80));
    assert_eq!(AccountStatus::default(), AccountStatus::NotVerified);
}

#[test]
fn presence_labels_colours_and_codes() {
    assert_eq!(UserPresenceType::Offline.label(), "Offline");
    assert_eq!(UserPresenceType::Online.label(), "Online");
    assert_eq!(UserPresenceType::InGame.label(), "In Game");
    assert_eq!(UserPresenceType::InStudio.label(), "In Studio");
    assert_eq!(UserPresenceType::Offline.color(), (120, 120, 130));
    assert_eq!(UserPresenceType::Online.color(), (0, 162, 255));
    assert_eq!(UserPresenceType::InGame.color(), (2, 183, 87));
    assert_eq!(UserPresenceType::InStudio.color(), (70, 41, 216));
    assert_eq!(UserPresenceType::from_int(0), UserPresenceType::Offline);
    assert_eq!(UserPresenceType::from_int(1), UserPresenceType::Online);
    assert_eq!(UserPresenceType::from_int(2), UserPresenceType::InGame);
    assert_eq!(UserPresenceType::from_int(3), UserPresenceType::InStudio);
    assert_eq!(UserPresenceType::from_int(4), UserPresenceType::Offline);
    assert_eq!(UserPresenceType::from_int(255), UserPresenceType::Offline);
    assert_eq!(UserPresenceType::default(), UserPresenceType::Offline);
}

#[test]
fn category_labels() {
    assert_eq!(GameCategory::Fighting.label(), "Fighting");
    assert_eq!(GameCategory::Roleplay.label(), "Roleplay");
    assert_eq!(GameCategory::Simulator.label(), "Simulator");
    assert_eq!(GameCategory::Horror.label(), "Horror");
    assert_eq!(GameCategory::Obby.label(), "Obby");
    assert_eq!(GameCategory::Classic.label(), "Classic");
    assert_eq!(GameCategory::Sports.label(), "Sports");
}

#[test]
fn sort_direction_toggles() {
    assert_eq!(SortDirection::Ascending.toggle(), SortDirection::Descending);
    assert_eq!(SortDirection::Descending.toggle(), SortDirection::Ascending);
    assert_eq!(SortDirection::Ascending.toggle().toggle(), SortDirection::Ascending);
    assert_eq!(SortDirection::Ascending.arrow(), "^");
    assert_eq!(SortDirection::Descending.arrow(), "v");
    assert_eq!(SortDirection::default(), SortDirection::Ascending);
    assert_eq!(SortColumn::default(), SortColumn::Unsorted);
    assert_eq!(ServerType::VIP.label(), "VIP");
    assert_eq!(ServerType::Private.icon(), "\u{1F512}");
}

#[test]
fn what_is_known_of_a_server() {
    let empty = server("job", 0, 10);
    assert!(!empty.has_players());
    assert!(!empty.is_full());
    let full = server("job", 10, 10);
    assert!(full.has_players());
    assert!(full.is_full());
    assert!(server("job", 11, 10).is_full());
    assert!(server("job", 0, 0).is_full());
    assert!(!empty.is_vip());
    assert_eq!(empty.get_join_id(), "job");

    let vip_kind = ServerData { server_type: ServerType::VIP, ..server("job", 1, 2) };
    assert!(vip_kind.is_vip());
    assert_eq!(vip_kind.get_join_id(), "job");
    let coded = ServerData { access_code: Some("code".to_string()), ..server("job", 1, 2) };
    assert!(coded.is_vip());
    assert_eq!(coded.get_join_id(), "code");
}

#[test]
fn the_name_shown_for_a_server() {
    let named = ServerData { name: Some("My server".to_string()), ..server("0123456789abcdef", 1, 2) };
    assert_eq!(named.display_name(), "My server");
    let unnamed = ServerData { name: Some(String::new()), ..server("0123456789abcdef", 1, 2) };
    assert_eq!(unnamed.display_name(), "0123456789ab...");
    assert_eq!(server("0123456789abc", 1, 2).display_name(), "0123456789ab...");
    assert_eq!(server("0123456789ab", 1, 2).display_name(), "0123456789ab");
    assert_eq!(server("", 1, 2).display_name(), "");
    // twelve bytes in would split a character: the id is shown whole
    let wide = "0123456789a\u{e9}xyz";
    assert_eq!(server(wide, 1, 2).display_name(), wide);
}

#[test]
fn the_browser_shows_one_of_its_two_lists() {
    let mut browser = ServerBrowser::new();
    assert!(browser.active_servers().is_empty());
    assert!(!browser.has_more());
    assert_eq!(browser.get_selected_server(), None);
    assert_eq!(browser.get_selected_job_id(), None);

    browser.servers = vec![server("a", 1, 2), server("b", 1, 2)];
    browser.vip_servers =
        vec![ServerData { access_code: Some("code".to_string()), ..server("v", 1, 2) }];
    browser.next_cursor = Some("n".to_string());
    browser.selected_server = Some(1);
    assert_eq!(browser.active_servers().len(), 2);
    assert!(browser.has_more());
    assert_eq!(browser.get_selected_job_id(), Some("b"));

    browser.show_vip_servers = true;
    assert_eq!(browser.active_servers().len(), 1);
    assert!(!browser.has_more());
    // the selection points past the end of the list that is shown
    assert_eq!(browser.get_selected_server(), None);
    browser.selected_server = Some(0);
    assert_eq!(browser.get_selected_job_id(), Some("code"));
    browser.vip_next_cursor = Some("v".to_string());
    assert!(browser.has_more());
}

#[test]
fn clearing_the_browser_keeps_place_and_sorting() {
    let mut browser = ServerBrowser::new();
    browser.servers = vec![server("a", 1, 2)];
    browser.vip_servers = vec![server("v", 1, 2)];
    browser.next_cursor = Some("n".to_string());
    browser.vip_next_cursor = Some("v".to_string());
    browser.selected_server = Some(0);
    browser.error = Some("e".to_string());
    browser.current_game_name = Some("g".to_string());
    browser.current_place_id = Some("p".to_string());
    browser.sort_column = SortColumn::Ping;
    browser.show_vip_servers = true;
    browser.clear();
    assert!(browser.servers.is_empty());
    assert!(browser.vip_servers.is_empty());
    assert_eq!(browser.next_cursor, None);
    assert_eq!(browser.vip_next_cursor, None);
    assert_eq!(browser.selected_server, None);
    assert_eq!(browser.error, None);
    assert_eq!(browser.current_game_name, None);
    assert_eq!(browser.current_place_id, Some("p".to_string()));
    assert_eq!(browser.sort_column, SortColumn::Ping);
    assert!(browser.show_vip_servers);
}

#[test]
fn sorting_by_a_column_again_turns_the_direction() {
    let mut browser = ServerBrowser::new();
    browser.toggle_sort(SortColumn::Players);
    assert_eq!(browser.sort_column, SortColumn::Players);
    assert_eq!(browser.sort_direction, SortDirection::Descending);
    browser.toggle_sort(SortColumn::Players);
    assert_eq!(browser.sort_direction, SortDirection::Ascending);
    browser.toggle_sort(SortColumn::Ping);
    assert_eq!(browser.sort_column, SortColumn::Ping);
    assert_eq!(browser.sort_direction, SortDirection::Descending);
    // a fresh browser is unsorted and ascending: the same column turns it
    let mut fresh = ServerBrowser::new();
    fresh.toggle_sort(SortColumn::Unsorted);
    assert_eq!(fresh.sort_direction, SortDirection::Descending);
}

#[test]
fn a_random_server_has_players_and_room() {
    let servers = vec![
        server("empty", 0, 10),
        server("full", 10, 10),
        server("one", 1, 10),
        server("over", 12, 10),
        server("two", 9, 10),
    ];
    let mut seen_one = false;
    let mut seen_two = false;
    for _ in 0..200 {
        let id = get_random_server(&servers).unwrap();
        assert!(id == "one" || id == "two");
        seen_one |= id == "one";
        seen_two |= id == "two";
    }
    assert!(seen_one && seen_two);
    let none = vec![server("empty", 0, 10), server("full", 10, 10)];
    assert_eq!(
        get_random_server(&none),
        Err(NexusError::TransportFailure("No available servers found".to_string()))
    );
    assert_eq!(
        get_random_server(&Vec::new()),
        Err(NexusError::TransportFailure("No available servers found".to_string()))
    );
}

fn sorted(servers: &[ServerData], column: SortColumn, direction: SortDirection) -> Vec<usize> {
    let mut browser = ServerBrowser::new();
    browser.servers = servers.to_vec();
    browser.sort_column = column;
    browser.sort_direction = direction;
    browser.get_sorted_indices()
}

#[test]
fn servers_are_listed_by_the_sort_column() {
    let servers = vec![
        ServerData { ping: Some(50), ..server("a", 5, 10) },
        ServerData { ping: None, ..server("b", 1, 2) },
        ServerData { ping: Some(9999), ..server("c", 3, 4) },
        ServerData { ping: Some(10), ..server("d", 2, 100) },
        ServerData { ping: None, ..server("e", 7, 0) },
    ];
    let up = SortDirection::Ascending;
    let down = SortDirection::Descending;
    assert_eq!(sorted(&servers, SortColumn::Unsorted, up), vec![0, 1, 2, 3, 4]);
    assert_eq!(sorted(&servers, SortColumn::Unsorted, down), vec![0, 1, 2, 3, 4]);
    assert_eq!(sorted(&servers, SortColumn::Players, up), vec![1, 3, 2, 0, 4]);
    assert_eq!(sorted(&servers, SortColumn::Players, down), vec![4, 0, 2, 3, 1]);
    // a server that reports no ping counts as 9999
    assert_eq!(sorted(&servers, SortColumn::Ping, up), vec![3, 0, 1, 2, 4]);
    assert_eq!(sorted(&servers, SortColumn::Ping, down), vec![1, 2, 4, 0, 3]);
    // a server without room counts as empty; equal shares keep their order
    assert_eq!(sorted(&servers, SortColumn::Fill, up), vec![4, 3, 0, 1, 2]);
    assert_eq!(sorted(&servers, SortColumn::Fill, down), vec![2, 0, 1, 3, 4]);
}

#[test]
fn servers_of_one_rank_keep_their_order_both_ways() {
    let servers = vec![server("a", 3, 9), server("b", 1, 3), server("c", 3, 9), server("d", 1, 3)];
    assert_eq!(sorted(&servers, SortColumn::Players, SortDirection::Ascending), vec![1, 3, 0, 2]);
    assert_eq!(sorted(&servers, SortColumn::Players, SortDirection::Descending), vec![0, 2, 1, 3]);
    assert_eq!(sorted(&servers, SortColumn::Fill, SortDirection::Descending), vec![0, 1, 2, 3]);
    assert_eq!(sorted(&[], SortColumn::Fill, SortDirection::Descending), Vec::<usize>::new());
    let extreme = vec![server("x", u32::MAX, u32::MAX), server("y", u32::MAX, 1), server("z", 1, u32::MAX)];
    assert_eq!(sorted(&extreme, SortColumn::Fill, SortDirection::Ascending), vec![2, 0, 1]);
}

#[test]
fn the_sorted_list_is_the_one_that_is_shown() {
    let mut browser = ServerBrowser::new();
    browser.servers = vec![server("a", 1, 2)];
    browser.vip_servers = vec![server("v", 2, 2), server("w", 1, 2)];
    browser.show_vip_servers = true;
    browser.sort_column = SortColumn::Players;
    assert_eq!(browser.get_sorted_indices(), vec![1, 0]);
}
