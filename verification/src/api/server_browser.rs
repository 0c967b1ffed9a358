//! The list of a place's servers: what is known of each, which list is
//! shown, how it is sorted, and which server is picked.

use crate::api::http::{HttpRequest, Method, RequestText};
use crate::api::launch::opt_str;
use crate::deps::random::random_u64;
use crate::error::{Failure, NexusError};
use vstd::prelude::*;
use vstd::string::*;
use vstd::utf8::*;

verus! {

/// The kinds of server.
#[derive(Clone, Copy, Debug, PartialEq, Eq, Structural)]
pub enum ServerType {
    Public,
    VIP,
    Private,
}

/// The label of each kind of server.
pub open spec fn server_type_label(kind: ServerType) -> Seq<char> {
    match kind {
        ServerType::Public => "Public"@,
        ServerType::VIP => "VIP"@,
        ServerType::Private => "Private"@,
    }
}

/// The icon of each kind of server.
pub open spec fn server_type_icon(kind: ServerType) -> Seq<char> {
    match kind {
        ServerType::Public => "\u{1F310}"@,
        ServerType::VIP => "\u{2B50}"@,
        ServerType::Private => "\u{1F512}"@,
    }
}

impl ServerType {
    /// The label shown for this kind of server.
    pub fn label(&self) -> (text: &'static str)
        ensures
            text@ == server_type_label(*self),
    {
        match self {
            ServerType::Public => "Public",
            ServerType::VIP => "VIP",
            ServerType::Private => "Private",
        }
    }

    /// The icon shown for this kind of server.
    pub fn icon(&self) -> (text: &'static str)
        ensures
            text@ == server_type_icon(*self),
    {
        match self {
            ServerType::Public => "\u{1F310}",
            ServerType::VIP => "\u{2B50}",
            ServerType::Private => "\u{1F512}",
        }
    }
}

impl Default for ServerType {
    fn default() -> (kind: Self)
        ensures
            kind == ServerType::Public,
    {
        ServerType::Public
    }
}

/// A server as the service lists it.
#[derive(Clone, Debug, PartialEq, Eq)]
pub struct ServerData {
    pub id: String,
    pub max_players: u32,
    pub playing: u32,
    pub ping: Option<u32>,
    pub name: Option<String>,
    pub vip_server_id: Option<u64>,
    pub access_code: Option<String>,
    pub server_type: ServerType,
}

/// How many bytes of a job id are shown.
pub const SHOWN_ID_LEN: usize = 12;

/// A server with players and room for more.
pub open spec fn is_available(server: ServerData) -> bool {
    server.playing > 0 && server.playing < server.max_players
}

/// A VIP server: one of that kind, or any with an access code.
pub open spec fn server_is_vip(server: ServerData) -> bool {
    server.server_type == ServerType::VIP || server.access_code is Some
}

/// What a server is joined by: the access code of a VIP server that has one,
/// else the job id.
pub open spec fn join_id_of(server: ServerData) -> Seq<char> {
    if server_is_vip(server) && server.access_code is Some {
        server.access_code->0@
    } else {
        server.id@
    }
}

/// The byte length that `str::len` reports for a text.
pub open spec fn reported_len(text: Seq<char>) -> usize {
    encode_utf8(text).len() as usize
}

/// The name shown for a server: its own where it has one, else its job id,
/// cut to twelve bytes and `...` where it is longer and can be cut there.
pub open spec fn shown_name(server: ServerData) -> Seq<char> {
    if server.name is Some && server.name->0@.len() > 0 {
        server.name->0@
    } else if reported_len(server.id@) > SHOWN_ID_LEN && is_char_boundary(
        encode_utf8(server.id@),
        SHOWN_ID_LEN as int,
    ) {
        decode_utf8(encode_utf8(server.id@).subrange(0, SHOWN_ID_LEN as int)) + "..."@
    } else {
        server.id@
    }
}

impl ServerData {
    /// Whether the server has no room left.
    pub fn is_full(&self) -> (full: bool)
        ensures
            full == (self.playing >= self.max_players),
    {
        self.playing >= self.max_players
    }

    /// Whether anyone plays on the server.
    pub fn has_players(&self) -> (any: bool)
        ensures
            any == (self.playing > 0),
    {
        self.playing > 0
    }

    /// Whether this is a VIP server.
    pub fn is_vip(&self) -> (vip: bool)
        ensures
            vip == server_is_vip(*self),
    {
        self.server_type == ServerType::VIP || self.access_code.is_some()
    }

    /// The name to show for the server.
    pub fn display_name(&self) -> (text: String)
        ensures
            text@ == shown_name(*self),
    {
        if let Some(name) = &self.name {
            if !name.as_str().is_empty() {
                return name.clone();
            }
        }
        let id = self.id.as_str();
        if id.len() > SHOWN_ID_LEN && id.is_char_boundary(SHOWN_ID_LEN) {
            let (head, _) = id.split_at(SHOWN_ID_LEN);
            let mut text = String::from_str(head);
            text.append("...");
            proof {
                broadcast use encode_utf8_decode_utf8;

                assert(decode_utf8(encode_utf8(head@)) == head@);
            }
            text
        } else {
            self.id.clone()
        }
    }

    /// What to join the server by: access code or job id.
    pub fn get_join_id(&self) -> (id: &str)
        ensures
            id@ == join_id_of(*self),
    {
        if self.is_vip() {
            match &self.access_code {
                Some(code) => code.as_str(),
                None => self.id.as_str(),
            }
        } else {
            self.id.as_str()
        }
    }
}

/// One page of the list of servers.
#[derive(Clone, Debug, PartialEq, Eq)]
pub struct ServersResponse {
    pub previous_page_cursor: Option<String>,
    pub next_page_cursor: Option<String>,
    pub data: Vec<ServerData>,
}

/// The column a list is sorted by.
#[derive(Clone, Copy, Debug, PartialEq, Eq, Structural)]
pub enum SortColumn {
    Unsorted,
    Players,
    Ping,
    Fill,
}

impl Default for SortColumn {
    fn default() -> (column: Self)
        ensures
            column == SortColumn::Unsorted,
    {
        SortColumn::Unsorted
    }
}

/// The direction a list is sorted in.
#[derive(Clone, Copy, Debug, PartialEq, Eq, Structural)]
pub enum SortDirection {
    Ascending,
    Descending,
}

/// The other direction.
pub open spec fn opposite(direction: SortDirection) -> SortDirection {
    match direction {
        SortDirection::Ascending => SortDirection::Descending,
        SortDirection::Descending => SortDirection::Ascending,
    }
}

/// The arrow of each direction.
pub open spec fn direction_arrow(direction: SortDirection) -> Seq<char> {
    match direction {
        SortDirection::Ascending => "^"@,
        SortDirection::Descending => "v"@,
    }
}

impl SortDirection {
    /// The other direction.
    pub fn toggle(&self) -> (other: Self)
        ensures
            other == opposite(*self),
    {
        match self {
            SortDirection::Ascending => SortDirection::Descending,
            SortDirection::Descending => SortDirection::Ascending,
        }
    }

    /// The arrow shown for this direction.
    pub fn arrow(&self) -> (text: &'static str)
        ensures
            text@ == direction_arrow(*self),
    {
        match self {
            SortDirection::Ascending => "^",
            SortDirection::Descending => "v",
        }
    }
}

impl Default for SortDirection {
    fn default() -> (direction: Self)
        ensures
            direction == SortDirection::Ascending,
    {
        SortDirection::Ascending
    }
}

/// Toggling a direction twice gives it back.
pub proof fn lemma_toggle_twice(direction: SortDirection)
    ensures
        opposite(opposite(direction)) == direction,
{
}

/// The ping taken for a server that reports none.
pub const UNKNOWN_PING: u32 = 9999;

/// The ping that a server is sorted by.
pub open spec fn ping_of(server: ServerData) -> u32 {
    match server.ping {
        Some(ping) => ping,
        None => UNKNOWN_PING,
    }
}

/// The share of a server that is filled, as a fraction: players over room,
/// and nothing over one for a server without room.
pub open spec fn fill_of(server: ServerData) -> (int, int) {
    if server.max_players == 0 {
        (0, 1)
    } else {
        (server.playing as int, server.max_players as int)
    }
}

/// One server ranks no higher than another in a column: it has no more
/// players, no higher ping, or no larger share filled. Unsorted, all servers
/// rank alike.
pub open spec fn rank_le(a: ServerData, b: ServerData, column: SortColumn) -> bool {
    match column {
        SortColumn::Unsorted => true,
        SortColumn::Players => a.playing <= b.playing,
        SortColumn::Ping => ping_of(a) <= ping_of(b),
        SortColumn::Fill => fill_of(a).0 * fill_of(b).1 <= fill_of(b).0 * fill_of(a).1,
    }
}

/// One server is listed before another whatever their positions: it ranks
/// strictly lower in an ascending list, strictly higher in a descending one.
pub open spec fn comes_first(
    a: ServerData,
    b: ServerData,
    column: SortColumn,
    direction: SortDirection,
) -> bool {
    match direction {
        SortDirection::Ascending => !rank_le(b, a, column),
        SortDirection::Descending => !rank_le(a, b, column),
    }
}

/// The server at position `x` is listed before the one at `y`: by rank, and
/// among servers of one rank by position.
pub open spec fn listed_before(
    servers: Seq<ServerData>,
    x: int,
    y: int,
    column: SortColumn,
    direction: SortDirection,
) -> bool {
    comes_first(servers[x], servers[y], column, direction) || (!comes_first(
        servers[y],
        servers[x],
        column,
        direction,
    ) && x < y)
}

/// A listing of some servers in a column and a direction: every position
/// once, in the order of `listed_before`.
pub open spec fn is_listing(
    servers: Seq<ServerData>,
    order: Seq<usize>,
    column: SortColumn,
    direction: SortDirection,
) -> bool {
    &&& order.len() == servers.len()
    &&& forall|i: int| 0 <= i < order.len() ==> (#[trigger] order[i]) < servers.len()
    &&& forall|x: usize| x < servers.len() ==> #[trigger] order.contains(x)
    &&& forall|i: int, j: int|
        0 <= i < j < order.len() ==> listed_before(
            servers,
            #[trigger] order[i] as int,
            #[trigger] order[j] as int,
            column,
            direction,
        )
}

/// Ranking is total and transitive in every column.
proof fn lemma_rank_order(a: ServerData, b: ServerData, c: ServerData, column: SortColumn)
    ensures
        rank_le(a, b, column) || rank_le(b, a, column),
        rank_le(a, b, column) && rank_le(b, c, column) ==> rank_le(a, c, column),
{
    if column == SortColumn::Fill {
        let (na, da) = fill_of(a);
        let (nb, db) = fill_of(b);
        let (nc, dc) = fill_of(c);
        if na * db <= nb * da && nb * dc <= nc * db {
            assert(na * dc <= nc * da) by (nonlinear_arith)
                requires
                    na * db <= nb * da,
                    nb * dc <= nc * db,
                    da > 0,
                    db > 0,
                    dc > 0,
                    na >= 0,
                    nb >= 0,
                    nc >= 0,
            {
                assert(na * db * dc <= nb * da * dc);
                assert(nb * dc * da <= nc * db * da);
                assert(na * dc * db <= nc * da * db);
            }
        }
    }
}

/// The order of a listing is transitive.
proof fn lemma_listed_before_transitive(
    servers: Seq<ServerData>,
    x: int,
    y: int,
    z: int,
    column: SortColumn,
    direction: SortDirection,
)
    requires
        listed_before(servers, x, y, column, direction),
        listed_before(servers, y, z, column, direction),
    ensures
        listed_before(servers, x, z, column, direction),
{
    let a = servers[x];
    let b = servers[y];
    let c = servers[z];
    lemma_rank_order(a, b, c, column);
    lemma_rank_order(a, c, b, column);
    lemma_rank_order(b, a, c, column);
    lemma_rank_order(b, c, a, column);
    lemma_rank_order(c, a, b, column);
    lemma_rank_order(c, b, a, column);
}

/// Whether one server ranks no higher than another in a column.
fn ranks_le(a: &ServerData, b: &ServerData, column: SortColumn) -> (le: bool)
    ensures
        le == rank_le(*a, *b, column),
{
    match column {
        SortColumn::Unsorted => true,
        SortColumn::Players => a.playing <= b.playing,
        SortColumn::Ping => {
            let ping_a = match a.ping {
                Some(ping) => ping,
                None => UNKNOWN_PING,
            };
            let ping_b = match b.ping {
                Some(ping) => ping,
                None => UNKNOWN_PING,
            };
            ping_a <= ping_b
        },
        SortColumn::Fill => {
            let (na, da): (u64, u64) = if a.max_players == 0 {
                (0, 1)
            } else {
                (a.playing as u64, a.max_players as u64)
            };
            let (nb, db): (u64, u64) = if b.max_players == 0 {
                (0, 1)
            } else {
                (b.playing as u64, b.max_players as u64)
            };
            assert(na * db <= 0xffff_ffff * 0xffff_ffff && nb * da <= 0xffff_ffff * 0xffff_ffff)
                by (nonlinear_arith)
                requires
                    na <= 0xffff_ffff,
                    da <= 0xffff_ffff,
                    nb <= 0xffff_ffff,
                    db <= 0xffff_ffff,
            ;
            na * db <= nb * da
        },
    }
}

/// Whether the server at `x` is listed before the one at `y`.
fn is_listed_before(
    servers: &Vec<ServerData>,
    x: usize,
    y: usize,
    column: SortColumn,
    direction: SortDirection,
) -> (before: bool)
    requires
        x < servers@.len(),
        y < servers@.len(),
    ensures
        before == listed_before(servers@, x as int, y as int, column, direction),
{
    let a = &servers[x];
    let b = &servers[y];
    let (first, second) = match direction {
        SortDirection::Ascending => (!ranks_le(b, a, column), !ranks_le(a, b, column)),
        SortDirection::Descending => (!ranks_le(a, b, column), !ranks_le(b, a, column)),
    };
    first || (!second && x < y)
}

/// The state of the server browser.
pub struct ServerBrowser {
    pub servers: Vec<ServerData>,
    pub vip_servers: Vec<ServerData>,
    pub loading: bool,
    pub error: Option<String>,
    pub current_place_id: Option<String>,
    pub current_game_name: Option<String>,
    pub next_cursor: Option<String>,
    pub vip_next_cursor: Option<String>,
    pub selected_server: Option<usize>,
    pub sort_column: SortColumn,
    pub sort_direction: SortDirection,
    pub show_vip_servers: bool,
    pub private_server_input: String,
    pub vip_access_code_input: String,
    pub vip_access_code_show: bool,
    pub vip_pending_server_idx: Option<usize>,
    pub vip_pending_account_idx: Option<usize>,
}

/// The list that is shown: the VIP servers or the public ones.
pub open spec fn shown_servers(browser: ServerBrowser) -> Seq<ServerData> {
    if browser.show_vip_servers {
        browser.vip_servers@
    } else {
        browser.servers@
    }
}

/// The server that is selected in the list that is shown, if the selection
/// points into it.
pub open spec fn selected_in(browser: ServerBrowser) -> Option<ServerData> {
    match browser.selected_server {
        Some(index) => if index < shown_servers(browser).len() {
            Some(shown_servers(browser)[index as int])
        } else {
            None
        },
        None => None,
    }
}

impl ServerBrowser {
    /// A browser with nothing loaded.
    pub fn new() -> (browser: Self)
        ensures
            browser.servers@.len() == 0,
            browser.vip_servers@.len() == 0,
            !browser.loading,
            browser.error is None,
            browser.current_place_id is None,
            browser.current_game_name is None,
            browser.next_cursor is None,
            browser.vip_next_cursor is None,
            browser.selected_server is None,
            browser.sort_column == SortColumn::Unsorted,
            browser.sort_direction == SortDirection::Ascending,
            !browser.show_vip_servers,
            browser.private_server_input@.len() == 0,
            browser.vip_access_code_input@.len() == 0,
            !browser.vip_access_code_show,
            browser.vip_pending_server_idx is None,
            browser.vip_pending_account_idx is None,
    {
        ServerBrowser {
            servers: Vec::new(),
            vip_servers: Vec::new(),
            loading: false,
            error: None,
            current_place_id: None,
            current_game_name: None,
            next_cursor: None,
            vip_next_cursor: None,
            selected_server: None,
            sort_column: SortColumn::Unsorted,
            sort_direction: SortDirection::Ascending,
            show_vip_servers: false,
            private_server_input: String::new(),
            vip_access_code_input: String::new(),
            vip_access_code_show: false,
            vip_pending_server_idx: None,
            vip_pending_account_idx: None,
        }
    }

    /// Forgets the servers that were loaded, with cursors, selection, error
    /// and game name. Place, sorting and inputs stay.
    pub fn clear(&mut self)
        ensures
            final(self).servers@.len() == 0,
            final(self).vip_servers@.len() == 0,
            final(self).next_cursor is None,
            final(self).vip_next_cursor is None,
            final(self).selected_server is None,
            final(self).error is None,
            final(self).current_game_name is None,
            final(self).loading == old(self).loading,
            final(self).current_place_id == old(self).current_place_id,
            final(self).sort_column == old(self).sort_column,
            final(self).sort_direction == old(self).sort_direction,
            final(self).show_vip_servers == old(self).show_vip_servers,
            final(self).private_server_input == old(self).private_server_input,
            final(self).vip_access_code_input == old(self).vip_access_code_input,
            final(self).vip_access_code_show == old(self).vip_access_code_show,
            final(self).vip_pending_server_idx == old(self).vip_pending_server_idx,
            final(self).vip_pending_account_idx == old(self).vip_pending_account_idx,
    {
        self.servers.clear();
        self.vip_servers.clear();
        self.next_cursor = None;
        self.vip_next_cursor = None;
        self.selected_server = None;
        self.error = None;
        self.current_game_name = None;
    }

    /// The list that is shown.
    pub fn active_servers(&self) -> (servers: &Vec<ServerData>)
        ensures
            servers@ == shown_servers(*self),
    {
        if self.show_vip_servers {
            &self.vip_servers
        } else {
            &self.servers
        }
    }

    /// Whether the list that is shown has more pages.
    pub fn has_more(&self) -> (more: bool)
        ensures
            more == if self.show_vip_servers {
                self.vip_next_cursor is Some
            } else {
                self.next_cursor is Some
            },
    {
        if self.show_vip_servers {
            self.vip_next_cursor.is_some()
        } else {
            self.next_cursor.is_some()
        }
    }

    /// Sorts by a column: the other way round where the list is sorted by it
    /// already, else descending. Nothing but column and direction changes.
    pub fn toggle_sort(&mut self, column: SortColumn)
        ensures
            final(self).sort_column == column,
            final(self).sort_direction == if old(self).sort_column == column {
                opposite(old(self).sort_direction)
            } else {
                SortDirection::Descending
            },
            final(self).servers == old(self).servers,
            final(self).vip_servers == old(self).vip_servers,
            final(self).loading == old(self).loading,
            final(self).error == old(self).error,
            final(self).current_place_id == old(self).current_place_id,
            final(self).current_game_name == old(self).current_game_name,
            final(self).next_cursor == old(self).next_cursor,
            final(self).vip_next_cursor == old(self).vip_next_cursor,
            final(self).selected_server == old(self).selected_server,
            final(self).show_vip_servers == old(self).show_vip_servers,
            final(self).private_server_input == old(self).private_server_input,
            final(self).vip_access_code_input == old(self).vip_access_code_input,
            final(self).vip_access_code_show == old(self).vip_access_code_show,
            final(self).vip_pending_server_idx == old(self).vip_pending_server_idx,
            final(self).vip_pending_account_idx == old(self).vip_pending_account_idx,
    {
        if self.sort_column == column {
            self.sort_direction = self.sort_direction.toggle();
        } else {
            self.sort_column = column;
            self.sort_direction = SortDirection::Descending;
        }
    }

    /// The positions of the servers that are shown, in the order of the list
    /// on screen: by the sort column in the sort direction, servers of one
    /// rank in the order they came. Unsorted, that is the order they came in.
    pub fn get_sorted_indices(&self) -> (order: Vec<usize>)
        ensures
            is_listing(shown_servers(*self), order@, self.sort_column, self.sort_direction),
    {
        let servers = self.active_servers();
        let column = self.sort_column;
        let direction = self.sort_direction;
        let mut order: Vec<usize> = Vec::new();
        let mut k: usize = 0;
        while k < servers.len()
            invariant
                k <= servers.len(),
                order@.len() == k,
                forall|i: int| 0 <= i < k ==> (#[trigger] order@[i]) < k,
                forall|x: usize| x < k ==> #[trigger] order@.contains(x),
                forall|i: int, j: int|
                    0 <= i < j < k ==> listed_before(
                        servers@,
                        #[trigger] order@[i] as int,
                        #[trigger] order@[j] as int,
                        column,
                        direction,
                    ),
            decreases servers.len() - k,
        {
            let mut at: usize = k;
            while at > 0 && is_listed_before(servers, k, order[at - 1], column, direction)
                invariant
                    at <= k,
                    k < servers.len(),
                    order@.len() == k,
                    forall|i: int| 0 <= i < k ==> (#[trigger] order@[i]) < k,
                    forall|j: int|
                        at <= j < k ==> listed_before(
                            servers@,
                            k as int,
                            #[trigger] order@[j] as int,
                            column,
                            direction,
                        ),
                decreases at,
            {
                at -= 1;
            }
            let ghost before = order@;
            proof {
                assert forall|i: int| 0 <= i < at implies listed_before(
                    servers@,
                    #[trigger] before[i] as int,
                    k as int,
                    column,
                    direction,
                ) by {
                    let last = before[at - 1] as int;
                    assert(!listed_before(servers@, k as int, last, column, direction));
                    assert(listed_before(servers@, last, k as int, column, direction));
                    if i < at - 1 {
                        assert(listed_before(servers@, before[i] as int, last, column, direction));
                        lemma_listed_before_transitive(
                            servers@,
                            before[i] as int,
                            last,
                            k as int,
                            column,
                            direction,
                        );
                    }
                }
            }
            order.insert(at, k);
            proof {
                let after = order@;
                assert(after == before.insert(at as int, k));
                assert forall|i: int| 0 <= i < k + 1 implies (#[trigger] after[i]) < k + 1 by {
                    if i < at {
                        assert(after[i] == before[i]);
                    } else if i > at {
                        assert(after[i] == before[i - 1]);
                    }
                }
                assert forall|x: usize| x < k + 1 implies #[trigger] after.contains(x) by {
                    if x == k {
                        assert(after[at as int] == x);
                    } else {
                        assert(before.contains(x));
                        let i = choose|i: int| 0 <= i < before.len() && before[i] == x;
                        if i < at {
                            assert(after[i] == x);
                        } else {
                            assert(after[i + 1] == x);
                        }
                    }
                }
                assert forall|i: int, j: int| 0 <= i < j < k + 1 implies listed_before(
                    servers@,
                    #[trigger] after[i] as int,
                    #[trigger] after[j] as int,
                    column,
                    direction,
                ) by {
                    let bi = if i < at { i } else { i - 1 };
                    let bj = if j < at { j } else { j - 1 };
                    if i != at {
                        assert(after[i] == before[bi]);
                    }
                    if j != at {
                        assert(after[j] == before[bj]);
                    }
                    if i != at && j != at {
                        assert(listed_before(
                            servers@,
                            before[bi] as int,
                            before[bj] as int,
                            column,
                            direction,
                        ));
                    }
                }
            }
            k += 1;
        }
        order
    }

    /// The selected server.
    pub fn get_selected_server(&self) -> (server: Option<&ServerData>)
        ensures
            match server {
                Some(s) => selected_in(*self) == Some(*s),
                None => selected_in(*self) is None,
            },
    {
        let servers = self.active_servers();
        match self.selected_server {
            Some(index) => if index < servers.len() {
                Some(&servers[index])
            } else {
                None
            },
            None => None,
        }
    }

    /// What to join the selected server by.
    pub fn get_selected_job_id(&self) -> (id: Option<&str>)
        ensures
            match id {
                Some(text) => selected_in(*self) is Some && text@ == join_id_of(
                    selected_in(*self)->0,
                ),
                None => selected_in(*self) is None,
            },
    {
        match self.get_selected_server() {
            Some(server) => Some(server.get_join_id()),
            None => None,
        }
    }
}

/// The request for one page of a place's public servers.
pub open spec fn servers_request(place_id: Seq<char>, cursor: Option<Seq<char>>) -> RequestText {
    RequestText {
        method: Method::Get,
        url: "https://games.roblox.com/v1/games/"@ + place_id
            + "/servers/public?sortOrder=Asc&limit=25"@ + match cursor {
            Some(c) => "&cursor="@ + c,
            None => Seq::empty(),
        },
        cookie: None,
        csrf_token: None,
        content_type: None,
        referer: None,
        user_agent: None,
        accept: None,
        body: None,
    }
}

/// The request for one page of the public servers of a place.
pub fn fetch_servers(place_id: &str, cursor: Option<&str>) -> (request: HttpRequest)
    ensures
        request@ == servers_request(place_id@, opt_str(cursor)),
{
    let mut url = String::from_str("https://games.roblox.com/v1/games/");
    url.append(place_id);
    url.append("/servers/public?sortOrder=Asc&limit=25");
    match cursor {
        Some(c) => {
            url.append("&cursor=");
            url.append(c);
            assert(url@ =~= servers_request(place_id@, opt_str(cursor)).url);
        },
        None => {
            assert(url@ =~= servers_request(place_id@, opt_str(cursor)).url);
        },
    }
    HttpRequest {
        method: Method::Get,
        url,
        cookie: None,
        csrf_token: None,
        content_type: None,
        referer: None,
        user_agent: None,
        accept: None,
        body: None,
    }
}

/// The positions of the servers that have players and room for more.
fn available_positions(servers: &Vec<ServerData>) -> (positions: Vec<usize>)
    ensures
        forall|k: int|
            0 <= k < positions@.len() ==> (#[trigger] positions@[k]) < servers@.len()
                && is_available(servers@[positions@[k] as int]),
        positions@.len() == 0 <==> forall|i: int|
            0 <= i < servers@.len() ==> !is_available(#[trigger] servers@[i]),
{
    let mut positions: Vec<usize> = Vec::new();
    let mut i: usize = 0;
    while i < servers.len()
        invariant
            i <= servers.len(),
            forall|k: int|
                0 <= k < positions@.len() ==> (#[trigger] positions@[k]) < servers@.len()
                    && is_available(servers@[positions@[k] as int]),
            positions@.len() == 0 <==> forall|j: int|
                0 <= j < i ==> !is_available(#[trigger] servers@[j]),
        decreases servers.len() - i,
    {
        if servers[i].has_players() && !servers[i].is_full() {
            positions.push(i);
            assert(is_available(servers@[i as int]));
        }
        i += 1;
    }
    positions
}

/// Picks at random, from one page of servers, a server that has players and
/// room for more, and gives its job id. Where no server is available the
/// result says so.
pub fn get_random_server(servers: &Vec<ServerData>) -> (id: Result<String, NexusError>)
    ensures
        match id {
            Ok(job) => exists|i: int|
                0 <= i < servers@.len() && is_available(#[trigger] servers@[i]) && job@
                    == servers@[i].id@,
            Err(error) => {
                &&& error@ == Failure::TransportFailure("No available servers found"@)
                &&& forall|i: int| 0 <= i < servers@.len() ==> !is_available(#[trigger] servers@[i])
            },
        },
{
    let positions = available_positions(servers);
    if positions.len() == 0 {
        return Err(NexusError::TransportFailure(String::from_str("No available servers found")));
    }
    let drawn = (random_u64() % (positions.len() as u64)) as usize;
    let position = positions[drawn];
    assert(is_available(servers@[position as int]));
    Ok(servers[position].id.clone())
}

} // verus!
