//! Accounts as they are kept: status, presence, and the saved list.

use vstd::prelude::*;

verus! {

/// A colour as red, green and blue.
pub type Rgb = (u8, u8, u8);

/// What is known of an account's session.
#[derive(Clone, Copy, Debug, PartialEq, Eq, Structural)]
pub enum AccountStatus {
    NotVerified,
    Valid,
    Invalid,
    Requires2FA,
}

/// The label of each status.
pub open spec fn status_label(status: AccountStatus) -> Seq<char> {
    match status {
        AccountStatus::NotVerified => "Not Verified"@,
        AccountStatus::Valid => "Valid"@,
        AccountStatus::Invalid => "Invalid"@,
        AccountStatus::Requires2FA => "2FA Required"@,
    }
}

/// The colour of each status.
pub open spec fn status_color(status: AccountStatus) -> Rgb {
    match status {
        AccountStatus::NotVerified => (120u8, 120u8, 130u8),
        AccountStatus::Valid => (80u8, 200u8, 120u8),
        AccountStatus::Invalid => (220u8, 80u8, 80u8),
        AccountStatus::Requires2FA => (230u8, 180u8, 80u8),
    }
}

impl AccountStatus {
    /// The label shown for this status.
    pub fn label(&self) -> (text: &'static str)
        ensures
            text@ == status_label(*self),
    {
        match self {
            AccountStatus::NotVerified => "Not Verified",
            AccountStatus::Valid => "Valid",
            AccountStatus::Invalid => "Invalid",
            AccountStatus::Requires2FA => "2FA Required",
        }
    }

    /// The colour shown for this status.
    pub fn color(&self) -> (rgb: Rgb)
        ensures
            rgb == status_color(*self),
    {
        match self {
            AccountStatus::NotVerified => (120, 120, 130),
            AccountStatus::Valid => (80, 200, 120),
            AccountStatus::Invalid => (220, 80, 80),
            AccountStatus::Requires2FA => (230, 180, 80),
        }
    }
}

impl Default for AccountStatus {
    fn default() -> (status: Self)
        ensures
            status == AccountStatus::NotVerified,
    {
        AccountStatus::NotVerified
    }
}

/// Where a user is, as the presence service tells.
#[derive(Clone, Copy, Debug, PartialEq, Eq, Structural)]
pub enum UserPresenceType {
    Offline,
    Online,
    InGame,
    InStudio,
}

/// The label of each presence.
pub open spec fn presence_label(presence: UserPresenceType) -> Seq<char> {
    match presence {
        UserPresenceType::Offline => "Offline"@,
        UserPresenceType::Online => "Online"@,
        UserPresenceType::InGame => "In Game"@,
        UserPresenceType::InStudio => "In Studio"@,
    }
}

/// The colour of each presence.
pub open spec fn presence_color(presence: UserPresenceType) -> Rgb {
    match presence {
        UserPresenceType::Offline => (120u8, 120u8, 130u8),
        UserPresenceType::Online => (0u8, 162u8, 255u8),
        UserPresenceType::InGame => (2u8, 183u8, 87u8),
        UserPresenceType::InStudio => (70u8, 41u8, 216u8),
    }
}

/// The presence for each code of the presence service: one, two and three
/// are online, in game and in studio; every other code is offline.
pub open spec fn presence_of(code: u8) -> UserPresenceType {
    if code == 1 {
        UserPresenceType::Online
    } else if code == 2 {
        UserPresenceType::InGame
    } else if code == 3 {
        UserPresenceType::InStudio
    } else {
        UserPresenceType::Offline
    }
}

impl UserPresenceType {
    /// The label shown for this presence.
    pub fn label(&self) -> (text: &'static str)
        ensures
            text@ == presence_label(*self),
    {
        match self {
            UserPresenceType::Offline => "Offline",
            UserPresenceType::Online => "Online",
            UserPresenceType::InGame => "In Game",
            UserPresenceType::InStudio => "In Studio",
        }
    }

    /// The colour shown for this presence.
    pub fn color(&self) -> (rgb: Rgb)
        ensures
            rgb == presence_color(*self),
    {
        match self {
            UserPresenceType::Offline => (120, 120, 130),
            UserPresenceType::Online => (0, 162, 255),
            UserPresenceType::InGame => (2, 183, 87),
            UserPresenceType::InStudio => (70, 41, 216),
        }
    }

    /// The presence for a code of the presence service.
    pub fn from_int(val: u8) -> (presence: Self)
        ensures
            presence == presence_of(val),
    {
        match val {
            1 => UserPresenceType::Online,
            2 => UserPresenceType::InGame,
            3 => UserPresenceType::InStudio,
            _ => UserPresenceType::Offline,
        }
    }
}

impl Default for UserPresenceType {
    fn default() -> (presence: Self)
        ensures
            presence == UserPresenceType::Offline,
    {
        UserPresenceType::Offline
    }
}

/// Where a user was last seen.
#[derive(Clone, Debug, PartialEq, Eq)]
pub struct UserPresence {
    pub presence_type: UserPresenceType,
    pub last_location: Option<String>,
    pub place_id: Option<u64>,
    pub game_id: Option<String>,
    pub last_online: Option<String>,
    pub game_name: Option<String>,
}

/// A presence with its texts as sequences of characters.
pub struct PresenceText {
    pub presence_type: UserPresenceType,
    pub last_location: Option<Seq<char>>,
    pub place_id: Option<u64>,
    pub game_id: Option<Seq<char>>,
    pub last_online: Option<Seq<char>>,
    pub game_name: Option<Seq<char>>,
}

/// An optional text as an optional sequence of characters.
pub open spec fn text_of(text: Option<String>) -> Option<Seq<char>> {
    match text {
        Some(t) => Some(t@),
        None => None,
    }
}

impl View for UserPresence {
    type V = PresenceText;

    open spec fn view(&self) -> PresenceText {
        PresenceText {
            presence_type: self.presence_type,
            last_location: text_of(self.last_location),
            place_id: self.place_id,
            game_id: text_of(self.game_id),
            last_online: text_of(self.last_online),
            game_name: text_of(self.game_name),
        }
    }
}

/// One saved account.
#[derive(Clone, Debug, PartialEq, Eq)]
pub struct RobloxAccount {
    pub username: String,
    pub password: String,
    pub cookie: Option<String>,
    pub user_id: Option<u64>,
    pub display_name: Option<String>,
    pub last_login: Option<String>,
    pub status: AccountStatus,
    pub notes: String,
    pub group: String,
    pub robux: Option<i64>,
    pub friends_count: Option<u32>,
    pub is_premium: Option<bool>,
    pub collectibles_count: Option<u32>,
    pub last_info_fetch: Option<String>,
    pub avatar_url: Option<String>,
    pub presence: Option<UserPresence>,
}

/// A game that was played lately.
#[derive(Clone, Debug, PartialEq, Eq)]
pub struct RecentGame {
    pub place_id: String,
    pub name: String,
    pub last_played: String,
    pub play_count: u32,
}

/// A game that the user added.
#[derive(Clone, Debug, PartialEq, Eq)]
pub struct UserGame {
    pub place_id: String,
    pub name: String,
    pub universe_id: Option<u64>,
}

/// Everything that is saved between runs.
#[derive(Clone, Debug, PartialEq, Eq)]
pub struct AppData {
    pub accounts: Vec<RobloxAccount>,
    pub last_place_id: String,
    pub favorite_games: Vec<String>,
    pub multi_instance_enabled: bool,
    pub recent_games: Vec<RecentGame>,
    pub user_games: Vec<UserGame>,
    pub auto_refresh_cookies: bool,
    pub batch_launch_delay: u32,
    pub minimize_to_tray: bool,
}

impl Default for AppData {
    /// The data of a first run: nothing saved, every switch off.
    fn default() -> (data: Self)
        ensures
            data.accounts@.len() == 0,
            data.last_place_id@.len() == 0,
            data.favorite_games@.len() == 0,
            !data.multi_instance_enabled,
            data.recent_games@.len() == 0,
            data.user_games@.len() == 0,
            !data.auto_refresh_cookies,
            data.batch_launch_delay == 0,
            !data.minimize_to_tray,
    {
        AppData {
            accounts: Vec::new(),
            last_place_id: String::new(),
            favorite_games: Vec::new(),
            multi_instance_enabled: false,
            recent_games: Vec::new(),
            user_games: Vec::new(),
            auto_refresh_cookies: false,
            batch_launch_delay: 0,
            minimize_to_tray: false,
        }
    }
}

} // verus!
