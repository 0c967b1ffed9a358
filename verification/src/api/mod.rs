//! The service: requests and answers, the handshake, the launch, and the
//! lists of servers.

pub mod api;
pub mod handshake;
pub mod http;
pub mod launch;
pub mod lookups;
pub mod private_server;
pub mod server_browser;

pub use api::{AccountInfo, RobloxApi};
pub use handshake::{AccountAction, ActionOutcome, BrokerCommand, BrokerEvent, BrokerState, Handshake};
pub use http::{HttpRequest, HttpResponse, Method, NamedValue};
pub use launch::{
    Launch, LaunchCommand, LaunchEvent, LaunchIntent, LaunchPhase, LaunchTarget, TargetKind,
};
pub use lookups::{GameCommand, GameLookup, GamePhase};
pub use private_server::{
    FavoriteServer, PrivateServerLink, VipServerData, VipServerOwner, VipServersResponse,
};
pub use server_browser::{
    ServerBrowser, ServerData, ServersResponse, SortColumn, SortDirection,
};
