//! The session: stored cookies, the interactive login, and the singleton
//! lock.

pub mod cookie_finder;
pub mod multi_instance;
pub mod web_login;

pub use cookie_finder::{CookieFinder, FoundCookie};
pub use multi_instance::{AcquireOutcome, LockCommand, LockState, MultiInstanceManager};
pub use web_login::{BrowserStatus, LoginResult, WebLoginSession};
