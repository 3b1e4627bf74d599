//! The browser session on the streaming platform.

pub mod browser;
pub mod login;

pub use browser::BrowserController;
pub use login::{handle_login, LoginMethod};
