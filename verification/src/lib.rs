//! Verified core of the palladium Discord client: the arRPC wire protocol and
//! session state machine, activity translation, configuration rules, theme and
//! script generation, and the local endpoint's routing decisions.

pub mod activity;
pub mod bridge;
pub mod config;
pub mod import;
pub mod inject;
pub mod json;
pub mod mods;
pub mod protocol;
pub mod proxy;
pub mod session;
pub mod text;
pub mod theme;
pub mod webkit;
pub mod window;
