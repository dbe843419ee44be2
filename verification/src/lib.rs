//! Background-presence layer of a desktop notification client: a status-tray
//! indicator reflecting unread state, and the synchronization core behind a
//! preferences surface that manages notification-server accounts.
//!
//! The crate holds the cross-context logic only: what the indicator renders
//! from the shared flags, what the main context decides on each activation,
//! how the account list is re-rendered from backend state, and how a modal
//! edit interaction is bridged into exactly one resolution. The toolkit
//! widgets, the shell-level tray protocol and the async backend transport
//! stay outside and feed this core plain values.

pub mod accounts;
pub mod bridge;
pub mod controller;
pub mod dispatch;
pub mod indicator;
pub mod settings;
