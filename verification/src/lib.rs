//! Verified core of a JSON-editor desktop shell: the persisted preferences
//! record with its JSON codec, and the pure decision logic behind update
//! orchestration, menu/tray dispatch, and application bootstrap.
pub mod conf;
pub mod json;
pub mod menu;
pub mod setup;
pub mod update;
pub mod utils;
