//! A line-protocol agent core: it parses inbound command lines, decodes them
//! into typed commands, keeps the agent configuration and formats the
//! outbound protocol lines.
//!
//! Keywords carry a leading dot. Inbound: `.PUBLISH <agent> <channel> <json>`,
//! `.IN <agent> <channel> <json>`, `.CONFIG <json-object>` and `.QUIT`.
//! Outbound: `.CONFIG_SCHEMA <schema>`, `.CONFIG <json>`, `.SUBSCRIBE <channel>`
//! and `.WRITE <channel> <json-object>`.
pub mod command;
pub mod config;
pub mod dispatch;
pub mod json;
pub mod outbound;
pub mod protocol;
pub mod text;
