//! Reaction-driven role menus: reacting with a custom emoji on a role-menu message grants the
//! guild role named like the emoji, removing the reaction revokes it, and a command toggles a
//! fixed set of roles on the member who invokes it.
//!
//! Every decision is a verified function of plain values; the platform calls themselves are
//! made by the caller, which hands the answers back.

pub mod command;
pub mod config;
pub mod reaction;
pub mod roles;
pub mod text;
