//! Interactive worktree manager: the menu engine, the create and remove
//! workflows, and the text rules they rest on, as verified logic.

pub mod ai;
pub mod commands;
pub mod config;
pub mod create;
pub mod flow;
pub mod git;
pub mod i18n;
pub mod menu;
pub mod remove;
pub mod settings;
pub mod switch;
pub mod text;
