//! Deciding whether and how the player's traffic is proxied, and what each
//! settings command does, with every decision stated and proved.
#![allow(unused_imports)]

pub mod app_state;
pub mod cell_laws;
pub mod command_laws;
pub mod commands;
pub mod files;
pub mod image;
pub mod ipv6;
pub mod ipv6_laws;
pub mod laws;
pub mod plan_laws;
pub mod proxy;
pub mod proxy_commands;
pub mod proxy_http;
pub mod script;
pub mod settings;
pub mod startup;
pub mod text;
pub mod text_laws;
pub mod update_laws;
