//! Picks one of several configured VPN definition files from a numbered menu
//! and decides, step by step, what a run does: check privileges, create or
//! load the configuration, read a choice, and launch the VPN client.

pub mod config;
pub mod flow;
pub mod menu;
pub mod privilege;
pub mod text;
