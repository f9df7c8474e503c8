//! Configuration synthesis for a VPN connect/disconnect hook.
//!
//! The hook is started by a VPN client with the parameters of the connection
//! in its environment. This library holds everything the hook decides:
//! how the variables become a typed [`config::Config`] and its split routes,
//! what the `systemd-networkd` unit for the tunnel device looks like, which
//! step each reason asks for, and where the `networkctl` binary is looked for.
//! Reading the environment, touching the file system and spawning the reload
//! are left to the caller, who is handed plain values to act on.

pub mod text;
pub mod lines;
pub mod vars;
pub mod config;
pub mod render;
pub mod default_route;
pub mod process;
pub mod networkctl;
