//! Verified core of hyprswitch: the Hyprland Lua script that the config
//! file turns into, the binds of the switching submap, and the decisions
//! of the switch to the selected window, workspace or monitor.
pub mod text;
pub mod config;
pub mod generate;
pub mod submap;
pub mod exec;
pub mod gui;
