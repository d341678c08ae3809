//! Verified decision logic of the HDesk desktop platform layer.
//!
//! - `geometry`, `focus_hint`: rectangles, displays and the editable focus
//!   hint shared by the Windows and macOS focus logic.
//! - `win_focus`, `win_sticky`, `win_probe`, `win_uia`, `win_uia_probe`,
//!   `win_resolve`: the Windows editable-focus poller (heuristics,
//!   remembered hints, the UI Automation stages and their order, and the
//!   decision of one poll).
//! - `mac_focus`: the macOS accessibility-based focus hint.
//! - `cursor_mask`: repair of colour cursor masks.
//! - `updater`: update URLs, assets, downloads and the update loop.
//! - `wmic`, `sessions`, `resolutions`, `win_install`, `win_scripts`,
//!   `win_service`, `win_util`, `mac_util`: readers of system tool output,
//!   session lists, display modes, the install, update and service scripts,
//!   the service loop and small helpers.
//! - `text`: character-sequence helpers with their specifications.

pub mod geometry;
pub mod text;
pub mod focus_hint;
pub mod win_focus;
pub mod win_sticky;
pub mod win_probe;
pub mod win_resolve;
pub mod win_uia;
pub mod win_uia_probe;
pub mod mac_focus;
pub mod updater;
pub mod cursor_mask;
pub mod wmic;
pub mod sessions;
pub mod win_install;
pub mod win_scripts;
pub mod win_service;
pub mod resolutions;
pub mod win_util;
pub mod mac_util;
