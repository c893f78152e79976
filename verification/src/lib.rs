//! Verified core of a terminal price monitor: the settings model, the menu
//! and dialog state machines, the token table, and the text the screens show.

pub mod view_type;
pub mod audio;
pub mod config_run;
pub mod dialog;
pub mod keys;
pub mod launch;
pub mod menu;
pub mod monitor;
pub mod options;
pub mod screen_text;
pub mod text;
pub mod tokens;
