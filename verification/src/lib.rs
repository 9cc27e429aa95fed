//! Verified core of babelmap's terminal front-end: key bindings, dialog state
//! machines, the decisions of the run loop around a game turn, save-slot naming
//! and ordering, the text dump of the map, the launch options, the period look,
//! the frame's pane geometry and the `[more]` pager.

pub mod pager;
pub mod text;
pub mod persist;
pub mod calendar;
pub mod keys;
pub mod keymap;
pub mod hints;
pub mod dialogs;
pub mod turns;
pub mod map_dump;
pub mod launch_options;
pub mod period;
pub mod native_font;
pub mod layout;
pub mod overlays;
pub mod ingame_io;
pub mod save_flow;
pub mod hint_session;
pub mod command_status;
pub mod slash_dispatch;
