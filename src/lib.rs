//! A borderless, timed notification popup: the wire format that lets a new
//! invocation hand its text to the window already on screen, the state machine
//! that decides when that window repaints and closes, and the small rules
//! around it (themes, placement, desktop-notification relaying).

pub mod display;
pub mod frame;
pub mod geometry;
pub mod notify;
pub mod session;
pub mod text;
pub mod theme;

pub use frame::{decode_frame, decode_received, encode_frame, parse_delay, NotificationUpdate, DEFAULT_DELAY};
pub use display::{line_breaks, DisplayState, LoopAction, LoopEvent, Phase, MILLIS_PER_SECOND};
pub use session::{count_lines, endpoint_path, is_running, plan_startup, requested_update, Startup, FORWARDED_DEFAULT_DELAY, SHOWN_DEFAULT_DELAY};
pub use text::{contains_text, same_text};
pub use theme::{fallback_colors, get_color, is_color_key, pywal, Pywal};
pub use geometry::{get_size, layout, window_origin, Layout, Rect};
pub use notify::{
    classify_notification, mentions_media_player, notification_for, process_discord_notification,
    refreshes_media, Hint, MediaInfo, NotificationData, Report,
};
