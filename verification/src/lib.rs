//! Desktop media-session bridge for a music player: the rules by which playback
//! snapshots become MPRIS metadata or Now Playing information, and by which
//! media keys become control events.

pub mod artwork;
pub mod bridge;
pub mod control;
pub mod metadata;
pub mod now_playing;
pub mod payload;
pub mod session;
pub mod span;
pub mod text;
pub mod time;
