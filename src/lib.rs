//! Per-room playback session core of a voice-chat music player: the room
//! session table, the decisions of the session lifecycle, the track records
//! attached to queued items, and the replies of the command surface.
pub mod args;
pub mod laws;
pub mod reply;
pub mod session;
pub mod track;
