//! Output-device management for a desktop audio player: the device listing,
//! the stream-mode decision, the player state that a live device switch
//! migrates, and the track and playlist data that a library scan produces.

pub mod device;
pub mod metadata;
pub mod paths;
pub mod player;
pub mod switch;
