//! Core logic of a terminal MML (Music Macro Language) editor that plays what
//! the user types: the diff between successive text snapshots, the detection
//! of playable note letters, the preset template catalog, and the edit-session
//! state machine that decides what (if anything) to send to playback.

pub mod event;
pub mod mml;
pub mod session;
pub mod template;
