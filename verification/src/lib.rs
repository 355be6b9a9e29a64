//! Core of a terminal music player: a verified playback controller that
//! drives continuous audio rendering from decoded track bytes while exposing
//! transport controls (play/pause/stop/seek/forward/rewind/speed/volume)
//! that take effect on audio already in flight inside the render pipeline.

pub mod context;
pub mod event;
pub mod player;
pub mod track;
pub mod ui;
