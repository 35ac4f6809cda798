//! Verified logic of a set of small hardware panels and a voice notepad.
//!
//! - `serial`: the lines that the slider panels send to their board, and
//!   when they send one.
//! - `replies`: what the panels make of the text the board sends back.
//! - `traffic`: the traffic light panel's state line, page answer and
//!   emergency stop.
//! - `audio`: the notepad's recorded samples and the format they are saved in.
//! - `notepad`: the notepad's screen as a state machine, and the
//!   transcriber's command line and answer.
//! - `text`: character helpers (Unicode trimming, splitting, decoding).
pub mod text;
pub mod serial;
pub mod replies;
pub mod traffic;
pub mod audio;
pub mod notepad;
