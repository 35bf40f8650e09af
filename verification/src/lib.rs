//! Playback coordination core of a small desktop music player.
//!
//! The library models the pieces of the player that carry real logic: the
//! normalized position used for progress reporting and seeking, the command
//! protocol between the user interface and the audio engine, the engine's
//! play-queue state machine, the seek bar's press/drag/release gesture
//! machine, and the engine-facing slice of the user-interface coordinator.
//! Device output, file decoding, tag reading and rendering stay outside, in
//! the surrounding application, which drives these machines and performs the
//! actions they request.

pub mod play_manager;
pub mod seeker;
pub mod song;
pub mod state;

pub use play_manager::PlayerManager;
pub use seeker::SeekPos;
pub use song::Song;
