//! The engine-facing slice of the user-interface coordinator: it turns
//! user-interface events into engine commands and script-hook
//! notifications, suppresses position polling while a drag is in progress,
//! and keeps a best-effort rendering mirror of the play state.

use vstd::prelude::*;
use crate::play_manager::PlayerMessage;
use crate::seeker::SeekPos;
use crate::song::Song;

verus! {

/// The user-interface events the coordinator reacts to.
#[derive(Debug, Clone)]
pub enum Message {
    Play,
    Pause,
    Next,
    Prev,
    SeekUpdate,
    SeekChanged(SeekPos),
    Seeking,
    DoneSeeking,
    SongSelected(Song),
}

/// The notification mirrored to the script hook after a committed action.
/// The stream is fire-and-forget: no reply, no backpressure, and a hook
/// that drops or blocks must never hold up playback.
#[derive(Clone, Copy, Debug, PartialEq, Eq, Structural)]
pub enum ScriptNote {
    Play,
    Paus,
    Stop,
    Seek,
    Next,
    Prev,
}

impl ScriptNote {
    /// The wire form of the notification.
    pub fn text(self) -> (r: &'static str)
        ensures
            self is Play ==> r@ == "play"@,
            self is Paus ==> r@ == "paus"@,
            self is Stop ==> r@ == "stop"@,
            self is Seek ==> r@ == "seek"@,
            self is Next ==> r@ == "next"@,
            self is Prev ==> r@ == "prev"@,
    {
        match self {
            ScriptNote::Play => "play",
            ScriptNote::Paus => "paus",
            ScriptNote::Stop => "stop",
            ScriptNote::Seek => "seek",
            ScriptNote::Next => "next",
            ScriptNote::Prev => "prev",
        }
    }
}

/// What one coordinator step asks the application to do: send a command to
/// the engine, and mirror a notification to the script hook. Either may be
/// absent; performing them is the application's business.
#[derive(Debug)]
pub struct UiOutput {
    pub command: Option<PlayerMessage>,
    pub script: Option<ScriptNote>,
}

/// The coordinator's state. `playing` and `seek_value` mirror the engine
/// for rendering only and are never authoritative; `seeking` records
/// whether a seek-bar drag is in progress and so whether polling is
/// suppressed.
pub struct State {
    pub playing: bool,
    pub seeking: bool,
    pub seek_value: SeekPos,
    pub songs: Vec<Song>,
    pub now_playing: Option<Song>,
}

impl State {
    /// A fresh coordinator over the scanned library.
    pub fn new(songs: Vec<Song>) -> (r: State)
        ensures
            r.playing == false,
            r.seeking == false,
            r.seek_value@ == 0,
            r.songs@ == songs@,
            r.now_playing is None,
    {
        State {
            playing: false,
            seeking: false,
            seek_value: SeekPos::zero(),
            songs,
            now_playing: None,
        }
    }

    /// Whether the periodic position poll should run this tick: only while
    /// no drag is in progress, so a poll result can never overwrite an
    /// in-progress drag.
    pub fn should_poll(&self) -> (r: bool)
        ensures
            r == !self.seeking,
    {
        !self.seeking
    }

    /// React to one user-interface event: update the rendering mirror and
    /// say which engine command to send and which notification to mirror.
    pub fn update(&mut self, msg: Message) -> (r: UiOutput)
        ensures
            match msg {
                Message::Play => {
                    &&& *final(self) == (State { playing: true, ..*old(self) })
                    &&& r.command == Some(PlayerMessage::Play)
                    &&& r.script == Some(ScriptNote::Play)
                },
                Message::Pause => {
                    &&& *final(self) == (State { playing: false, ..*old(self) })
                    &&& r.command == Some(PlayerMessage::Paus)
                    &&& r.script == Some(ScriptNote::Paus)
                },
                Message::Next => {
                    &&& *final(self) == *old(self)
                    &&& r.command == Some(PlayerMessage::Next)
                    &&& r.script == Some(ScriptNote::Next)
                },
                Message::Prev => {
                    &&& *final(self) == *old(self)
                    &&& r.command == Some(PlayerMessage::Prev)
                    &&& r.script == Some(ScriptNote::Prev)
                },
                Message::SeekUpdate => {
                    &&& *final(self) == *old(self)
                    &&& r.command == (if !old(self).seeking {
                        Some(PlayerMessage::GetPos)
                    } else {
                        None
                    })
                    &&& r.script is None
                },
                Message::SeekChanged(v) => {
                    &&& *final(self) == (State { seek_value: v, ..*old(self) })
                    &&& r.command == Some(PlayerMessage::Seek(v))
                    &&& r.script == Some(ScriptNote::Seek)
                },
                Message::Seeking => {
                    &&& *final(self) == (State { seeking: true, ..*old(self) })
                    &&& r.command is None
                    &&& r.script is None
                },
                Message::DoneSeeking => {
                    &&& *final(self) == (State { seeking: false, ..*old(self) })
                    &&& r.command is None
                    &&& r.script is None
                },
                Message::SongSelected(s) => {
                    &&& *final(self) == *old(self)
                    &&& r.command == Some(PlayerMessage::PlaySong(s))
                    &&& r.script is None
                },
            },
    {
        match msg {
            Message::Play => {
                self.playing = true;
                UiOutput {
                    command: Some(PlayerMessage::Play),
                    script: Some(ScriptNote::Play),
                }
            },
            Message::Pause => {
                self.playing = false;
                UiOutput {
                    command: Some(PlayerMessage::Paus),
                    script: Some(ScriptNote::Paus),
                }
            },
            Message::Next => UiOutput {
                command: Some(PlayerMessage::Next),
                script: Some(ScriptNote::Next),
            },
            Message::Prev => UiOutput {
                command: Some(PlayerMessage::Prev),
                script: Some(ScriptNote::Prev),
            },
            Message::SeekUpdate => {
                let command = if !self.seeking {
                    Some(PlayerMessage::GetPos)
                } else {
                    None
                };
                UiOutput { command, script: None }
            },
            Message::SeekChanged(v) => {
                self.seek_value = v;
                UiOutput {
                    command: Some(PlayerMessage::Seek(v)),
                    script: Some(ScriptNote::Seek),
                }
            },
            Message::Seeking => {
                self.seeking = true;
                UiOutput { command: None, script: None }
            },
            Message::DoneSeeking => {
                self.seeking = false;
                UiOutput { command: None, script: None }
            },
            Message::SongSelected(s) => UiOutput {
                command: Some(PlayerMessage::PlaySong(s)),
                script: None,
            },
        }
    }

    /// The continuation result of a position query. While no drag is in
    /// progress the displayed position follows the engine; a result that
    /// arrives mid-drag is discarded, so polling can never overwrite the
    /// drag.
    pub fn position_received(&mut self, pos: SeekPos)
        ensures
            old(self).seeking ==> *final(self) == *old(self),
            !old(self).seeking ==> *final(self) == (State { seek_value: pos, ..*old(self) }),
    {
        if !self.seeking {
            self.seek_value = pos;
        }
    }
}

} // verus!
