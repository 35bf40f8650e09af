//! The coordinator slice: commands and script notes per user action, and
//! poll suppression while a drag is in progress.

use thump::play_manager::PlayerMessage;
use thump::seeker::SeekPos;
use thump::song::Song;
use thump::state::{Message, ScriptNote, State};

#[test]
fn new_coordinator_is_idle() {
    let s = State::new(Vec::new());
    assert!(!s.playing);
    assert!(!s.seeking);
    assert_eq!(s.seek_value.get(), 0);
    assert!(s.now_playing.is_none());
    assert!(s.should_poll());
}

#[test]
fn play_forwards_command_and_note() {
    let mut s = State::new(Vec::new());
    let out = s.update(Message::Play);
    assert!(matches!(out.command, Some(PlayerMessage::Play)));
    assert_eq!(out.script, Some(ScriptNote::Play));
    assert!(s.playing);
}

#[test]
fn pause_forwards_command_and_note() {
    let mut s = State::new(Vec::new());
    s.update(Message::Play);
    let out = s.update(Message::Pause);
    assert!(matches!(out.command, Some(PlayerMessage::Paus)));
    assert_eq!(out.script, Some(ScriptNote::Paus));
    assert!(!s.playing);
}

#[test]
fn next_and_prev_forward_commands_and_notes() {
    let mut s = State::new(Vec::new());
    let out = s.update(Message::Next);
    assert!(matches!(out.command, Some(PlayerMessage::Next)));
    assert_eq!(out.script, Some(ScriptNote::Next));
    let out = s.update(Message::Prev);
    assert!(matches!(out.command, Some(PlayerMessage::Prev)));
    assert_eq!(out.script, Some(ScriptNote::Prev));
}

#[test]
fn seek_changed_forwards_seek_with_note() {
    let mut s = State::new(Vec::new());
    let p = SeekPos::from_ppm(750_000);
    let out = s.update(Message::SeekChanged(p));
    match out.command {
        Some(PlayerMessage::Seek(q)) => assert_eq!(q.get(), 750_000),
        other => panic!("expected a seek command, got {:?}", other),
    }
    assert_eq!(out.script, Some(ScriptNote::Seek));
    assert_eq!(s.seek_value.get(), 750_000);
}

#[test]
fn song_selected_enqueues_without_note() {
    let mut s = State::new(Vec::new());
    let out = s.update(Message::SongSelected(Song::new("a.flac".to_string())));
    match out.command {
        Some(PlayerMessage::PlaySong(t)) => assert_eq!(t.path, "a.flac"),
        other => panic!("expected an enqueue command, got {:?}", other),
    }
    assert!(out.script.is_none());
}

#[test]
fn poll_tick_queries_only_while_idle() {
    let mut s = State::new(Vec::new());
    let out = s.update(Message::SeekUpdate);
    assert!(matches!(out.command, Some(PlayerMessage::GetPos)));
    assert!(out.script.is_none());

    s.update(Message::Seeking);
    assert!(!s.should_poll());
    let out = s.update(Message::SeekUpdate);
    assert!(out.command.is_none());

    s.update(Message::DoneSeeking);
    assert!(s.should_poll());
    let out = s.update(Message::SeekUpdate);
    assert!(matches!(out.command, Some(PlayerMessage::GetPos)));
}

#[test]
fn suppression_signals_toggle_polling() {
    let mut s = State::new(Vec::new());
    assert!(s.should_poll());
    let out = s.update(Message::Seeking);
    assert!(out.command.is_none());
    assert!(out.script.is_none());
    assert!(s.seeking);
    let out = s.update(Message::DoneSeeking);
    assert!(out.command.is_none());
    assert!(out.script.is_none());
    assert!(!s.seeking);
}

#[test]
fn position_result_updates_only_while_idle() {
    let mut s = State::new(Vec::new());
    s.position_received(SeekPos::from_ppm(300_000));
    assert_eq!(s.seek_value.get(), 300_000);

    // A result arriving mid-drag is discarded: no snap-back.
    s.update(Message::Seeking);
    s.position_received(SeekPos::from_ppm(900_000));
    assert_eq!(s.seek_value.get(), 300_000);

    s.update(Message::DoneSeeking);
    s.position_received(SeekPos::from_ppm(100_000));
    assert_eq!(s.seek_value.get(), 100_000);
}

#[test]
fn script_note_wire_forms() {
    assert_eq!(ScriptNote::Play.text(), "play");
    assert_eq!(ScriptNote::Paus.text(), "paus");
    assert_eq!(ScriptNote::Stop.text(), "stop");
    assert_eq!(ScriptNote::Seek.text(), "seek");
    assert_eq!(ScriptNote::Next.text(), "next");
    assert_eq!(ScriptNote::Prev.text(), "prev");
}
