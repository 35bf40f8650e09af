//! Track records: bare construction, the tag fold, and number parsing.

use thump::song::{fold_songs, parse_track_number, Song, TagKind};

#[test]
fn new_song_has_no_metadata() {
    let s = Song::new("x/y.flac".to_string());
    assert_eq!(s.path, "x/y.flac");
    assert!(s.name.is_none());
    assert!(s.album_artist.is_none());
    assert!(s.track_artist.is_none());
    assert!(s.recording_date.is_none());
    assert!(s.track_number.is_none());
    assert!(s.disc_number.is_none());
    assert!(s.album_name.is_none());
}

#[test]
fn fold_fills_the_fields_it_knows() {
    let s = Song::new("x.flac".to_string());
    let s = fold_songs(s, TagKind::TrackTitle, Some("Title".to_string()));
    let s = fold_songs(s, TagKind::AlbumTitle, Some("Album".to_string()));
    let s = fold_songs(s, TagKind::AlbumArtist, Some("Album Artist".to_string()));
    let s = fold_songs(s, TagKind::TrackArtist, Some("Artist".to_string()));
    let s = fold_songs(s, TagKind::RecordingDate, Some("2001-02-03".to_string()));
    let s = fold_songs(s, TagKind::TrackNumber, Some("7".to_string()));
    let s = fold_songs(s, TagKind::DiscNumber, Some("2".to_string()));

    assert_eq!(s.name.as_deref(), Some("Title"));
    assert_eq!(s.album_name.as_deref(), Some("Album"));
    assert_eq!(s.album_artist.as_deref(), Some("Album Artist"));
    assert_eq!(s.track_artist.as_deref(), Some("Artist"));
    assert_eq!(s.recording_date.as_deref(), Some("2001-02-03"));
    assert_eq!(s.track_number, Some(7));
    assert_eq!(s.disc_number, Some(2));
    assert_eq!(s.path, "x.flac");
}

#[test]
fn fold_ignores_other_keys() {
    let s = Song::new("x.flac".to_string());
    let s = fold_songs(s, TagKind::TrackTitle, Some("Kept".to_string()));
    let s = fold_songs(s, TagKind::Other, Some("Dropped".to_string()));
    assert_eq!(s.name.as_deref(), Some("Kept"));
    assert!(s.album_name.is_none());
}

#[test]
fn fold_with_an_unparsable_number_skips_it() {
    let s = Song::new("x.flac".to_string());
    let s = fold_songs(s, TagKind::TrackNumber, Some("7/12".to_string()));
    assert!(s.track_number.is_none());
    let s = fold_songs(s, TagKind::DiscNumber, None);
    assert!(s.disc_number.is_none());
}

#[test]
fn parse_plain_numbers() {
    assert_eq!(parse_track_number("0"), Some(0));
    assert_eq!(parse_track_number("7"), Some(7));
    assert_eq!(parse_track_number("42"), Some(42));
    assert_eq!(parse_track_number("007"), Some(7));
}

#[test]
fn parse_rejects_empty_and_non_digits() {
    assert_eq!(parse_track_number(""), None);
    assert_eq!(parse_track_number("12a"), None);
    assert_eq!(parse_track_number("-3"), None);
    assert_eq!(parse_track_number("+3"), None);
    assert_eq!(parse_track_number("1 2"), None);
    assert_eq!(parse_track_number("sieben"), None);
}

#[test]
fn parse_rejects_non_ascii() {
    assert_eq!(parse_track_number("７"), None); // a fullwidth digit
    assert_eq!(parse_track_number("sept\u{00e8}me"), None);
}

#[test]
fn parse_at_the_i32_boundary() {
    assert_eq!(parse_track_number("2147483647"), Some(i32::MAX));
    assert_eq!(parse_track_number("2147483648"), None);
    assert_eq!(parse_track_number("99999999999999999999"), None);
}
