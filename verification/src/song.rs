//! Track records and the tag vocabulary the player reads from audio files.

use vstd::prelude::*;
use vstd::arithmetic::div_mod::{lemma_fundamental_div_mod, lemma_mod_division_less_than_divisor};
use vstd::string::StringSliceAdditionalSpecFns;
use vstd::utf8::{is_ascii_chars, is_ascii_chars_encode_utf8};

verus! {

/// Whether every character of `s` is a decimal digit.
pub open spec fn all_digit_chars(s: Seq<char>) -> bool {
    forall|i: int| 0 <= i < s.len() ==> '0' <= #[trigger] s[i] <= '9'
}

/// The number a sequence of decimal digit characters denotes.
pub open spec fn digits_value(s: Seq<char>) -> int
    decreases s.len(),
{
    if s.len() == 0 {
        0
    } else {
        digits_value(s.drop_last()) * 10 + (s.last() as int - '0' as int)
    }
}

/// What parsing a track or disc number yields: the denoted value for a
/// nonempty all-digit string that fits an `i32`, nothing otherwise.
pub open spec fn parsed_number(s: Seq<char>) -> Option<i32> {
    if s.len() > 0 && all_digit_chars(s) && digits_value(s) <= i32::MAX as int {
        Some(digits_value(s) as i32)
    } else {
        None
    }
}

proof fn lemma_digits_value_nonneg(s: Seq<char>)
    requires
        all_digit_chars(s),
    ensures
        0 <= digits_value(s),
    decreases s.len(),
{
    if s.len() > 0 {
        assert(all_digit_chars(s.drop_last()));
        lemma_digits_value_nonneg(s.drop_last());
    }
}

proof fn lemma_digits_value_prefix(s: Seq<char>, k: int)
    requires
        all_digit_chars(s),
        0 <= k <= s.len(),
    ensures
        digits_value(s.take(k)) <= digits_value(s),
    decreases s.len() - k,
{
    if k < s.len() {
        lemma_digits_value_prefix(s, k + 1);
        assert(s.take(k + 1).drop_last() =~= s.take(k));
        assert(all_digit_chars(s.take(k)));
        lemma_digits_value_nonneg(s.take(k));
    } else {
        assert(s.take(k) =~= s);
    }
}

/// Parses a track or disc number: a nonempty string of decimal digits whose
/// value fits an `i32`. Anything else, whether empty, holding a non-digit,
/// or denoting a value past `i32::MAX`, yields `None`.
pub fn parse_track_number(s: &str) -> (r: Option<i32>)
    ensures
        r == parsed_number(s@),
{
    if !s.is_ascii() {
        proof {
            let chars = s@;
            let j = choose|j: int| 0 <= j < chars.len() && !('\0' <= #[trigger] chars[j] <= '\u{7f}');
            assert(!('0' <= chars[j] <= '9'));
        }
        return None;
    }
    proof {
        is_ascii_chars_encode_utf8(s@);
    }
    let bytes = s.as_bytes();
    let n: usize = bytes.len();
    if n == 0 {
        return None;
    }
    let mut acc: i32 = 0;
    let mut i: usize = 0;
    while i < n
        invariant
            0 <= i <= n,
            n == bytes@.len(),
            bytes@ == s.spec_bytes(),
            is_ascii_chars(s@),
            s@.len() == n,
            forall|j: int| 0 <= j < i ==> '0' <= #[trigger] s@[j] <= '9',
            0 <= acc,
            acc as int == digits_value(s@.take(i as int)),
        decreases n - i,
    {
        let b: u8 = bytes[i];
        proof {
            is_ascii_chars_encode_utf8(s@);
            assert(b == s@[i as int] as u8);
            assert('\0' <= s@[i as int] <= '\u{7f}');
        }
        if b < 48 || b > 57 {
            proof {
                assert(!('0' <= s@[i as int] <= '9'));
            }
            return None;
        }
        let d: i32 = (b - 48) as i32;
        proof {
            lemma_fundamental_div_mod(i32::MAX as int - d, 10);
            lemma_mod_division_less_than_divisor(i32::MAX as int - d, 10);
            assert(s@.take(i as int + 1).drop_last() =~= s@.take(i as int));
            assert(s@.take(i as int + 1).last() == s@[i as int]);
        }
        if acc > (i32::MAX - d) / 10 {
            proof {
                if all_digit_chars(s@) {
                    lemma_digits_value_prefix(s@, i as int + 1);
                }
            }
            return None;
        }
        acc = acc * 10 + d;
        i = i + 1;
    }
    proof {
        assert(s@.take(n as int) =~= s@);
    }
    Some(acc)
}

/// A playable audio file plus the optional display metadata read from its
/// tags. The fields are independent; none is required, and none is
/// cross-checked against another.
#[derive(Debug, Clone)]
pub struct Song {
    pub name: Option<String>,
    pub album_artist: Option<String>,
    pub track_artist: Option<String>,
    pub recording_date: Option<String>,
    pub track_number: Option<i32>,
    pub disc_number: Option<i32>,
    pub album_name: Option<String>,
    pub path: String,
}

impl Song {
    /// A bare record for the file at `path`, with no metadata yet.
    pub fn new(path: String) -> (r: Song)
        ensures
            r.path == path,
            r.name is None,
            r.album_artist is None,
            r.track_artist is None,
            r.recording_date is None,
            r.track_number is None,
            r.disc_number is None,
            r.album_name is None,
    {
        Song {
            path,
            name: None,
            album_artist: None,
            track_artist: None,
            recording_date: None,
            track_number: None,
            disc_number: None,
            album_name: None,
        }
    }
}

/// The tag keys the player reads from a file's primary tag. Everything else
/// a tag may carry falls under `Other` and is ignored.
#[derive(Clone, Copy, Debug, PartialEq, Eq, Structural)]
pub enum TagKind {
    AlbumTitle,
    TrackTitle,
    AlbumArtist,
    TrackArtist,
    DiscNumber,
    TrackNumber,
    RecordingDate,
    Other,
}

/// Adds one tag item's content to a song record: title, artist, album and
/// date strings are stored as given, disc and track numbers are parsed from
/// their string form, and any other key leaves the record unchanged.
/// Intended to be folded over the tag items of a file.
pub fn fold_songs(song: Song, kind: TagKind, value: Option<String>) -> (r: Song)
    ensures
        match kind {
            TagKind::AlbumTitle => r == (Song { album_name: value, ..song }),
            TagKind::TrackTitle => r == (Song { name: value, ..song }),
            TagKind::AlbumArtist => r == (Song { album_artist: value, ..song }),
            TagKind::TrackArtist => r == (Song { track_artist: value, ..song }),
            TagKind::RecordingDate => r == (Song { recording_date: value, ..song }),
            TagKind::DiscNumber => r == (Song {
                disc_number: match value {
                    Some(v) => parsed_number(v@),
                    None => None,
                },
                ..song
            }),
            TagKind::TrackNumber => r == (Song {
                track_number: match value {
                    Some(v) => parsed_number(v@),
                    None => None,
                },
                ..song
            }),
            TagKind::Other => r == song,
        },
{
    match kind {
        TagKind::AlbumTitle => Song { album_name: value, ..song },
        TagKind::TrackTitle => Song { name: value, ..song },
        TagKind::AlbumArtist => Song { album_artist: value, ..song },
        TagKind::TrackArtist => Song { track_artist: value, ..song },
        TagKind::RecordingDate => Song { recording_date: value, ..song },
        TagKind::DiscNumber => {
            let parsed = match &value {
                Some(v) => parse_track_number(v.as_str()),
                None => None,
            };
            Song { disc_number: parsed, ..song }
        },
        TagKind::TrackNumber => {
            let parsed = match &value {
                Some(v) => parse_track_number(v.as_str()),
                None => None,
            };
            Song { track_number: parsed, ..song }
        },
        TagKind::Other => song,
    }
}

} // verus!
