use vstd::prelude::*;

use crate::fields::{
    consume_flag, decimal_text, flag_text, format_optional_duration, optional_duration_text,
    push_decimal, random_flag, repeat_flag, single_flag,
};

verus! {

/// What the player is doing.
#[derive(Clone, Copy, Debug, PartialEq, Eq, Structural)]
pub enum PlayState {
    Playing,
    Paused,
    Stopped,
}

/// The player's status as one query returned it.
#[derive(Clone, Copy, Debug, PartialEq, Eq, Structural)]
pub struct RemoteStatus {
    pub repeat: bool,
    pub random: bool,
    pub single: bool,
    pub consume: bool,
    pub state: PlayState,
    /// Time played of the current track, in whole seconds.
    pub elapsed: Option<u64>,
    pub volume: i8,
}

/// The track that is queued to play.
#[derive(Clone, Debug)]
pub struct RemoteTrack {
    /// The file that holds the track; stands in for a missing title.
    pub file: String,
    pub title: Option<String>,
    pub artist: Option<String>,
    /// Length of the track, in whole seconds.
    pub duration: Option<u64>,
}

/// The placeholders that a format template can name.
#[derive(Clone, Copy, Debug, PartialEq, Eq, Structural)]
pub enum Field {
    Repeat,
    Random,
    Single,
    Consume,
    Artist,
    Title,
    Elapsed,
    Length,
    PlaybackInfo,
    Volume,
}

/// The title shown: the track's title, else its file, else nothing.
pub open spec fn title_text(track: Option<RemoteTrack>) -> Seq<char> {
    match track {
        Some(t) => match t.title {
            Some(title) => title@,
            None => t.file@,
        },
        None => Seq::empty(),
    }
}

/// The artist shown: the track's artist, else `unknown artist`, else nothing.
pub open spec fn artist_text(track: Option<RemoteTrack>) -> Seq<char> {
    match track {
        Some(t) => match t.artist {
            Some(artist) => artist@,
            None => "unknown artist"@,
        },
        None => Seq::empty(),
    }
}

/// The length shown: the track's duration, else nothing.
pub open spec fn length_text(track: Option<RemoteTrack>) -> Seq<char> {
    match track {
        Some(t) => optional_duration_text(t.duration),
        None => Seq::empty(),
    }
}

/// `elapsed/length` while playing, `paused` or `stopped` otherwise.
pub open spec fn playback_text(status: RemoteStatus, track: Option<RemoteTrack>) -> Seq<char> {
    match status.state {
        PlayState::Playing => optional_duration_text(status.elapsed) + seq!['/'] + length_text(track),
        PlayState::Paused => "paused"@,
        PlayState::Stopped => "stopped"@,
    }
}

/// The decimal writing of a signed integer.
pub open spec fn signed_text(v: int) -> Seq<char> {
    if v < 0 {
        seq!['-'] + decimal_text((-v) as nat)
    } else {
        decimal_text(v as nat)
    }
}

/// What a placeholder stands for, given the status and the queued track.
pub open spec fn field_text(f: Field, status: RemoteStatus, track: Option<RemoteTrack>) -> Seq<char> {
    match f {
        Field::Repeat => flag_text(status.repeat, 'R'),
        Field::Random => flag_text(status.random, 'Z'),
        Field::Single => flag_text(status.single, 'S'),
        Field::Consume => flag_text(status.consume, 'C'),
        Field::Artist => artist_text(track),
        Field::Title => title_text(track),
        Field::Elapsed => optional_duration_text(status.elapsed),
        Field::Length => length_text(track),
        Field::PlaybackInfo => playback_text(status, track),
        Field::Volume => signed_text(status.volume as int),
    }
}

/// The text of every placeholder for one render.
pub struct StatusFields {
    pub repeat: String,
    pub random: String,
    pub single: String,
    pub consume: String,
    pub artist: String,
    pub title: String,
    pub elapsed: String,
    pub length: String,
    pub playback_info: String,
    pub volume: String,
}

impl StatusFields {
    /// The text that stands for `f`.
    pub open spec fn text_of(&self, f: Field) -> Seq<char> {
        match f {
            Field::Repeat => self.repeat@,
            Field::Random => self.random@,
            Field::Single => self.single@,
            Field::Consume => self.consume@,
            Field::Artist => self.artist@,
            Field::Title => self.title@,
            Field::Elapsed => self.elapsed@,
            Field::Length => self.length@,
            Field::PlaybackInfo => self.playback_info@,
            Field::Volume => self.volume@,
        }
    }

    /// Holds the texts derived from `status` and `track`.
    pub open spec fn derived_from(&self, status: RemoteStatus, track: Option<RemoteTrack>) -> bool {
        forall|f: Field| #[trigger] self.text_of(f) == field_text(f, status, track)
    }

    /// The text that stands for `f`.
    pub fn get(&self, f: Field) -> (r: &String)
        ensures
            r@ == self.text_of(f),
    {
        match f {
            Field::Repeat => &self.repeat,
            Field::Random => &self.random,
            Field::Single => &self.single,
            Field::Consume => &self.consume,
            Field::Artist => &self.artist,
            Field::Title => &self.title,
            Field::Elapsed => &self.elapsed,
            Field::Length => &self.length,
            Field::PlaybackInfo => &self.playback_info,
            Field::Volume => &self.volume,
        }
    }

    /// Derives every placeholder's text; a missing value gives its fallback.
    pub fn derive(status: &RemoteStatus, track: &Option<RemoteTrack>) -> (r: StatusFields)
        ensures
            r.derived_from(*status, *track),
    {
        let title = track_title(track);
        let artist = track_artist(track);
        let elapsed = format_optional_duration(status.elapsed);
        let length = track_length(track);
        let playback_info = playback_info(status, track);
        let volume = volume_text(status.volume);
        let r = StatusFields {
            repeat: repeat_flag(status.repeat),
            random: random_flag(status.random),
            single: single_flag(status.single),
            consume: consume_flag(status.consume),
            artist,
            title,
            elapsed,
            length,
            playback_info,
            volume,
        };
        assert forall|f: Field| #[trigger] r.text_of(f) == field_text(f, *status, *track) by {
            match f {
                _ => {},
            }
        }
        r
    }
}

/// The title shown for the queued track.
pub fn track_title(track: &Option<RemoteTrack>) -> (r: String)
    ensures
        r@ == title_text(*track),
{
    match track {
        Some(t) => match &t.title {
            Some(title) => title.clone(),
            None => t.file.clone(),
        },
        None => String::new(),
    }
}

/// The artist shown for the queued track.
pub fn track_artist(track: &Option<RemoteTrack>) -> (r: String)
    ensures
        r@ == artist_text(*track),
{
    match track {
        Some(t) => match &t.artist {
            Some(artist) => artist.clone(),
            None => String::from_str("unknown artist"),
        },
        None => String::new(),
    }
}

/// The length shown for the queued track.
pub fn track_length(track: &Option<RemoteTrack>) -> (r: String)
    ensures
        r@ == length_text(*track),
{
    match track {
        Some(t) => format_optional_duration(t.duration),
        None => String::new(),
    }
}

/// The playback text: `elapsed/length`, `paused` or `stopped`.
pub fn playback_info(status: &RemoteStatus, track: &Option<RemoteTrack>) -> (r: String)
    ensures
        r@ == playback_text(*status, *track),
{
    match status.state {
        PlayState::Playing => {
            let mut out = format_optional_duration(status.elapsed);
            out.append("/");
            let length = track_length(track);
            out.append(length.as_str());
            proof {
                reveal_strlit("/");
            }
            out
        },
        PlayState::Paused => String::from_str("paused"),
        PlayState::Stopped => String::from_str("stopped"),
    }
}

/// The volume as a decimal number.
pub fn volume_text(v: i8) -> (r: String)
    ensures
        r@ == signed_text(v as int),
{
    let mut out = String::new();
    if v < 0 {
        out.append("-");
        let m: u64 = (0 - (v as i64)) as u64;
        push_decimal(&mut out, m);
        proof {
            reveal_strlit("-");
        }
    } else {
        push_decimal(&mut out, v as u64);
    }
    out
}

} // verus!
