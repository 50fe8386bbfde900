//! From what a file's tags and its audio stream hold to the metadata of the song.
//! The library does not read the file: its caller hands in what was read.

use vstd::prelude::*;
use crate::model::data_model::{Song, SongMetadata};

verus! {

/// The tags of a file, as far as it has them.
#[derive(Debug)]
pub struct RawTags {
    pub title: Option<String>,
    pub artist: Option<String>,
    pub album_title: Option<String>,
}

/// What an audio track says of its length.
#[derive(Debug, PartialEq, Eq, Structural, Clone, Copy)]
pub struct Track {
    /// The number of frames of the track.
    pub n_frames: Option<u64>,
    /// The number of frames in a second.
    pub sample_rate: Option<u32>,
}

/// What came of probing the audio stream of a file.
#[derive(Debug)]
pub enum Probe {
    /// The file could not be opened, or its format not made out.
    Unreadable,
    /// The tracks of the file, in order.
    Tracks(Vec<Track>),
}

/// Why the length of a song is not known.
#[derive(Debug, PartialEq, Eq, Structural, Clone, Copy)]
pub enum DurationError {
    /// The file could not be opened, or its format not made out.
    Unreadable,
    /// The file has no audio track.
    NoTracks,
    /// The first track does not say how many frames it has.
    FrameCountMissing,
    /// The first track does not say how many frames make a second.
    SampleRateMissing,
    /// The first track says that no frame makes a second.
    SampleRateZero,
}

/// The text of a tag; empty where the file has no such tag.
pub open spec fn tag_text(tag: Option<String>) -> Seq<char> {
    match tag {
        Some(text) => text@,
        None => Seq::empty(),
    }
}

/// The whole seconds that `n_frames` frames take at `sample_rate` frames a second,
/// as far as sixteen bits hold them: the count modulo 65536.
pub open spec fn whole_seconds(n_frames: u64, sample_rate: u32) -> int {
    (n_frames as int / sample_rate as int) % 0x10000
}

/// The length of a song in seconds, told by the first track of its file, or why it
/// cannot be told.
pub open spec fn duration_of(probe: Probe) -> Result<u16, DurationError> {
    match probe {
        Probe::Unreadable => Err(DurationError::Unreadable),
        Probe::Tracks(tracks) => if tracks@.len() == 0 {
            Err(DurationError::NoTracks)
        } else {
            match (tracks@[0].n_frames, tracks@[0].sample_rate) {
                (None, _) => Err(DurationError::FrameCountMissing),
                (Some(_), None) => Err(DurationError::SampleRateMissing),
                (Some(n_frames), Some(sample_rate)) => if sample_rate == 0 {
                    Err(DurationError::SampleRateZero)
                } else {
                    Ok(whole_seconds(n_frames, sample_rate) as u16)
                },
            }
        },
    }
}

/// Whether the tags name the song: they could be read, and title and artist are not
/// both empty.
pub open spec fn names_song(tags: Option<RawTags>) -> bool {
    match tags {
        None => false,
        Some(found) => tag_text(found.title).len() > 0 || tag_text(found.artist).len() > 0,
    }
}

/// Whether `metadata` is what the tags and the probe say of `song`: the texts of
/// the tags, and the length where it can be told.
pub open spec fn describes(metadata: SongMetadata, song: Song, tags: RawTags, probe: Probe) -> bool {
    &&& metadata.song == song
    &&& metadata.title@ == tag_text(tags.title)
    &&& metadata.artist@ == tag_text(tags.artist)
    &&& metadata.album_title@ == tag_text(tags.album_title)
    &&& metadata.duration == match duration_of(probe) {
        Ok(seconds) => Some(seconds),
        Err(_) => None,
    }
}

/// The one that makes a song's metadata.
#[derive(Debug)]
pub struct MetadataExtractor {}

impl MetadataExtractor {
    /// The metadata of `song`, from the tags of its file (`None` where they could
    /// not be read) and from what probing its audio stream found. There is none where
    /// the tags could not be read or name neither title nor artist. The length is
    /// left out where it cannot be told.
    pub fn extract(song: &Song, tags: &Option<RawTags>, probe: &Probe) -> (r: Option<SongMetadata>)
        ensures
            r is Some <==> names_song(*tags),
            r matches Some(metadata) ==> describes(metadata, *song, tags->0, *probe),
    {
        match tags {
            None => None,
            Some(found) => {
                let title = Self::text_of(&found.title);
                let artist = Self::text_of(&found.artist);
                let album_title = Self::text_of(&found.album_title);
                if title.as_str().is_empty() && artist.as_str().is_empty() {
                    return None;
                }
                let duration = match Self::get_duration(probe) {
                    Ok(seconds) => Some(seconds),
                    Err(_) => None,
                };
                Some(SongMetadata { song: song.clone(), artist, title, album_title, duration })
            },
        }
    }

    /// The length of a song in seconds, told by the first track of its file.
    pub fn get_duration(probe: &Probe) -> (r: Result<u16, DurationError>)
        ensures
            r == duration_of(*probe),
    {
        match probe {
            Probe::Unreadable => Err(DurationError::Unreadable),
            Probe::Tracks(tracks) => {
                if tracks.len() == 0 {
                    return Err(DurationError::NoTracks);
                }
                let track = tracks[0];
                match track.n_frames {
                    None => Err(DurationError::FrameCountMissing),
                    Some(n_frames) => match track.sample_rate {
                        None => Err(DurationError::SampleRateMissing),
                        Some(sample_rate) => {
                            if sample_rate == 0 {
                                Err(DurationError::SampleRateZero)
                            } else {
                                let seconds: u64 = (n_frames / (sample_rate as u64)) % 0x10000;
                                Ok(seconds as u16)
                            }
                        },
                    },
                }
            },
        }
    }

    /// The text of a tag; empty where the file has no such tag.
    fn text_of(tag: &Option<String>) -> (r: String)
        ensures
            r@ == tag_text(*tag),
    {
        match tag {
            Some(text) => text.clone(),
            None => String::new(),
        }
    }
}

} // verus!
