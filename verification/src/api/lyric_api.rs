//! The free-text search: a provider that is asked for a song by artist and title,
//! and answers with lyrics whose line breaks and spaces are put in order before
//! they are used.

use vstd::prelude::*;
use regex::Regex;
use crate::api::exchange::{Body, Decode, Reply, Request, RequestView};
use crate::model::data_model::{Lyric, SongMetadata};
use crate::text::{append_str, trim, trimmed};
use crate::traits::traits::LyricIface;

verus! {

/// The error of the crate regex for a pattern that it does not compile. The library
/// carries it and does not look into it.
#[verifier::external_type_specification]
#[verifier::external_body]
pub struct ExRegexError(regex::Error);

/// `haystack` with every match of the regular expression `pattern` replaced by
/// `replacement`, as the crate regex replaces them: the matches do not overlap and
/// are found from left to right. `None` where `pattern` is no regular expression
/// that the crate compiles.
pub uninterp spec fn regex_replaced(
    pattern: Seq<char>,
    haystack: Seq<char>,
    replacement: Seq<char>,
) -> Option<Seq<char>>;

/// Compiles `pattern` with `Regex::new` and calls `Regex::replace_all`, both of the
/// crate regex. Trusted: the text that comes back, or that none does because the
/// pattern did not compile, depends on the three arguments alone; the contract
/// names it.
#[verifier::external_body]
fn replace_all(pattern: &str, haystack: &str, replacement: &str) -> (r: Result<String, regex::Error>)
    ensures
        match r {
            Ok(text) => regex_replaced(pattern@, haystack@, replacement@) == Some(text@),
            Err(_) => regex_replaced(pattern@, haystack@, replacement@) is None,
        },
{
    let re = Regex::new(pattern)?;
    Ok(re.replace_all(haystack, replacement).into_owned())
}

/// The pattern of a line break: a carriage return with a line feed, or a run of
/// line feeds.
pub const LINE_BREAKS: &'static str = "\\r\\n|\\n+";

/// The pattern of a run of spaces.
pub const SPACES: &'static str = " +";

/// A pattern was not compiled, so nothing was replaced.
#[derive(Debug, PartialEq, Eq, Structural, Clone, Copy)]
pub struct PatternError;

/// The free-text search source.
pub struct LyricApi {}

impl LyricApi {
    /// Lyrics put in order: each line break replaced by one line feed, each run of
    /// spaces by one space, and whitespace at both ends removed. `None` where one of
    /// the two patterns did not compile.
    pub open spec fn sanitized(lyrics: Seq<char>) -> Option<Seq<char>> {
        match regex_replaced(LINE_BREAKS@, lyrics, "\n"@) {
            None => None,
            Some(unbroken) => match regex_replaced(SPACES@, unbroken, " "@) {
                None => None,
                Some(spaced) => Some(trimmed(spaced)),
            },
        }
    }

    /// Puts lyrics in order: line breaks, runs of spaces, whitespace at the ends.
    pub fn sanitize_lyrics(lyrics: &str) -> (r: Result<String, PatternError>)
        ensures
            match r {
                Ok(text) => Self::sanitized(lyrics@) == Some(text@),
                Err(_) => Self::sanitized(lyrics@) is None,
            },
    {
        match replace_all(LINE_BREAKS, lyrics, "\n") {
            Err(_) => Err(PatternError),
            Ok(unbroken) => match replace_all(SPACES, unbroken.as_str(), " ") {
                Err(_) => Err(PatternError),
                Ok(spaced) => Ok(trim(spaced.as_str())),
            },
        }
    }

    pub fn new() -> (r: Self) {
        LyricApi {  }
    }
}

impl LyricIface for LyricApi {
    open spec fn asks(&self, song_metadata: SongMetadata) -> RequestView {
        RequestView {
            url: "https://api.lyrics.ovh/v1/"@ + song_metadata.artist@ + "/"@ + song_metadata.title@,
            query: Seq::empty(),
            user_agent: None,
            decode: Decode::Lyrics,
        }
    }

    open spec fn answers(&self, song_metadata: SongMetadata, reply: Reply) -> Result<
        Seq<char>,
        Seq<char>,
    > {
        match reply {
            Reply::NoClient(why) => Err("Network request failed: "@ + why@),
            Reply::Unsent(why) => Err("Network request failed: "@ + why@),
            Reply::Response { status, body } => if !(200 <= status < 300) {
                Err("Lyric not found with LyricsAPI"@)
            } else {
                match body {
                    Body::Lyrics(lyrics) => match Self::sanitized(lyrics@) {
                        Some(text) => Ok(text),
                        None => Err("Lyrics could not be put in order"@),
                    },
                    _ => Err("Lyric API is down"@),
                }
            },
        }
    }

    fn request(&self, song_metadata: &SongMetadata) -> (r: Request) {
        let mut url = String::from_str("https://api.lyrics.ovh/v1/");
        url.append(song_metadata.artist.as_str());
        url.append("/");
        url.append(song_metadata.title.as_str());
        let r = Request { url, query: Vec::new(), user_agent: None, decode: Decode::Lyrics };
        assert(r@.query =~= self.asks(*song_metadata).query);
        r
    }

    fn fetch_lyrics(&self, song_metadata: &SongMetadata, reply: &Reply) -> (r: Result<Lyric, String>) {
        match reply {
            Reply::NoClient(why) => Err(append_str("Network request failed: ", why.as_str())),
            Reply::Unsent(why) => Err(append_str("Network request failed: ", why.as_str())),
            Reply::Response { status, body } => {
                if !(200 <= *status && *status < 300) {
                    Err(String::from_str("Lyric not found with LyricsAPI"))
                } else {
                    match body {
                        Body::Lyrics(lyrics) => match Self::sanitize_lyrics(lyrics.as_str()) {
                            Ok(text) => Ok(Lyric { lyric: text, song: song_metadata.song.clone() }),
                            Err(_) => Err(String::from_str("Lyrics could not be put in order")),
                        },
                        _ => Err(String::from_str("Lyric API is down")),
                    }
                }
            },
        }
    }
}

} // verus!
