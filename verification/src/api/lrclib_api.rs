//! The structured lookup: a provider that is asked for a song by artist, title,
//! album and length, and answers with plain and, where it has them, synchronized
//! lyrics.

use vstd::prelude::*;
use crate::api::exchange::{Body, Decode, Reply, Request, RequestView};
use crate::model::data_model::{Lyric, SongMetadata};
use crate::text::{append_str, decimal, decimal_string};
use crate::traits::traits::LyricIface;

verus! {

/// The structured lookup source.
pub struct LrcLibAPI {
    karaoke: bool,
}

impl LrcLibAPI {
    /// Whether the source prefers synchronized lyrics to plain ones.
    pub closed spec fn prefers_synced(&self) -> bool {
        self.karaoke
    }

    /// The length of a song as the provider is told it: zero where it is not known.
    pub open spec fn duration_asked(song_metadata: SongMetadata) -> nat {
        match song_metadata.duration {
            Some(seconds) => seconds as nat,
            None => 0,
        }
    }

    /// Whether a reply holds usable lyrics but not the synchronized ones that the
    /// source prefers, so that it gives the plain ones instead.
    pub open spec fn degrades(&self, reply: Reply) -> bool {
        &&& self.prefers_synced()
        &&& reply matches Reply::Response { status, body }
        &&& status == 200
        &&& body matches Body::Structured { plain_lyrics, synced_lyrics }
        &&& synced_lyrics is None
    }

    /// A source that prefers synchronized lyrics, and gives plain ones where a
    /// reply has no others.
    pub fn new_karaoke_lyrics() -> (r: Self)
        ensures
            r.prefers_synced(),
    {
        LrcLibAPI { karaoke: true }
    }

    /// A source that gives plain lyrics.
    pub fn new_plain_lyrics() -> (r: Self)
        ensures
            !r.prefers_synced(),
    {
        LrcLibAPI { karaoke: false }
    }

    /// Whether the source, for want of synchronized lyrics in the reply, gives the
    /// plain ones.
    pub fn is_degraded(&self, reply: &Reply) -> (r: bool)
        ensures
            r == self.degrades(*reply),
    {
        match reply {
            Reply::Response { status, body } => match body {
                Body::Structured { plain_lyrics, synced_lyrics } => self.karaoke && *status == 200
                    && synced_lyrics.is_none(),
                _ => false,
            },
            _ => false,
        }
    }
}

impl LyricIface for LrcLibAPI {
    open spec fn asks(&self, song_metadata: SongMetadata) -> RequestView {
        RequestView {
            url: "https://lrclib.net/api/get"@,
            query: seq![
                ("track_name"@, song_metadata.title@),
                ("artist_name"@, song_metadata.artist@),
                ("album_name"@, song_metadata.album_title@),
                ("duration"@, decimal(Self::duration_asked(song_metadata))),
            ],
            user_agent: Some("https://github.com/albertjimenez/GetLyrics"@),
            decode: Decode::Structured,
        }
    }

    open spec fn answers(&self, song_metadata: SongMetadata, reply: Reply) -> Result<
        Seq<char>,
        Seq<char>,
    > {
        match reply {
            Reply::NoClient(why) => Err("Failed to build HTTP client: "@ + why@),
            Reply::Unsent(why) => Err("Request error: "@ + why@),
            Reply::Response { status, body } => if status == 200 {
                match body {
                    Body::Structured { plain_lyrics, synced_lyrics } => match synced_lyrics {
                        Some(synced) => Ok(
                            if self.prefers_synced() {
                                synced@
                            } else {
                                plain_lyrics@
                            },
                        ),
                        None => Ok(plain_lyrics@),
                    },
                    Body::Undecoded(why) => Err("Failed to parse response JSON: "@ + why@),
                    _ => Err("Failed to parse response JSON: "@ + "unexpected body"@),
                }
            } else if status == 404 {
                Err("Lyrics not found."@)
            } else {
                Err("Unexpected status code: "@ + decimal(status as nat))
            },
        }
    }

    fn request(&self, song_metadata: &SongMetadata) -> (r: Request) {
        let seconds: u16 = match song_metadata.duration {
            Some(seconds) => seconds,
            None => 0,
        };
        let mut query: Vec<(String, String)> = Vec::new();
        query.push((String::from_str("track_name"), song_metadata.title.clone()));
        query.push((String::from_str("artist_name"), song_metadata.artist.clone()));
        query.push((String::from_str("album_name"), song_metadata.album_title.clone()));
        query.push((String::from_str("duration"), decimal_string(seconds as u64)));
        let r = Request {
            url: String::from_str("https://lrclib.net/api/get"),
            query,
            user_agent: Some(String::from_str("https://github.com/albertjimenez/GetLyrics")),
            decode: Decode::Structured,
        };
        assert(r@.query =~= self.asks(*song_metadata).query);
        r
    }

    fn fetch_lyrics(&self, song_metadata: &SongMetadata, reply: &Reply) -> (r: Result<Lyric, String>) {
        match reply {
            Reply::NoClient(why) => Err(append_str("Failed to build HTTP client: ", why.as_str())),
            Reply::Unsent(why) => Err(append_str("Request error: ", why.as_str())),
            Reply::Response { status, body } => {
                if *status == 200 {
                    match body {
                        Body::Structured { plain_lyrics, synced_lyrics } => {
                            let lyrics = match synced_lyrics {
                                Some(synced) => if self.karaoke {
                                    synced.clone()
                                } else {
                                    plain_lyrics.clone()
                                },
                                None => plain_lyrics.clone(),
                            };
                            Ok(Lyric { lyric: lyrics, song: song_metadata.song.clone() })
                        },
                        Body::Undecoded(why) => Err(
                            append_str("Failed to parse response JSON: ", why.as_str()),
                        ),
                        _ => Err(append_str("Failed to parse response JSON: ", "unexpected body")),
                    }
                } else if *status == 404 {
                    Err(String::from_str("Lyrics not found."))
                } else {
                    let code = decimal_string(*status as u64);
                    Err(append_str("Unexpected status code: ", code.as_str()))
                }
            },
        }
    }
}

} // verus!
