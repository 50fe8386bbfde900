//! What a lyric source exchanges with its provider: the request it asks to be sent,
//! and the reply that came back. The library sends nothing itself: its caller sends
//! the request and hands in the reply.

use vstd::prelude::*;

verus! {

/// How the body of a response is to be decoded before it is handed in.
#[derive(Debug, PartialEq, Eq, Structural, Clone, Copy)]
pub enum Decode {
    /// As the JSON object of the structured lookup: plain and synchronized lyrics.
    Structured,
    /// As the JSON object of the free-text search: the lyrics.
    Lyrics,
    /// As the text of a page.
    Page,
}

/// A request to a provider: an HTTP GET.
#[derive(Debug, PartialEq, Eq)]
pub struct Request {
    /// Where to send it.
    pub url: String,
    /// The query parameters, name and value, in order.
    pub query: Vec<(String, String)>,
    /// The user agent to send it as, where the source names one.
    pub user_agent: Option<String>,
    /// How to decode the body of the response.
    pub decode: Decode,
}

/// A request, with its texts as sequences of characters.
pub struct RequestView {
    pub url: Seq<char>,
    pub query: Seq<(Seq<char>, Seq<char>)>,
    pub user_agent: Option<Seq<char>>,
    pub decode: Decode,
}

impl View for Request {
    type V = RequestView;

    open spec fn view(&self) -> RequestView {
        RequestView {
            url: self.url@,
            query: Seq::new(self.query@.len(), |i: int| (self.query@[i].0@, self.query@[i].1@)),
            user_agent: match self.user_agent {
                Some(agent) => Some(agent@),
                None => None,
            },
            decode: self.decode,
        }
    }
}

/// The body of a response, decoded as the request asked.
#[derive(Debug)]
pub enum Body {
    /// The body could not be read or decoded; the text says why.
    Undecoded(String),
    /// The answer of the structured lookup.
    Structured { plain_lyrics: String, synced_lyrics: Option<String> },
    /// The answer of the free-text search.
    Lyrics(String),
    /// The text of a page.
    Page(String),
}

/// What came of a request.
#[derive(Debug)]
pub enum Reply {
    /// No HTTP client could be set up; the text says why.
    NoClient(String),
    /// The request could not be sent, or no response came; the text says why.
    Unsent(String),
    /// A response came, with this status code and this body.
    Response { status: u16, body: Body },
}

/// Whether `r` is the result `expected`, with the lyrics on success being those of
/// `song`.
pub open spec fn lyric_outcome(
    r: Result<crate::model::data_model::Lyric, String>,
    song: crate::model::data_model::Song,
    expected: Result<Seq<char>, Seq<char>>,
) -> bool {
    match (r, expected) {
        (Ok(lyric), Ok(text)) => lyric.lyric@ == text && lyric.song == song,
        (Err(reason), Err(text)) => reason@ == text,
        _ => false,
    }
}

} // verus!
