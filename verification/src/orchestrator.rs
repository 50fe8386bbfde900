//! The fallback chain: lyric sources in order of preference, asked one after the
//! other until one has usable lyrics.
//!
//! The chain sends nothing itself. It says which request is to be sent next, is
//! handed the reply, and says what follows: lyrics, the request for the next
//! source, or that no source is left.

use vstd::prelude::*;
use crate::api::exchange::{Reply, Request, RequestView};
use crate::api::lrclib_api::LrcLibAPI;
use crate::api::lyric_api::LyricApi;
use crate::model::data_model::{Lyric, LyricScraperV1, SongMetadata};
use crate::traits::traits::LyricIface;

verus! {

/// One of the lyric sources that the library has.
pub enum LyricSource {
    /// The structured lookup.
    Structured(LrcLibAPI),
    /// The free-text search.
    FreeText(LyricApi),
    /// The web page.
    WebPage(LyricScraperV1),
}

impl LyricIface for LyricSource {
    open spec fn asks(&self, song_metadata: SongMetadata) -> RequestView {
        match self {
            LyricSource::Structured(source) => source.asks(song_metadata),
            LyricSource::FreeText(source) => source.asks(song_metadata),
            LyricSource::WebPage(source) => source.asks(song_metadata),
        }
    }

    open spec fn answers(&self, song_metadata: SongMetadata, reply: Reply) -> Result<
        Seq<char>,
        Seq<char>,
    > {
        match self {
            LyricSource::Structured(source) => source.answers(song_metadata, reply),
            LyricSource::FreeText(source) => source.answers(song_metadata, reply),
            LyricSource::WebPage(source) => source.answers(song_metadata, reply),
        }
    }

    fn request(&self, song_metadata: &SongMetadata) -> (r: Request) {
        match self {
            LyricSource::Structured(source) => source.request(song_metadata),
            LyricSource::FreeText(source) => source.request(song_metadata),
            LyricSource::WebPage(source) => source.request(song_metadata),
        }
    }

    fn fetch_lyrics(&self, song_metadata: &SongMetadata, reply: &Reply) -> (r: Result<Lyric, String>) {
        match self {
            LyricSource::Structured(source) => source.fetch_lyrics(song_metadata, reply),
            LyricSource::FreeText(source) => source.fetch_lyrics(song_metadata, reply),
            LyricSource::WebPage(source) => source.fetch_lyrics(song_metadata, reply),
        }
    }
}

/// What a source's reply is worth to the chain: the lyrics, if the source found
/// some and they are not empty, else why the source failed. Empty lyrics are a
/// failure.
pub open spec fn attempt(source: LyricSource, song_metadata: SongMetadata, reply: Reply) -> Result<
    Seq<char>,
    Seq<char>,
> {
    match source.answers(song_metadata, reply) {
        Ok(text) => if text.len() == 0 {
            Err("Lyrics were empty"@)
        } else {
            Ok(text)
        },
        Err(why) => Err(why),
    }
}

/// What follows from a reply.
pub enum Resolution {
    /// The source had usable lyrics. No other source is asked.
    Found(Lyric),
    /// The source failed; this is the request for the next one.
    Next(Request),
    /// The last source failed, for this reason.
    Exhausted(String),
    /// The chain had come to its end before: the reply was not looked at.
    Closed,
}

/// What follows from a reply, with its texts as sequences of characters.
pub enum Verdict {
    Found(Seq<char>),
    Next(RequestView),
    Exhausted(Seq<char>),
    Closed,
}

impl View for Resolution {
    type V = Verdict;

    open spec fn view(&self) -> Verdict {
        match self {
            Resolution::Found(lyric) => Verdict::Found(lyric.lyric@),
            Resolution::Next(request) => Verdict::Next(request@),
            Resolution::Exhausted(why) => Verdict::Exhausted(why@),
            Resolution::Closed => Verdict::Closed,
        }
    }
}

/// The state of a chain: its sources, which of them is being asked, and whether
/// lyrics were found.
pub struct Chain {
    pub sources: Seq<LyricSource>,
    /// The index of the source whose reply is awaited; the number of sources that
    /// failed.
    pub cursor: nat,
    pub found: bool,
}

impl Chain {
    /// A chain that has asked nobody yet.
    pub open spec fn fresh(sources: Seq<LyricSource>) -> Chain {
        Chain { sources, cursor: 0, found: false }
    }

    /// Whether this is the chain that a run starts with: the structured lookup, which
    /// prefers synchronized lyrics if `karaoke` is set, then the free-text search,
    /// and nobody asked yet.
    pub open spec fn is_standard(self, karaoke: bool) -> bool {
        &&& self.cursor == 0
        &&& !self.found
        &&& self.sources.len() == 2
        &&& self.sources[0] matches LyricSource::Structured(first)
        &&& first.prefers_synced() == karaoke
        &&& self.sources[1] is FreeText
    }

    /// Whether the chain has come to its end: lyrics were found, or no source is
    /// left.
    pub open spec fn finished(self) -> bool {
        self.found || self.cursor >= self.sources.len()
    }

    /// The request whose reply the chain awaits; none once it is finished.
    pub open spec fn pending(self, song_metadata: SongMetadata) -> Option<RequestView> {
        if self.finished() {
            None
        } else {
            Some(self.sources[self.cursor as int].asks(song_metadata))
        }
    }

    /// What follows from the reply to the pending request.
    pub open spec fn verdict(self, song_metadata: SongMetadata, reply: Reply) -> Verdict {
        if self.finished() {
            Verdict::Closed
        } else {
            match attempt(self.sources[self.cursor as int], song_metadata, reply) {
                Ok(text) => Verdict::Found(text),
                Err(why) => if self.cursor + 1 < self.sources.len() {
                    Verdict::Next(self.sources[self.cursor as int + 1].asks(song_metadata))
                } else {
                    Verdict::Exhausted(why)
                },
            }
        }
    }

    /// The chain after the reply to the pending request.
    pub open spec fn after(self, song_metadata: SongMetadata, reply: Reply) -> Chain {
        if self.finished() {
            self
        } else {
            match attempt(self.sources[self.cursor as int], song_metadata, reply) {
                Ok(_) => Chain { found: true, ..self },
                Err(_) => Chain { cursor: self.cursor + 1, ..self },
            }
        }
    }

    /// The chain after some replies, each to the request that was pending when it
    /// came.
    pub open spec fn after_all(self, song_metadata: SongMetadata, replies: Seq<Reply>) -> Chain
        decreases replies.len(),
    {
        if replies.len() == 0 {
            self
        } else {
            self.after_all(song_metadata, replies.drop_last()).after(song_metadata, replies.last())
        }
    }
}

/// The fallback chain.
pub struct Orchestrator {
    sources: Vec<LyricSource>,
    cursor: usize,
    found: bool,
}

impl View for Orchestrator {
    type V = Chain;

    closed spec fn view(&self) -> Chain {
        Chain { sources: self.sources@, cursor: self.cursor as nat, found: self.found }
    }
}

/// The request of an `Option`, with its texts as sequences of characters.
pub open spec fn request_view(request: Option<Request>) -> Option<RequestView> {
    match request {
        Some(r) => Some(r@),
        None => None,
    }
}

impl Orchestrator {
    /// A chain of these sources, the most preferred first.
    pub fn new(sources: Vec<LyricSource>) -> (r: Self)
        ensures
            r@ == Chain::fresh(sources@),
    {
        Orchestrator { sources, cursor: 0, found: false }
    }

    /// The chain that a run uses: the structured lookup, which prefers synchronized
    /// lyrics if `karaoke` is set, then the free-text search.
    pub fn standard(karaoke: bool) -> (r: Self)
        ensures
            r@.is_standard(karaoke),
    {
        let first = if karaoke {
            LrcLibAPI::new_karaoke_lyrics()
        } else {
            LrcLibAPI::new_plain_lyrics()
        };
        let mut sources: Vec<LyricSource> = Vec::new();
        sources.push(LyricSource::Structured(first));
        sources.push(LyricSource::FreeText(LyricApi::new()));
        Orchestrator { sources, cursor: 0, found: false }
    }

    /// The request to send now: that of the source whose turn it is. None once the
    /// chain is finished.
    pub fn pending(&self, song_metadata: &SongMetadata) -> (r: Option<Request>)
        ensures
            request_view(r) == self@.pending(*song_metadata),
    {
        if self.found || self.cursor >= self.sources.len() {
            None
        } else {
            Some(self.sources[self.cursor].request(song_metadata))
        }
    }

    /// Takes the reply to the pending request and says what follows. The source
    /// whose turn it is makes of the reply what it holds. Usable lyrics end the
    /// chain. A failure passes the turn to the next source, whose request is handed
    /// out, or ends the chain if there is none.
    pub fn resolve(&mut self, song_metadata: &SongMetadata, reply: &Reply) -> (r: Resolution)
        ensures
            r@ == old(self)@.verdict(*song_metadata, *reply),
            final(self)@ == old(self)@.after(*song_metadata, *reply),
            r matches Resolution::Found(lyric) ==> lyric.song == song_metadata.song,
    {
        if self.found || self.cursor >= self.sources.len() {
            return Resolution::Closed;
        }
        let why = match self.sources[self.cursor].fetch_lyrics(song_metadata, reply) {
            Ok(lyric) => {
                if lyric.lyric.as_str().is_empty() {
                    String::from_str("Lyrics were empty")
                } else {
                    self.found = true;
                    return Resolution::Found(lyric);
                }
            },
            Err(why) => why,
        };
        self.cursor = self.cursor + 1;
        if self.cursor < self.sources.len() {
            Resolution::Next(self.sources[self.cursor].request(song_metadata))
        } else {
            Resolution::Exhausted(why)
        }
    }
}

/// Whether each of the first `count` sources fails on the reply that it gets.
pub open spec fn all_fail(
    sources: Seq<LyricSource>,
    song_metadata: SongMetadata,
    replies: Seq<Reply>,
    count: int,
) -> bool {
    forall|i: int| 0 <= i < count ==> (#[trigger] attempt(sources[i], song_metadata, replies[i])) is Err
}

/// After replies on which one source after the other fails, the turn is with the
/// source behind them, and nothing was found.
pub proof fn lemma_after_failures(
    sources: Seq<LyricSource>,
    song_metadata: SongMetadata,
    replies: Seq<Reply>,
)
    requires
        replies.len() <= sources.len(),
        all_fail(sources, song_metadata, replies, replies.len() as int),
    ensures
        Chain::fresh(sources).after_all(song_metadata, replies) == (Chain {
            sources,
            cursor: replies.len(),
            found: false,
        }),
    decreases replies.len(),
{
    if replies.len() > 0 {
        let before = replies.drop_last();
        assert forall|i: int| 0 <= i < before.len() implies (#[trigger] attempt(
            sources[i],
            song_metadata,
            before[i],
        )) is Err by {
            assert(before[i] == replies[i]);
            assert(attempt(sources[i], song_metadata, replies[i]) is Err);
        }
        lemma_after_failures(sources, song_metadata, before);
        let last = replies.len() - 1;
        assert(attempt(sources[last], song_metadata, replies[last]) is Err);
    }
}

/// The first source with usable lyrics wins. Where all sources before the last to
/// reply fail and that one has usable lyrics, the chain gives those lyrics. None of
/// the failures before comes to light: each only passes the turn on. After the
/// lyrics the chain asks nobody.
pub proof fn lemma_first_usable_source_wins(
    sources: Seq<LyricSource>,
    song_metadata: SongMetadata,
    replies: Seq<Reply>,
    text: Seq<char>,
)
    requires
        0 < replies.len() <= sources.len(),
        all_fail(sources, song_metadata, replies, replies.len() - 1),
        attempt(sources[replies.len() - 1], song_metadata, replies.last()) == Ok::<
            Seq<char>,
            Seq<char>,
        >(text),
    ensures
        Chain::fresh(sources).after_all(song_metadata, replies.drop_last()).verdict(
            song_metadata,
            replies.last(),
        ) == Verdict::Found(text),
        forall|i: int|
            0 <= i < replies.len() - 1 ==> (#[trigger] Chain::fresh(sources).after_all(
                song_metadata,
                replies.take(i),
            )).verdict(song_metadata, replies[i]) == Verdict::Next(
                sources[i + 1].asks(song_metadata),
            ),
        Chain::fresh(sources).after_all(song_metadata, replies).pending(song_metadata) is None,
        forall|more: Reply|
            (#[trigger] Chain::fresh(sources).after_all(song_metadata, replies).verdict(
                song_metadata,
                more,
            )) == Verdict::Closed,
{
    let fresh = Chain::fresh(sources);
    assert forall|i: int| 0 <= i < replies.len() implies (#[trigger] fresh.after_all(
        song_metadata,
        replies.take(i),
    )) == (Chain { sources, cursor: i as nat, found: false }) by {
        let some = replies.take(i);
        assert forall|j: int| 0 <= j < i implies (#[trigger] attempt(
            sources[j],
            song_metadata,
            some[j],
        )) is Err by {
            assert(some[j] == replies[j]);
            assert(attempt(sources[j], song_metadata, replies[j]) is Err);
        }
        lemma_after_failures(sources, song_metadata, some);
    }
    assert(replies.take(replies.len() - 1) == replies.drop_last());
    assert forall|i: int| 0 <= i < replies.len() - 1 implies (#[trigger] fresh.after_all(
        song_metadata,
        replies.take(i),
    )).verdict(song_metadata, replies[i]) == Verdict::Next(sources[i + 1].asks(song_metadata)) by {
        assert(attempt(sources[i], song_metadata, replies[i]) is Err);
    }
}

/// Where every source fails, the chain is exhausted. Each failure but the last
/// passes the turn on; the last ends the chain, with its reason. Lyrics are never
/// found, and after the end the chain asks nobody.
pub proof fn lemma_all_fail_exhausts(
    sources: Seq<LyricSource>,
    song_metadata: SongMetadata,
    replies: Seq<Reply>,
)
    requires
        0 < replies.len() == sources.len(),
        all_fail(sources, song_metadata, replies, replies.len() as int),
    ensures
        Chain::fresh(sources).after_all(song_metadata, replies.drop_last()).verdict(
            song_metadata,
            replies.last(),
        ) == Verdict::Exhausted(
            attempt(sources[sources.len() - 1], song_metadata, replies.last())->Err_0,
        ),
        forall|i: int|
            0 <= i < replies.len() ==> !((#[trigger] Chain::fresh(sources).after_all(
                song_metadata,
                replies.take(i),
            )).verdict(song_metadata, replies[i]) is Found),
        !Chain::fresh(sources).after_all(song_metadata, replies).found,
        Chain::fresh(sources).after_all(song_metadata, replies).pending(song_metadata) is None,
{
    let fresh = Chain::fresh(sources);
    assert forall|i: int| 0 <= i <= replies.len() implies (#[trigger] fresh.after_all(
        song_metadata,
        replies.take(i),
    )) == (Chain { sources, cursor: i as nat, found: false }) by {
        let some = replies.take(i);
        assert forall|j: int| 0 <= j < i implies (#[trigger] attempt(
            sources[j],
            song_metadata,
            some[j],
        )) is Err by {
            assert(some[j] == replies[j]);
            assert(attempt(sources[j], song_metadata, replies[j]) is Err);
        }
        lemma_after_failures(sources, song_metadata, some);
    }
    assert(replies.take(replies.len() - 1) == replies.drop_last());
    assert(replies.take(replies.len() as int) == replies);
    let last = replies.len() - 1;
    assert(attempt(sources[last], song_metadata, replies[last]) is Err);
    assert forall|i: int| 0 <= i < replies.len() implies !((#[trigger] fresh.after_all(
        song_metadata,
        replies.take(i),
    )).verdict(song_metadata, replies[i]) is Found) by {
        assert(attempt(sources[i], song_metadata, replies[i]) is Err);
    }
}

} // verus!
