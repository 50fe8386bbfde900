//! The interface of a lyric source, and the interface of a processing policy with the
//! rule that every policy follows.

use vstd::prelude::*;
use crate::api::exchange::{lyric_outcome, Reply, Request, RequestView};
use crate::hasher::file_hash_helper::fingerprint;
use crate::model::data_model::{Lyric, SongMetadata};

verus! {

/// Why a policy could not decide.
#[derive(Debug, PartialEq, Eq, Structural, Clone, Copy)]
pub enum LedgerError {
    /// The content of the input could not be read, so it has no fingerprint.
    InputUnreadable,
    /// The stored ledger could not be read or created.
    StoreUnavailable,
    /// A fingerprint could not be added to the stored ledger.
    AppendFailed,
}

/// The content of an input as a policy sees it: its bytes, or `None` where they
/// could not be read.
pub open spec fn bytes_of(content: Option<Vec<u8>>) -> Option<Seq<u8>> {
    match content {
        Some(bytes) => Some(bytes@),
        None => None,
    }
}

/// The fingerprints `known` with `fp` recorded: added at the end, unless it is there.
pub open spec fn record(known: Seq<Seq<char>>, fp: Seq<char>) -> Seq<Seq<char>> {
    if known.contains(fp) {
        known
    } else {
        known.push(fp)
    }
}

/// What a policy says of an input. A policy that bypasses lets everything through.
/// Any other lets an input through when its fingerprint is not known yet, and fails
/// on an input that could not be read.
pub open spec fn verdict(bypasses: bool, known: Seq<Seq<char>>, content: Option<Seq<u8>>) -> Result<
    bool,
    LedgerError,
> {
    if bypasses {
        Ok(true)
    } else {
        match content {
            None => Err(LedgerError::InputUnreadable),
            Some(bytes) => Ok(!known.contains(fingerprint(bytes))),
        }
    }
}

/// What a policy knows after it has seen an input: a policy that bypasses records
/// nothing, any other the fingerprint of what it could read.
pub open spec fn known_after(bypasses: bool, known: Seq<Seq<char>>, content: Option<Seq<u8>>) -> Seq<
    Seq<char>,
> {
    if bypasses {
        known
    } else {
        match content {
            None => known,
            Some(bytes) => record(known, fingerprint(bytes)),
        }
    }
}

/// The text that the stored ledger gets for an input: the line of its fingerprint
/// if a policy that does not bypass sees the fingerprint for the first time, and
/// nothing else.
pub open spec fn newly_stored(bypasses: bool, known: Seq<Seq<char>>, content: Option<Seq<u8>>) -> Seq<
    char,
> {
    match content {
        Some(bytes) if !bypasses && !known.contains(fingerprint(bytes)) => fingerprint(bytes)
            + seq!['\n'],
        _ => Seq::empty(),
    }
}

/// A policy that decides whether an input is new work.
pub trait ProcessPolicy {
    /// Whether the policy is in order: it has recorded no fingerprint twice. Every
    /// policy that the library makes is in order and stays so.
    spec fn wf(&self) -> bool;

    /// Whether the policy lets every input through and records nothing.
    spec fn bypasses(&self) -> bool;

    /// The fingerprints that the policy has recorded, oldest first, none twice.
    spec fn known(&self) -> Seq<Seq<char>>;

    /// The text that the stored ledger lacks: what is to be added at its end so that
    /// it holds all that the policy has recorded.
    spec fn unsaved(&self) -> Seq<char>;

    /// Decides whether the input with this content is to be processed, and records
    /// its fingerprint. What the stored ledger is to get for it is added to the
    /// unsaved text.
    fn should_process(&mut self, content: &Option<Vec<u8>>) -> (r: Result<bool, LedgerError>)
        requires
            old(self).wf(),
        ensures
            final(self).wf(),
            r == verdict(old(self).bypasses(), old(self).known(), bytes_of(*content)),
            final(self).known() == known_after(
                old(self).bypasses(),
                old(self).known(),
                bytes_of(*content),
            ),
            final(self).bypasses() == old(self).bypasses(),
            final(self).unsaved() == old(self).unsaved() + newly_stored(
                old(self).bypasses(),
                old(self).known(),
                bytes_of(*content),
            ),
    ;

    /// Hands out what the stored ledger lacks: the text to add at its end. The
    /// caller stores it before the input is processed any further.
    fn take_unsaved(&mut self) -> (r: String)
        requires
            old(self).wf(),
        ensures
            final(self).wf(),
            r@ == old(self).unsaved(),
            final(self).unsaved() == Seq::<char>::empty(),
            final(self).known() == old(self).known(),
            final(self).bypasses() == old(self).bypasses(),
    ;
}

/// A source of lyrics. A source does not reach its provider itself: it says what to
/// ask, and makes of the reply what it holds.
pub trait LyricIface {
    /// What the source asks its provider about a song.
    spec fn asks(&self, song_metadata: SongMetadata) -> RequestView;

    /// What the source makes of a reply: the text of the lyrics, or why there are
    /// none.
    spec fn answers(&self, song_metadata: SongMetadata, reply: Reply) -> Result<Seq<char>, Seq<char>>;

    /// The request to send for a song.
    fn request(&self, song_metadata: &SongMetadata) -> (r: Request)
        ensures
            r@ == self.asks(*song_metadata),
    ;

    /// The lyrics of a song as the reply holds them, or the reason why it holds
    /// none.
    fn fetch_lyrics(&self, song_metadata: &SongMetadata, reply: &Reply) -> (r: Result<Lyric, String>)
        ensures
            lyric_outcome(r, song_metadata.song, self.answers(*song_metadata, *reply)),
    ;
}

} // verus!
