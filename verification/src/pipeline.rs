//! The way of one file through the library: the policy, the metadata, the lyrics, the
//! lyrics file. And the choice of the files of a directory that go this way.
//!
//! The library reads no file, sends no request and writes nothing. It tells its
//! caller what to do next (an `Action`), is told what came of it (an `Event`), and
//! decides how the file goes on. A failure ends the way of that file only.

use vstd::prelude::*;
use crate::api::exchange::{Reply, Request, RequestView};
use crate::metadata::metadata_extractor::{describes, names_song, MetadataExtractor, Probe, RawTags};
use crate::model::data_model::{AudioExtensions, Lyric, Song, SongMetadata, Writer};
use crate::orchestrator::{all_fail, attempt, Chain, LyricSource, Orchestrator, Resolution, Verdict};
use crate::parallel_helper::parallel_helper::{eligible, is_eligible, Entry, EntryKind};
use crate::path::file_name;
use crate::traits::traits::{
    bytes_of, known_after, newly_stored, verdict, LedgerError, LyricIface, ProcessPolicy,
};
use crate::writer::writer::{lyric_path, lyric_target};

verus! {

/// How the way of a file ended.
#[derive(Debug, PartialEq, Eq)]
pub enum Outcome {
    /// The lyrics were written to the file at this path.
    Written(String),
    /// The policy knew the content of the file: nothing was done.
    AlreadyProcessed,
    /// The policy could not decide, or what it decided could not be stored.
    LedgerFailed(LedgerError),
    /// The extension of the file is that of no known audio format.
    UnknownFormat,
    /// The tags of the file could not be read, or name neither title nor artist.
    NoMetadata,
    /// No source had usable lyrics; the text is the reason of the last one.
    Exhausted(String),
    /// There is no place to write the lyrics to, or they could not be written.
    NotWritten,
    /// The event was not the one that the file was waiting for.
    OutOfTurn,
}

/// An outcome, with its texts as sequences of characters.
pub enum OutcomeView {
    Written(Seq<char>),
    AlreadyProcessed,
    LedgerFailed(LedgerError),
    UnknownFormat,
    NoMetadata,
    Exhausted(Seq<char>),
    NotWritten,
    OutOfTurn,
}

impl View for Outcome {
    type V = OutcomeView;

    open spec fn view(&self) -> OutcomeView {
        match self {
            Outcome::Written(path) => OutcomeView::Written(path@),
            Outcome::AlreadyProcessed => OutcomeView::AlreadyProcessed,
            Outcome::LedgerFailed(error) => OutcomeView::LedgerFailed(*error),
            Outcome::UnknownFormat => OutcomeView::UnknownFormat,
            Outcome::NoMetadata => OutcomeView::NoMetadata,
            Outcome::Exhausted(why) => OutcomeView::Exhausted(why@),
            Outcome::NotWritten => OutcomeView::NotWritten,
            Outcome::OutOfTurn => OutcomeView::OutOfTurn,
        }
    }
}

/// What an outcome means for the run.
#[derive(Debug, PartialEq, Eq, Structural, Clone, Copy)]
pub enum Standing {
    /// The lyrics of the file were written.
    Done,
    /// The file was passed over or failed; the run goes on with the next.
    Skipped,
    /// The stored ledger failed: the run cannot go on, since it can no longer keep
    /// what was processed.
    Fatal,
}

impl OutcomeView {
    /// What the outcome means for the run. Only a failure of the stored ledger ends
    /// the run; whatever else goes wrong with a file, that it cannot be read too,
    /// concerns that file alone.
    pub open spec fn standing(self) -> Standing {
        match self {
            OutcomeView::Written(_) => Standing::Done,
            OutcomeView::LedgerFailed(LedgerError::InputUnreadable) => Standing::Skipped,
            OutcomeView::LedgerFailed(_) => Standing::Fatal,
            _ => Standing::Skipped,
        }
    }
}

impl Outcome {
    /// What the outcome means for the run.
    pub fn standing(&self) -> (r: Standing)
        ensures
            r == self@.standing(),
    {
        match self {
            Outcome::Written(_) => Standing::Done,
            Outcome::LedgerFailed(LedgerError::InputUnreadable) => Standing::Skipped,
            Outcome::LedgerFailed(_) => Standing::Fatal,
            _ => Standing::Skipped,
        }
    }
}

/// How many files of a run ended in which way.
#[derive(Debug, PartialEq, Eq, Structural, Clone, Copy)]
pub struct Summary {
    pub written: u64,
    pub skipped: u64,
    pub fatal: u64,
}

/// One more than `count`, as far as 64 bits hold it.
pub open spec fn one_more(count: u64) -> u64 {
    if count < u64::MAX {
        (count + 1) as u64
    } else {
        count
    }
}

impl Summary {
    /// The summary with one more file that ended with `outcome`.
    pub open spec fn with(self, outcome: OutcomeView) -> Summary {
        match outcome.standing() {
            Standing::Done => Summary { written: one_more(self.written), ..self },
            Standing::Skipped => Summary { skipped: one_more(self.skipped), ..self },
            Standing::Fatal => Summary { fatal: one_more(self.fatal), ..self },
        }
    }

    /// The summary of a run in which no file has ended yet.
    pub fn new() -> (r: Summary)
        ensures
            r == (Summary { written: 0, skipped: 0, fatal: 0 }),
    {
        Summary { written: 0, skipped: 0, fatal: 0 }
    }

    /// Counts a file that ended with `outcome`.
    pub fn record(&mut self, outcome: &Outcome)
        ensures
            *final(self) == old(self).with(outcome@),
    {
        match outcome.standing() {
            Standing::Done => {
                if self.written < u64::MAX {
                    self.written = self.written + 1;
                }
            },
            Standing::Skipped => {
                if self.skipped < u64::MAX {
                    self.skipped = self.skipped + 1;
                }
            },
            Standing::Fatal => {
                if self.fatal < u64::MAX {
                    self.fatal = self.fatal + 1;
                }
            },
        }
    }
}

/// What the caller is to do next for a file.
#[derive(Debug, PartialEq, Eq)]
pub enum Action {
    /// Read the content of the file at this path, and report `Event::Content`.
    ReadContent(String),
    /// Add this text at the end of the stored ledger, and report `Event::Stored`.
    Store(String),
    /// Read the tags and probe the audio stream of the file at this path, and
    /// report `Event::Tags`.
    ReadTags(String),
    /// Send this request, and report `Event::Reply`.
    Fetch(Request),
    /// Write these contents to the file at this path, and report `Event::Written`.
    Write { path: String, contents: String },
    /// Nothing more: the way of the file has ended.
    Stop(Outcome),
}

/// An action, with its texts as sequences of characters.
pub enum ActionView {
    ReadContent(Seq<char>),
    Store(Seq<char>),
    ReadTags(Seq<char>),
    Fetch(RequestView),
    Write { path: Seq<char>, contents: Seq<char> },
    Stop(OutcomeView),
}

impl View for Action {
    type V = ActionView;

    open spec fn view(&self) -> ActionView {
        match self {
            Action::ReadContent(path) => ActionView::ReadContent(path@),
            Action::Store(text) => ActionView::Store(text@),
            Action::ReadTags(path) => ActionView::ReadTags(path@),
            Action::Fetch(request) => ActionView::Fetch(request@),
            Action::Write { path, contents } => ActionView::Write {
                path: path@,
                contents: contents@,
            },
            Action::Stop(outcome) => ActionView::Stop(outcome@),
        }
    }
}

/// What came of an action.
#[derive(Debug)]
pub enum Event {
    /// The content of the file; `None` where it could not be read.
    Content(Option<Vec<u8>>),
    /// Whether the stored ledger took the text.
    Stored(bool),
    /// The tags of the file, `None` where they could not be read, and what probing
    /// its audio stream found.
    Tags { tags: Option<RawTags>, probe: Probe },
    /// What came of the request.
    Reply(Reply),
    /// Whether the lyrics file was written.
    Written(bool),
}

/// Where a file is on its way. Each stage but the last waits for one event.
pub enum FileJob {
    /// New: waits for the content of the file.
    Fresh { path: String, karaoke: bool },
    /// Let through: waits for the stored ledger to take the fingerprint.
    Storing { path: String, karaoke: bool },
    /// A song: waits for its tags.
    Tags { song: Song, karaoke: bool },
    /// A song with metadata: waits for the reply of the source whose turn it is.
    Lyrics { metadata: SongMetadata, chain: Orchestrator },
    /// Lyrics found: waits for them to be written to `target`.
    Output { target: String },
    /// At the end.
    Done,
}

/// The way of the file ends here, with this outcome.
pub open spec fn stops(next: FileJob, action: Action, outcome: OutcomeView) -> bool {
    next is Done && action@ == ActionView::Stop(outcome)
}

/// The file at `path` was let through. If its extension is that of a known audio
/// format it is a song, whose tags are read next; else its way ends.
pub open spec fn enters(path: Seq<char>, karaoke: bool, next: FileJob, action: Action) -> bool {
    if AudioExtensions::of_path(path) == AudioExtensions::UNKNOWN {
        stops(next, action, OutcomeView::UnknownFormat)
    } else {
        &&& next matches FileJob::Tags { song, karaoke: prefers }
        &&& prefers == karaoke
        &&& song.filepath@ == path
        &&& song.extension == AudioExtensions::of_path(path)
        &&& file_name(path) == Some(song.filename@)
        &&& action@ == ActionView::ReadTags(path)
    }
}

/// Lyrics were found. They are written to the lyrics file of their song, or, where
/// that has no place, the way ends.
pub open spec fn writes(lyric: Lyric, next: FileJob, action: Action) -> bool {
    match lyric_target(lyric) {
        Some(target) => {
            &&& next matches FileJob::Output { target: place }
            &&& place@ == target
            &&& action@ == ActionView::Write { path: target, contents: lyric.lyric@ }
        },
        None => stops(next, action, OutcomeView::NotWritten),
    }
}

/// How a file goes on: `next` and `action` are what follows for the file at stage
/// `job` from `event`, with a policy that knows `known` and whose stored ledger lacks
/// `unsaved`.
pub open spec fn follows(
    job: FileJob,
    event: Event,
    bypasses: bool,
    known: Seq<Seq<char>>,
    unsaved: Seq<char>,
    next: FileJob,
    action: Action,
) -> bool {
    match (job, event) {
        (FileJob::Fresh { path, karaoke }, Event::Content(content)) => match verdict(
            bypasses,
            known,
            bytes_of(content),
        ) {
            Err(error) => stops(next, action, OutcomeView::LedgerFailed(error)),
            Ok(false) => stops(next, action, OutcomeView::AlreadyProcessed),
            Ok(true) => {
                let lacking = unsaved + newly_stored(bypasses, known, bytes_of(content));
                if lacking.len() == 0 {
                    enters(path@, karaoke, next, action)
                } else {
                    &&& next matches FileJob::Storing { path: same, karaoke: prefers }
                    &&& same@ == path@
                    &&& prefers == karaoke
                    &&& action@ == ActionView::Store(lacking)
                }
            },
        },
        (FileJob::Storing { path, karaoke }, Event::Stored(taken)) => if taken {
            enters(path@, karaoke, next, action)
        } else {
            stops(next, action, OutcomeView::LedgerFailed(LedgerError::AppendFailed))
        },
        (FileJob::Tags { song, karaoke }, Event::Tags { tags, probe }) => if names_song(tags) {
            &&& next matches FileJob::Lyrics { metadata, chain }
            &&& describes(metadata, song, tags->0, probe)
            &&& chain@.is_standard(karaoke)
            &&& Some(action@) == match chain@.pending(metadata) {
                Some(request) => Some(ActionView::Fetch(request)),
                None => None,
            }
        } else {
            stops(next, action, OutcomeView::NoMetadata)
        },
        (FileJob::Lyrics { metadata, chain }, Event::Reply(reply)) => match chain@.verdict(
            metadata,
            reply,
        ) {
            Verdict::Found(text) => match lyric_path(metadata.song) {
                Some(target) => {
                    &&& next matches FileJob::Output { target: place }
                    &&& place@ == target
                    &&& action@ == ActionView::Write { path: target, contents: text }
                },
                None => stops(next, action, OutcomeView::NotWritten),
            },
            Verdict::Next(request) => {
                &&& next matches FileJob::Lyrics { metadata: same, chain: moved }
                &&& same == metadata
                &&& moved@ == chain@.after(metadata, reply)
                &&& action@ == ActionView::Fetch(request)
            },
            Verdict::Exhausted(why) => stops(next, action, OutcomeView::Exhausted(why)),
            Verdict::Closed => stops(next, action, OutcomeView::OutOfTurn),
        },
        (FileJob::Output { target }, Event::Written(done)) => if done {
            stops(next, action, OutcomeView::Written(target@))
        } else {
            stops(next, action, OutcomeView::NotWritten)
        },
        _ => stops(next, action, OutcomeView::OutOfTurn),
    }
}

/// Whether the policy is asked: the file is new and its content has come.
pub open spec fn asks_policy(job: FileJob, event: Event) -> bool {
    job is Fresh && event is Content
}

impl FileJob {
    /// The way of the file at `path` begins: it is new, with its content to be
    /// read. `karaoke` says whether synchronized lyrics are preferred.
    pub fn start(path: &str, karaoke: bool) -> (r: (FileJob, Action))
        ensures
            r.0 matches FileJob::Fresh { path: same, karaoke: prefers } && same@ == path@ && prefers
                == karaoke,
            r.1@ == ActionView::ReadContent(path@),
    {
        (
            FileJob::Fresh { path: String::from_str(path), karaoke },
            Action::ReadContent(String::from_str(path)),
        )
    }

    /// The file at `path` was let through.
    fn enter(path: String, karaoke: bool) -> (r: (FileJob, Action))
        ensures
            enters(path@, karaoke, r.0, r.1),
    {
        match Song::new(path.as_str()) {
            Some(song) => (FileJob::Tags { song, karaoke }, Action::ReadTags(path)),
            None => (FileJob::Done, Action::Stop(Outcome::UnknownFormat)),
        }
    }
}

/// Lyrics were found: says where to write them, or that there is no place.
pub fn write_lyric_to_file(lyric: Lyric) -> (r: (FileJob, Action))
    ensures
        writes(lyric, r.0, r.1),
{
    match Writer::write_lyric(&lyric) {
        Some(target) => {
            let place = target.clone();
            (FileJob::Output { target: place }, Action::Write { path: target, contents: lyric.lyric })
        },
        None => (FileJob::Done, Action::Stop(Outcome::NotWritten)),
    }
}

/// Takes the file at stage `job` one step on: `event` is what came of the action
/// that the file was waiting on; the result is the stage that the file is at now
/// and the action to take for it. The policy `hasher` is asked when the content of the
/// file has come, and at no other stage.
pub fn process_single_file<P: ProcessPolicy>(job: FileJob, event: Event, hasher: &mut P) -> (r: (
    FileJob,
    Action,
))
    requires
        old(hasher).wf(),
    ensures
        final(hasher).wf(),
        follows(
            job,
            event,
            old(hasher).bypasses(),
            old(hasher).known(),
            old(hasher).unsaved(),
            r.0,
            r.1,
        ),
        final(hasher).bypasses() == old(hasher).bypasses(),
        final(hasher).known() == if asks_policy(job, event) {
            known_after(old(hasher).bypasses(), old(hasher).known(), bytes_of(event->Content_0))
        } else {
            old(hasher).known()
        },
        final(hasher).unsaved() == if asks_policy(job, event) && verdict(
            old(hasher).bypasses(),
            old(hasher).known(),
            bytes_of(event->Content_0),
        ) == Ok::<bool, LedgerError>(true) {
            Seq::<char>::empty()
        } else {
            old(hasher).unsaved()
        },
{
    match job {
        FileJob::Fresh { path, karaoke } => match event {
            Event::Content(content) => match hasher.should_process(&content) {
                Err(error) => (FileJob::Done, Action::Stop(Outcome::LedgerFailed(error))),
                Ok(false) => (FileJob::Done, Action::Stop(Outcome::AlreadyProcessed)),
                Ok(true) => {
                    let unsaved = hasher.take_unsaved();
                    if unsaved.as_str().is_empty() {
                        FileJob::enter(path, karaoke)
                    } else {
                        (FileJob::Storing { path, karaoke }, Action::Store(unsaved))
                    }
                },
            },
            _ => (FileJob::Done, Action::Stop(Outcome::OutOfTurn)),
        },
        FileJob::Storing { path, karaoke } => match event {
            Event::Stored(taken) => {
                if taken {
                    FileJob::enter(path, karaoke)
                } else {
                    (
                        FileJob::Done,
                        Action::Stop(Outcome::LedgerFailed(LedgerError::AppendFailed)),
                    )
                }
            },
            _ => (FileJob::Done, Action::Stop(Outcome::OutOfTurn)),
        },
        FileJob::Tags { song, karaoke } => match event {
            Event::Tags { tags, probe } => match MetadataExtractor::extract(&song, &tags, &probe) {
                None => (FileJob::Done, Action::Stop(Outcome::NoMetadata)),
                Some(metadata) => {
                    let chain = Orchestrator::standard(karaoke);
                    match chain.pending(&metadata) {
                        Some(request) => (FileJob::Lyrics { metadata, chain }, Action::Fetch(request)),
                        None => (FileJob::Done, Action::Stop(Outcome::OutOfTurn)),
                    }
                },
            },
            _ => (FileJob::Done, Action::Stop(Outcome::OutOfTurn)),
        },
        FileJob::Lyrics { metadata, chain } => match event {
            Event::Reply(reply) => {
                let mut chain = chain;
                match chain.resolve(&metadata, &reply) {
                    Resolution::Found(lyric) => write_lyric_to_file(lyric),
                    Resolution::Next(request) => (
                        FileJob::Lyrics { metadata, chain },
                        Action::Fetch(request),
                    ),
                    Resolution::Exhausted(why) => (FileJob::Done, Action::Stop(Outcome::Exhausted(why))),
                    Resolution::Closed => (FileJob::Done, Action::Stop(Outcome::OutOfTurn)),
                }
            },
            _ => (FileJob::Done, Action::Stop(Outcome::OutOfTurn)),
        },
        FileJob::Output { target } => match event {
            Event::Written(done) => {
                if done {
                    (FileJob::Done, Action::Stop(Outcome::Written(target)))
                } else {
                    (FileJob::Done, Action::Stop(Outcome::NotWritten))
                }
            },
            _ => (FileJob::Done, Action::Stop(Outcome::OutOfTurn)),
        },
        FileJob::Done => (FileJob::Done, Action::Stop(Outcome::OutOfTurn)),
    }
}

/// What to do with an entry of a directory.
#[derive(Debug, PartialEq, Eq)]
pub enum Work {
    /// A directory to go through in turn.
    Descend(String),
    /// A file to process.
    Process(String),
}

/// What to do with an entry, with its path as a sequence of characters.
pub enum WorkView {
    Descend(Seq<char>),
    Process(Seq<char>),
}

impl View for Work {
    type V = WorkView;

    open spec fn view(&self) -> WorkView {
        match self {
            Work::Descend(path) => WorkView::Descend(path@),
            Work::Process(path) => WorkView::Process(path@),
        }
    }
}

/// What to do with one entry of a directory: a directory is gone through if the
/// run is recursive, anything else is processed if its extension is eligible, and
/// the rest is passed over.
pub open spec fn work_for(entry: Entry, recursive: bool) -> Option<WorkView> {
    if entry.kind == EntryKind::Directory {
        if recursive {
            Some(WorkView::Descend(entry.path@))
        } else {
            None
        }
    } else if is_eligible(entry.path@) {
        Some(WorkView::Process(entry.path@))
    } else {
        None
    }
}

/// What to do with the entries of a directory, in their order.
pub open spec fn planned(entries: Seq<Entry>, recursive: bool) -> Seq<WorkView>
    decreases entries.len(),
{
    if entries.len() == 0 {
        Seq::empty()
    } else {
        let before = planned(entries.drop_last(), recursive);
        match work_for(entries.last(), recursive) {
            Some(work) => before.push(work),
            None => before,
        }
    }
}

/// The work of each item of `works`, with its path as a sequence of characters.
pub open spec fn work_views(works: Seq<Work>) -> Seq<WorkView> {
    Seq::new(works.len(), |i: int| works[i]@)
}

/// What to do with the entries of one directory, in their order: which
/// directories to go through in turn, and which files to process.
pub fn process_directory(entries: &Vec<Entry>, recursive: bool) -> (r: Vec<Work>)
    ensures
        work_views(r@) == planned(entries@, recursive),
{
    let mut out: Vec<Work> = Vec::new();
    let mut i: usize = 0;
    assert(entries@.take(0) =~= Seq::<Entry>::empty());
    assert(work_views(out@) =~= Seq::<WorkView>::empty());
    while i < entries.len()
        invariant
            i <= entries.len(),
            work_views(out@) == planned(entries@.take(i as int), recursive),
        decreases entries.len() - i,
    {
        let entry = &entries[i];
        assert(entries@.take(i + 1).drop_last() == entries@.take(i as int));
        let ghost before = work_views(out@);
        if entry.kind == EntryKind::Directory {
            if recursive {
                out.push(Work::Descend(entry.path.clone()));
                assert(work_views(out@) =~= before.push(WorkView::Descend(entry.path@)));
            }
        } else if eligible(entry.path.as_str()) {
            out.push(Work::Process(entry.path.clone()));
            assert(work_views(out@) =~= before.push(WorkView::Process(entry.path@)));
        }
        i += 1;
    }
    assert(entries@.take(entries.len() as int) == entries@);
    out
}

/// A file whose content the ledger knows goes no further: its way ends there,
/// before anything is fetched or written.
pub proof fn lemma_known_content_is_held_back(
    job: FileJob,
    content: Vec<u8>,
    known: Seq<Seq<char>>,
    unsaved: Seq<char>,
    next: FileJob,
    action: Action,
)
    requires
        job is Fresh,
        known.contains(crate::hasher::file_hash_helper::fingerprint(content@)),
        follows(job, Event::Content(Some(content)), false, known, unsaved, next, action),
    ensures
        stops(next, action, OutcomeView::AlreadyProcessed),
{
}

/// A content is processed once: a file with a content that the policy of a run that
/// is not forced has seen before, under whatever path and with whatever result, is
/// held back when its content comes.
pub proof fn lemma_second_time_is_held_back(
    job: FileJob,
    content: Vec<u8>,
    known_before: Seq<Seq<char>>,
    unsaved: Seq<char>,
    next: FileJob,
    action: Action,
)
    requires
        job is Fresh,
        follows(
            job,
            Event::Content(Some(content)),
            false,
            known_after(false, known_before, Some(content@)),
            unsaved,
            next,
            action,
        ),
    ensures
        stops(next, action, OutcomeView::AlreadyProcessed),
{
    crate::hasher::file_hash_helper::lemma_record_keeps_order(
        known_before,
        crate::hasher::file_hash_helper::fingerprint(content@),
    );
}

/// A file whose way has ended stays there: whatever is reported for it, nothing is
/// read, stored, fetched or written.
pub proof fn lemma_done_is_final(
    event: Event,
    bypasses: bool,
    known: Seq<Seq<char>>,
    unsaved: Seq<char>,
    next: FileJob,
    action: Action,
)
    requires
        follows(FileJob::Done, event, bypasses, known, unsaved, next, action),
    ensures
        next is Done,
        action@ is Stop,
{
}

/// In a forced run every file is let through, readable or not, known or not, and
/// goes on as a file does that a ledger sees for the first time.
pub proof fn lemma_forced_run_lets_through(
    job: FileJob,
    content: Option<Vec<u8>>,
    known: Seq<Seq<char>>,
    next: FileJob,
    action: Action,
)
    requires
        job is Fresh,
        follows(job, Event::Content(content), true, known, Seq::empty(), next, action),
    ensures
        enters(job->Fresh_path@, job->Fresh_karaoke, next, action),
{
    let lacking = Seq::<char>::empty() + newly_stored(true, known, bytes_of(content));
    assert(lacking.len() == 0);
}

/// Nothing is written but lyrics that a source has just given: a lyrics file is
/// written only for a file that awaits a reply, on a reply in which the source whose
/// turn it is has usable lyrics. So where the ledger holds a file back, where its
/// metadata is missing, or where every source fails, no lyrics file is written.
pub proof fn lemma_only_found_lyrics_are_written(
    job: FileJob,
    event: Event,
    bypasses: bool,
    known: Seq<Seq<char>>,
    unsaved: Seq<char>,
    next: FileJob,
    action: Action,
)
    requires
        follows(job, event, bypasses, known, unsaved, next, action),
        action@ is Write,
    ensures
        job is Lyrics,
        event is Reply,
        job->Lyrics_chain@.verdict(job->Lyrics_metadata, event->Reply_0) == Verdict::Found(
            action@->Write_contents,
        ),
        action@->Write_contents.len() > 0,
{
}

/// Nothing is fetched for a file that was not let through: a request goes out
/// only for a song whose tags have come, or whose last source has failed.
pub proof fn lemma_only_songs_are_fetched_for(
    job: FileJob,
    event: Event,
    bypasses: bool,
    known: Seq<Seq<char>>,
    unsaved: Seq<char>,
    next: FileJob,
    action: Action,
)
    requires
        follows(job, event, bypasses, known, unsaved, next, action),
        action@ is Fetch,
    ensures
        job is Tags || job is Lyrics,
        next is Lyrics,
{
}

/// Whether `jobs` and `actions` are the stages and the actions of a song as one reply
/// after the other comes in: stage and action behind each reply follow from the
/// stage before it.
pub open spec fn replies_lead(
    jobs: Seq<FileJob>,
    replies: Seq<Reply>,
    actions: Seq<Action>,
    bypasses: bool,
    known: Seq<Seq<char>>,
    unsaved: Seq<char>,
) -> bool {
    &&& jobs.len() == replies.len() + 1
    &&& actions.len() == replies.len()
    &&& forall|i: int|
        0 <= i < replies.len() ==> follows(
            #[trigger] jobs[i],
            Event::Reply(replies[i]),
            bypasses,
            known,
            unsaved,
            jobs[i + 1],
            actions[i],
        )
}

/// While one source after the other fails, the song goes on waiting for lyrics:
/// each failure but that of the last source only brings the request for the next
/// source, and the turn passes on.
pub proof fn lemma_failures_pass_the_turn(
    jobs: Seq<FileJob>,
    replies: Seq<Reply>,
    actions: Seq<Action>,
    bypasses: bool,
    known: Seq<Seq<char>>,
    unsaved: Seq<char>,
    sources: Seq<LyricSource>,
    metadata: SongMetadata,
    count: int,
)
    requires
        replies_lead(jobs, replies, actions, bypasses, known, unsaved),
        jobs[0] matches FileJob::Lyrics { metadata: first, chain } && first == metadata && chain@
            == Chain::fresh(sources),
        0 <= count <= replies.len(),
        count < sources.len(),
        all_fail(sources, metadata, replies, count),
    ensures
        jobs[count] matches FileJob::Lyrics { metadata: same, chain } && same == metadata && chain@
            == (Chain { sources, cursor: count as nat, found: false }),
        forall|i: int|
            0 <= i < count ==> (#[trigger] actions[i])@ == ActionView::Fetch(
                sources[i + 1].asks(metadata),
            ),
    decreases count,
{
    if count > 0 {
        assert forall|i: int| 0 <= i < count - 1 implies (#[trigger] attempt(
            sources[i],
            metadata,
            replies[i],
        )) is Err by {
            assert(attempt(sources[i], metadata, replies[i]) is Err);
        }
        lemma_failures_pass_the_turn(
            jobs,
            replies,
            actions,
            bypasses,
            known,
            unsaved,
            sources,
            metadata,
            count - 1,
        );
        let before = jobs[count - 1];
        assert(follows(
            before,
            Event::Reply(replies[count - 1]),
            bypasses,
            known,
            unsaved,
            jobs[count - 1 + 1],
            actions[count - 1],
        ));
        assert(attempt(sources[count - 1], metadata, replies[count - 1]) is Err);
    }
}

/// Where every source fails, nothing is written: as the replies come in, the song
/// asks one source after the other, and with the failure of the last its way ends,
/// exhausted. No action on the way writes a file.
pub proof fn lemma_exhausted_sources_write_nothing(
    jobs: Seq<FileJob>,
    replies: Seq<Reply>,
    actions: Seq<Action>,
    bypasses: bool,
    known: Seq<Seq<char>>,
    unsaved: Seq<char>,
    sources: Seq<LyricSource>,
    metadata: SongMetadata,
)
    requires
        replies_lead(jobs, replies, actions, bypasses, known, unsaved),
        jobs[0] matches FileJob::Lyrics { metadata: first, chain } && first == metadata && chain@
            == Chain::fresh(sources),
        0 < replies.len() == sources.len(),
        all_fail(sources, metadata, replies, replies.len() as int),
    ensures
        forall|i: int| 0 <= i < actions.len() ==> !((#[trigger] actions[i])@ is Write),
        stops(
            jobs.last(),
            actions.last(),
            OutcomeView::Exhausted(attempt(sources.last(), metadata, replies.last())->Err_0),
        ),
{
    let last = replies.len() - 1;
    assert forall|i: int| 0 <= i < last implies (#[trigger] attempt(
        sources[i],
        metadata,
        replies[i],
    )) is Err by {
        assert(attempt(sources[i], metadata, replies[i]) is Err);
    }
    lemma_failures_pass_the_turn(
        jobs,
        replies,
        actions,
        bypasses,
        known,
        unsaved,
        sources,
        metadata,
        last,
    );
    assert(follows(
        jobs[last],
        Event::Reply(replies[last]),
        bypasses,
        known,
        unsaved,
        jobs[last + 1],
        actions[last],
    ));
    assert(attempt(sources[last], metadata, replies[last]) is Err);
}

/// The lyrics of the first source that has usable ones are written, and no failure
/// before them comes to light: where each source before the last to reply fails and
/// that one has usable lyrics, each failure only brings the request for the next
/// source, and the lyrics are what is written to the lyrics file of the song.
pub proof fn lemma_first_usable_lyrics_are_written(
    jobs: Seq<FileJob>,
    replies: Seq<Reply>,
    actions: Seq<Action>,
    bypasses: bool,
    known: Seq<Seq<char>>,
    unsaved: Seq<char>,
    sources: Seq<LyricSource>,
    metadata: SongMetadata,
    text: Seq<char>,
)
    requires
        replies_lead(jobs, replies, actions, bypasses, known, unsaved),
        jobs[0] matches FileJob::Lyrics { metadata: first, chain } && first == metadata && chain@
            == Chain::fresh(sources),
        0 < replies.len() <= sources.len(),
        all_fail(sources, metadata, replies, replies.len() - 1),
        attempt(sources[replies.len() - 1], metadata, replies.last()) == Ok::<
            Seq<char>,
            Seq<char>,
        >(text),
    ensures
        forall|i: int|
            0 <= i < actions.len() - 1 ==> (#[trigger] actions[i])@ == ActionView::Fetch(
                sources[i + 1].asks(metadata),
            ),
        match lyric_path(metadata.song) {
            Some(target) => actions.last()@ == (ActionView::Write { path: target, contents: text }),
            None => stops(jobs.last(), actions.last(), OutcomeView::NotWritten),
        },
{
    let last = replies.len() - 1;
    lemma_failures_pass_the_turn(
        jobs,
        replies,
        actions,
        bypasses,
        known,
        unsaved,
        sources,
        metadata,
        last,
    );
    assert(follows(
        jobs[last],
        Event::Reply(replies[last]),
        bypasses,
        known,
        unsaved,
        jobs[last + 1],
        actions[last],
    ));
}

} // verus!
