//! Which of the entries of a directory tree are audio files to process. The library
//! does not walk the tree: its caller hands in what the walk found.

use vstd::prelude::*;
use crate::model::data_model::AudioExtensions;

verus! {

/// What kind of thing an entry of a directory is.
#[derive(Debug, PartialEq, Eq, Structural, Clone, Copy)]
pub enum EntryKind {
    File,
    Directory,
    Other,
}

/// An entry that a walk through a directory tree found.
#[derive(Debug)]
pub struct Entry {
    pub path: String,
    pub kind: EntryKind,
    /// How deep below the root of the walk the entry lies: 0 for the root itself, 1
    /// for what lies directly in it.
    pub depth: usize,
}

/// Whether files of this format are processed.
pub open spec fn is_supported(format: AudioExtensions) -> bool {
    format == AudioExtensions::MP3 || format == AudioExtensions::FLAC
}

/// Whether the path has the extension of a format that is processed.
pub open spec fn is_eligible(path: Seq<char>) -> bool {
    is_supported(AudioExtensions::of_path(path))
}

/// Whether an entry is collected: it is a file with an eligible extension, and it
/// lies directly in the root unless the walk is recursive.
pub open spec fn is_collected(entry: Entry, recursive: bool) -> bool {
    &&& entry.kind == EntryKind::File
    &&& recursive || entry.depth <= 1
    &&& is_eligible(entry.path@)
}

/// The paths of the entries that are collected, in the order of the entries.
pub open spec fn collected(entries: Seq<Entry>, recursive: bool) -> Seq<Seq<char>>
    decreases entries.len(),
{
    if entries.len() == 0 {
        Seq::empty()
    } else {
        let before = collected(entries.drop_last(), recursive);
        if is_collected(entries.last(), recursive) {
            before.push(entries.last().path@)
        } else {
            before
        }
    }
}

/// Whether the file at `path` is one to process, told by its extension alone.
pub fn eligible(path: &str) -> (r: bool)
    ensures
        r == is_eligible(path@),
{
    let format = AudioExtensions::get_extension_by_filepath(path);
    format == AudioExtensions::MP3 || format == AudioExtensions::FLAC
}

/// The one that collects audio files.
pub struct ParallelHelper;

impl ParallelHelper {
    /// The audio files among the entries that a walk found: the paths of the files
    /// with an eligible extension, in the order found. Unless `recursive` is set,
    /// only what lies directly in the root of the walk counts.
    pub fn collect_audio_files(entries: &Vec<Entry>, recursive: bool) -> (r: Vec<String>)
        ensures
            crate::text::texts(r@) == collected(entries@, recursive),
    {
        let mut out: Vec<String> = Vec::new();
        let mut i: usize = 0;
        assert(entries@.take(0) =~= Seq::<Entry>::empty());
        assert(crate::text::texts(out@) =~= Seq::<Seq<char>>::empty());
        while i < entries.len()
            invariant
                i <= entries.len(),
                crate::text::texts(out@) == collected(entries@.take(i as int), recursive),
            decreases entries.len() - i,
        {
            let entry = &entries[i];
            assert(entries@.take(i + 1).drop_last() == entries@.take(i as int));
            let ghost before = crate::text::texts(out@);
            if entry.kind == EntryKind::File && (recursive || entry.depth <= 1) && eligible(
                entry.path.as_str(),
            ) {
                out.push(entry.path.clone());
                assert(crate::text::texts(out@) =~= before.push(entry.path@));
            }
            i += 1;
        }
        assert(entries@.take(entries.len() as int) == entries@);
        out
    }
}

} // verus!
