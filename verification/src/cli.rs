//! The command line of a run: the flags, the path to start from, and what to do with
//! that path.

use vstd::prelude::*;
use crate::parallel_helper::parallel_helper::EntryKind;
use crate::pipeline::{Work, WorkView};
use crate::text::{same_text, texts};

verus! {

/// What a command line asks for.
#[derive(Debug, PartialEq, Eq)]
pub struct Invocation {
    /// The file or directory to start from.
    pub path: String,
    /// Whether directories below the first are gone through as well.
    pub recursive: bool,
    /// Whether synchronized lyrics are preferred.
    pub karaoke: bool,
    /// Whether files are processed again that were processed before.
    pub force: bool,
}

/// Why a command line cannot be served.
#[derive(Debug, PartialEq, Eq, Structural, Clone, Copy)]
pub enum UsageError {
    /// The command line names no file or directory.
    MissingPath,
    /// The path is neither a file nor a directory that can be read.
    InvalidPath,
}

/// What the arguments read so far ask for.
pub struct Flags {
    pub path: Option<Seq<char>>,
    pub recursive: bool,
    pub karaoke: bool,
    pub force: bool,
}

/// What the arguments `args` ask for. `-r` and `--recursive`, `-k` and `--karaoke`,
/// `-f` and `--force` set a flag each. Any other argument is the path; of several,
/// the last counts.
pub open spec fn read_flags(args: Seq<Seq<char>>) -> Flags
    decreases args.len(),
{
    if args.len() == 0 {
        Flags { path: None, recursive: false, karaoke: false, force: false }
    } else {
        let before = read_flags(args.drop_last());
        let arg = args.last();
        if arg == "-k"@ || arg == "--karaoke"@ {
            Flags { karaoke: true, ..before }
        } else if arg == "-r"@ || arg == "--recursive"@ {
            Flags { recursive: true, ..before }
        } else if arg == "-f"@ || arg == "--force"@ {
            Flags { force: true, ..before }
        } else {
            Flags { path: Some(arg), ..before }
        }
    }
}

/// What a command line asks for. Its first word is the name of the program and does
/// not count.
pub open spec fn asked(command_line: Seq<Seq<char>>) -> Flags {
    if command_line.len() == 0 {
        read_flags(command_line)
    } else {
        read_flags(command_line.skip(1))
    }
}

/// What the command line `args` asks for, or that it names no path.
pub fn parse_args(args: &Vec<String>) -> (r: Result<Invocation, UsageError>)
    ensures
        match r {
            Ok(invocation) => {
                &&& asked(texts(args@)).path == Some(invocation.path@)
                &&& asked(texts(args@)).recursive == invocation.recursive
                &&& asked(texts(args@)).karaoke == invocation.karaoke
                &&& asked(texts(args@)).force == invocation.force
            },
            Err(error) => error == UsageError::MissingPath && asked(texts(args@)).path is None,
        },
{
    if args.len() == 0 {
        return Err(UsageError::MissingPath);
    }
    let mut path: Option<String> = None;
    let mut recursive = false;
    let mut karaoke = false;
    let mut force = false;
    let mut i: usize = 1;
    let ghost words = texts(args@).skip(1);
    assert(words.take(0) =~= Seq::<Seq<char>>::empty());
    while i < args.len()
        invariant
            1 <= i <= args.len(),
            words == texts(args@).skip(1),
            ({
                let flags = read_flags(words.take(i - 1));
                &&& flags.recursive == recursive
                &&& flags.karaoke == karaoke
                &&& flags.force == force
                &&& flags.path == match path {
                    Some(p) => Some(p@),
                    None => None,
                }
            }),
        decreases args.len() - i,
    {
        let arg = args[i].as_str();
        assert(words.take(i as int).drop_last() == words.take(i - 1));
        assert(words.take(i as int).last() == arg@);
        if same_text(arg, "-k") || same_text(arg, "--karaoke") {
            karaoke = true;
        } else if same_text(arg, "-r") || same_text(arg, "--recursive") {
            recursive = true;
        } else if same_text(arg, "-f") || same_text(arg, "--force") {
            force = true;
        } else {
            path = Some(args[i].clone());
        }
        i += 1;
    }
    assert(words.take(args.len() - 1) == words);
    match path {
        Some(path) => Ok(Invocation { path, recursive, karaoke, force }),
        None => Err(UsageError::MissingPath),
    }
}

/// What to do with the path that a run starts from, given what the file system says
/// it is (`None` where it could not say): a directory is gone through, a file is
/// processed, and anything else cannot be served.
pub fn root_work(path: &str, kind: Option<EntryKind>) -> (r: Result<Work, UsageError>)
    ensures
        match kind {
            Some(EntryKind::Directory) => r matches Ok(work) && work@ == WorkView::Descend(path@),
            Some(EntryKind::File) => r matches Ok(work) && work@ == WorkView::Process(path@),
            _ => r == Err::<Work, UsageError>(UsageError::InvalidPath),
        },
{
    match kind {
        Some(EntryKind::Directory) => Ok(Work::Descend(String::from_str(path))),
        Some(EntryKind::File) => Ok(Work::Process(String::from_str(path))),
        _ => Err(UsageError::InvalidPath),
    }
}

} // verus!
