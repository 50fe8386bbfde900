//! Songs, their audio formats, their metadata and their lyrics.

use vstd::prelude::*;
use crate::path::{extension, extension_of, file_name, file_name_of};
use crate::text::{ascii_lowercase, same_text, to_ascii_lowercase};

verus! {

/// The audio formats that the library knows by their file extension.
#[derive(Debug, PartialEq, Eq, Structural, PartialOrd, Ord, Clone, Copy, Hash)]
pub enum AudioExtensions {
    MP3,
    OGG,
    M4A,
    FLAC,
    WAV,
    AIFF,
    WMA,
    AAC,
    UNKNOWN,
}

impl AudioExtensions {
    /// The extension that files of this format carry, in lower case.
    pub open spec fn name(self) -> Seq<char> {
        match self {
            AudioExtensions::MP3 => "mp3"@,
            AudioExtensions::OGG => "ogg"@,
            AudioExtensions::M4A => "m4a"@,
            AudioExtensions::FLAC => "flac"@,
            AudioExtensions::WAV => "wav"@,
            AudioExtensions::AIFF => "aiff"@,
            AudioExtensions::WMA => "wma"@,
            AudioExtensions::AAC => "aac"@,
            AudioExtensions::UNKNOWN => "unknown"@,
        }
    }

    /// The format whose extension is exactly `ext`; `UNKNOWN` where there is none.
    pub open spec fn named(ext: Seq<char>) -> AudioExtensions {
        if ext == "mp3"@ {
            AudioExtensions::MP3
        } else if ext == "ogg"@ {
            AudioExtensions::OGG
        } else if ext == "m4a"@ {
            AudioExtensions::M4A
        } else if ext == "flac"@ {
            AudioExtensions::FLAC
        } else if ext == "wav"@ {
            AudioExtensions::WAV
        } else if ext == "aiff"@ {
            AudioExtensions::AIFF
        } else if ext == "wma"@ {
            AudioExtensions::WMA
        } else if ext == "aac"@ {
            AudioExtensions::AAC
        } else {
            AudioExtensions::UNKNOWN
        }
    }

    /// The extension of the path `filepath` in ASCII lower case, and `unknown` where
    /// the path has none.
    pub open spec fn lowercase_extension(filepath: Seq<char>) -> Seq<char> {
        match extension(filepath) {
            Some(ext) => ascii_lowercase(ext),
            None => "unknown"@,
        }
    }

    /// The format of the file at `filepath`, told by its extension alone. Letter case
    /// does not matter.
    pub open spec fn of_path(filepath: Seq<char>) -> AudioExtensions {
        Self::named(Self::lowercase_extension(filepath))
    }

    /// The extension that files of this format carry.
    pub fn get_extension(&self) -> (r: &'static str)
        ensures
            r@ == self.name(),
    {
        match self {
            AudioExtensions::MP3 => "mp3",
            AudioExtensions::OGG => "ogg",
            AudioExtensions::M4A => "m4a",
            AudioExtensions::FLAC => "flac",
            AudioExtensions::WAV => "wav",
            AudioExtensions::AIFF => "aiff",
            AudioExtensions::WMA => "wma",
            AudioExtensions::AAC => "aac",
            AudioExtensions::UNKNOWN => "unknown",
        }
    }

    /// The extension of `filepath` in lower case; `unknown` where it has none.
    pub fn get_extension_as_str(filepath: &str) -> (r: String)
        ensures
            r@ == Self::lowercase_extension(filepath@),
    {
        match extension_of(filepath) {
            Some(ext) => to_ascii_lowercase(ext.as_str()),
            None => String::from_str("unknown"),
        }
    }

    /// The format with the extension `ext`, which is taken as it is written.
    pub fn from_extension(ext: &str) -> (r: AudioExtensions)
        ensures
            r == Self::named(ext@),
    {
        if same_text(ext, "mp3") {
            AudioExtensions::MP3
        } else if same_text(ext, "ogg") {
            AudioExtensions::OGG
        } else if same_text(ext, "m4a") {
            AudioExtensions::M4A
        } else if same_text(ext, "flac") {
            AudioExtensions::FLAC
        } else if same_text(ext, "wav") {
            AudioExtensions::WAV
        } else if same_text(ext, "aiff") {
            AudioExtensions::AIFF
        } else if same_text(ext, "wma") {
            AudioExtensions::WMA
        } else if same_text(ext, "aac") {
            AudioExtensions::AAC
        } else {
            AudioExtensions::UNKNOWN
        }
    }

    /// The format of the file at `filepath`, told by its extension alone.
    pub fn get_extension_by_filepath(filepath: &str) -> (r: AudioExtensions)
        ensures
            r == Self::of_path(filepath@),
    {
        let current_extension = Self::get_extension_as_str(filepath);
        Self::from_extension(current_extension.as_str())
    }

    /// The format as text: its extension.
    pub fn fmt(&self) -> (r: String)
        ensures
            r@ == self.name(),
    {
        String::from_str(self.get_extension())
    }

    /// Each format is the format of its own extension.
    pub proof fn lemma_format_of_own_extension(format: AudioExtensions)
        ensures
            Self::named(format.name()) == format,
    {
        reveal_strlit("unknown");
        reveal_strlit("mp3");
        reveal_strlit("ogg");
        reveal_strlit("m4a");
        reveal_strlit("flac");
        reveal_strlit("wav");
        reveal_strlit("aiff");
        reveal_strlit("wma");
        reveal_strlit("aac");
        let name = format.name();
        assert(name.len() == 7 ==> format == AudioExtensions::UNKNOWN);
        assert(name.len() == 4 ==> name[0] == 'f' || name[0] == 'a');
        assert(name.len() == 3 ==> name[0] == 'm' || name[0] == 'o' || name[0] == 'w' || name[0]
            == 'a');
        assert("mp3"@[0] == 'm' && "mp3"@[1] == 'p');
        assert("m4a"@[0] == 'm' && "m4a"@[1] == '4');
        assert("ogg"@[0] == 'o');
        assert("wav"@[0] == 'w' && "wav"@[1] == 'a');
        assert("wma"@[0] == 'w' && "wma"@[1] == 'm');
        assert("aac"@[0] == 'a');
        assert("flac"@[0] == 'f');
        assert("aiff"@[0] == 'a');
    }

    /// A path whose format is known has an extension, and so a file name.
    pub proof fn lemma_known_format_has_file_name(filepath: Seq<char>)
        requires
            Self::of_path(filepath) != AudioExtensions::UNKNOWN,
        ensures
            extension(filepath) is Some,
            file_name(filepath) is Some,
    {
        reveal_strlit("unknown");
        reveal_strlit("mp3");
        reveal_strlit("ogg");
        reveal_strlit("m4a");
        reveal_strlit("flac");
        reveal_strlit("wav");
        reveal_strlit("aiff");
        reveal_strlit("wma");
        reveal_strlit("aac");
        if extension(filepath) is None {
            let ext = Self::lowercase_extension(filepath);
            assert(ext.len() == 7);
            assert("mp3"@.len() == 3 && "ogg"@.len() == 3 && "m4a"@.len() == 3);
            assert("flac"@.len() == 4 && "wav"@.len() == 3 && "aiff"@.len() == 4);
            assert("wma"@.len() == 3 && "aac"@.len() == 3);
            assert(Self::named(ext) == AudioExtensions::UNKNOWN);
        }
    }
}

/// An audio file: where it lies, what it is called and what format it has.
#[derive(Debug, PartialEq, Eq, PartialOrd, Ord, Hash)]
pub struct Song {
    pub filename: String,
    pub extension: AudioExtensions,
    pub filepath: String,
}

impl Clone for Song {
    fn clone(&self) -> (r: Self)
        ensures
            r == *self,
    {
        Song {
            filename: self.filename.clone(),
            extension: self.extension,
            filepath: self.filepath.clone(),
        }
    }
}

impl Song {
    /// How a song reads as text.
    pub open spec fn display(self) -> Seq<char> {
        "filename: "@ + self.filename@ + ", extension: "@ + self.extension.name()
            + ", filepath: "@ + self.filepath@
    }

    /// The song at `filepath`, where the extension of the path is that of a known
    /// audio format; `None` for any other path.
    pub fn new(filepath: &str) -> (r: Option<Song>)
        ensures
            r is Some <==> AudioExtensions::of_path(filepath@) != AudioExtensions::UNKNOWN,
            r matches Some(song) ==> {
                &&& song.filepath@ == filepath@
                &&& song.extension == AudioExtensions::of_path(filepath@)
                &&& file_name(filepath@) == Some(song.filename@)
            },
    {
        let extension = AudioExtensions::get_extension_by_filepath(filepath);
        if extension == AudioExtensions::UNKNOWN {
            return None;
        }
        proof {
            AudioExtensions::lemma_known_format_has_file_name(filepath@);
        }
        match file_name_of(filepath) {
            Some(filename) => Some(Song { filename, extension, filepath: String::from_str(filepath) }),
            None => None,
        }
    }

    /// A song without a name and without a path, in MP3 format.
    pub fn empty() -> (r: Song)
        ensures
            r.filename@ == Seq::<char>::empty(),
            r.extension == AudioExtensions::MP3,
            r.filepath@ == Seq::<char>::empty(),
    {
        Song { filename: String::new(), extension: AudioExtensions::MP3, filepath: String::new() }
    }

    /// Whether the song's path names a regular file, given what the file system says
    /// of that path: `exists` is whether something is there (`None` where that could
    /// not be found out), `regular` whether what is there is a regular file.
    pub fn is_file(&self, exists: Option<bool>, regular: bool) -> (r: bool)
        ensures
            r == (exists == Some(true) && regular),
    {
        match exists {
            Some(true) => regular,
            Some(false) | None => false,
        }
    }

    /// The song as text: its name, its format and its path.
    pub fn fmt(&self) -> (r: String)
        ensures
            r@ == self.display(),
    {
        let mut r = String::from_str("filename: ");
        r.append(self.filename.as_str());
        r.append(", extension: ");
        r.append(self.extension.get_extension());
        r.append(", filepath: ");
        r.append(self.filepath.as_str());
        r
    }
}

/// What is known of a song besides its file.
#[derive(Debug, PartialEq, Eq)]
pub struct SongMetadata {
    pub song: Song,
    pub artist: String,
    pub title: String,
    pub album_title: String,
    /// The length of the song in seconds, where it could be found out.
    pub duration: Option<u16>,
}

impl Clone for SongMetadata {
    fn clone(&self) -> (r: Self)
        ensures
            r == *self,
    {
        SongMetadata {
            song: self.song.clone(),
            artist: self.artist.clone(),
            title: self.title.clone(),
            album_title: self.album_title.clone(),
            duration: self.duration,
        }
    }
}

/// The lyrics found for a song.
#[derive(Debug, PartialEq, Eq, PartialOrd, Ord, Hash)]
pub struct Lyric {
    pub lyric: String,
    pub song: Song,
}

impl Clone for Lyric {
    fn clone(&self) -> (r: Self)
        ensures
            r == *self,
    {
        Lyric { lyric: self.lyric.clone(), song: self.song.clone() }
    }
}

/// The lyric source that reads lyrics off a web page.
pub struct LyricScraperV1 {}

/// The one that plans where lyrics are written.
pub struct Writer;

} // verus!
