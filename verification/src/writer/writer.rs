//! Where lyrics go: into a file beside the song, named like the song, with the
//! extension `lrc`. The library does not write the file: it says where to write.

use vstd::prelude::*;
use crate::model::data_model::{Lyric, Song, Writer};
use crate::path::{
    extension, file_name, file_stem, is_stripped, join, join_paths, last_index_of,
    lemma_file_name_is_plain, lemma_last_index_is, lemma_last_index_of,
    lemma_strip_trailing_is_stripped, parent, parent_of, strip_trailing, with_extension,
    with_extension_of, SEPARATOR,
};

verus! {

/// The extension of a lyrics file.
pub const LYRIC_EXTENSION: &'static str = "lrc";

/// The path of the lyrics file of a song: in the directory of the song's file, the
/// song's file name with the extension `lrc`. A song whose path has no parent has
/// none.
pub open spec fn lyric_path(song: Song) -> Option<Seq<char>> {
    match parent(song.filepath@) {
        None => None,
        Some(directory) => Some(join(directory, with_extension(song.filename@, LYRIC_EXTENSION@))),
    }
}

/// Where lyrics are written: to the lyrics file of their song. Empty lyrics are
/// written nowhere.
pub open spec fn lyric_target(lyric: Lyric) -> Option<Seq<char>> {
    if lyric.lyric@.len() == 0 {
        None
    } else {
        lyric_path(lyric.song)
    }
}

impl Writer {
    /// The path of the file to write the lyrics to; `None` where they are not to be
    /// written: they are empty, or their song's path has no parent.
    pub fn write_lyric(lyric: &Lyric) -> (r: Option<String>)
        ensures
            r is Some <==> lyric_target(*lyric) is Some,
            r matches Some(target) ==> lyric_target(*lyric) == Some(target@),
    {
        match parent_of(lyric.song.filepath.as_str()) {
            None => None,
            Some(directory) => {
                if lyric.lyric.as_str().is_empty() {
                    return None;
                }
                let new_filename = with_extension_of(lyric.song.filename.as_str(), LYRIC_EXTENSION);
                Some(join_paths(directory.as_str(), new_filename.as_str()))
            },
        }
    }
}

/// The lyrics file lies beside the song: for a song that carries the file name of
/// its path, the lyrics file is in the directory of the song's file, and its name is
/// the stem of the song's file name with the extension `lrc`.
pub proof fn lemma_lyrics_lie_beside_the_song(song: Song)
    requires
        file_name(song.filepath@) == Some(song.filename@),
    ensures
        lyric_path(song) is Some,
        parent(lyric_path(song)->0) == parent(song.filepath@),
        file_name(lyric_path(song)->0) == Some(
            file_stem(song.filepath@)->0 + seq!['.'] + LYRIC_EXTENSION@,
        ),
        extension(lyric_path(song)->0) == Some(LYRIC_EXTENSION@),
{
    reveal_strlit("lrc");
    let path = song.filepath@;
    let name = song.filename@;
    let ext = LYRIC_EXTENSION@;
    lemma_file_name_is_plain(path);
    let stem = file_stem(path)->0;
    let new_name = stem + seq!['.'] + ext;
    assert(name.subrange(0, stem.len() as int) == stem);
    assert(with_extension(name, ext) == new_name);
    assert forall|j: int| 0 <= j < new_name.len() implies new_name[j] != SEPARATOR by {
        if j < stem.len() {
            assert(new_name[j] == name[j]);
        }
    }

    // The directory of the song.
    let t = strip_trailing(path);
    let head = t.subrange(0, last_index_of(t, SEPARATOR) + 1);
    lemma_last_index_of(t, SEPARATOR);
    lemma_strip_trailing_is_stripped(head);
    let dir = parent(path)->0;
    assert(dir == seq![SEPARATOR] || is_stripped(dir));

    // The lyrics file.
    let target = join(dir, new_name);
    assert(lyric_path(song) == Some(target));
    let slash: int = if dir.len() == 0 {
        -1
    } else if dir.last() == SEPARATOR {
        dir.len() - 1
    } else {
        dir.len() as int
    };
    assert(target.len() == slash + 1 + new_name.len());
    assert(target.subrange(slash + 1, target.len() as int) == new_name);
    assert forall|j: int| slash < j < target.len() implies target[j] != SEPARATOR by {
        assert(target[j] == new_name[j - slash - 1]);
    }
    assert(target.last() == 'c');
    assert(is_stripped(target));
    lemma_last_index_is(target, SEPARATOR, slash);
    assert(file_name(target) == Some(new_name));

    // Its extension.
    assert forall|j: int| stem.len() < j < new_name.len() implies new_name[j] != '.' by {
        assert(new_name[j] == ext[j - stem.len() - 1]);
    }
    lemma_last_index_is(new_name, '.', stem.len() as int);
    assert(new_name.subrange(stem.len() as int + 1, new_name.len() as int) == ext);

    // Its directory.
    let target_head = target.subrange(0, slash + 1);
    if dir.len() == 0 {
        assert(target_head == Seq::<char>::empty());
    } else if dir.last() == SEPARATOR {
        assert(target_head == dir);
        assert(dir == seq![SEPARATOR]);
        assert(strip_trailing(dir.drop_last()) == Seq::<char>::empty());
    } else {
        assert(target_head == dir.push(SEPARATOR));
        assert(target_head.drop_last() == dir);
    }
}

} // verus!
