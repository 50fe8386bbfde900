use getlyrics::path::{extension_of, file_name_of, join_paths, parent_of, with_extension_of};
use getlyrics::text::{
    chars_of, append_str, decimal_string, hex_string, join_with, same_text, to_ascii_lowercase, trim,
};

fn some(text: &str) -> Option<String> {
    Some(String::from(text))
}

#[test]
fn decimal_string_writes_numbers_without_leading_zeros() {
    assert_eq!(decimal_string(0), "0");
    assert_eq!(decimal_string(7), "7");
    assert_eq!(decimal_string(10), "10");
    assert_eq!(decimal_string(180), "180");
    assert_eq!(decimal_string(404), "404");
    assert_eq!(decimal_string(65535), "65535");
    assert_eq!(decimal_string(u64::MAX), "18446744073709551615");
}

#[test]
fn hex_string_writes_two_lower_case_digits_for_each_byte() {
    assert_eq!(hex_string(&vec![]), "");
    assert_eq!(hex_string(&vec![0x00, 0x09, 0x0a, 0x1f, 0xab, 0xff]), "00090a1fabff");
}

#[test]
fn trim_removes_whitespace_at_both_ends_only() {
    assert_eq!(trim("  a b \t\n"), "a b");
    assert_eq!(trim("\u{a0}\u{3000}x\u{2003}"), "x");
    assert_eq!(trim(" \n\t "), "");
    assert_eq!(trim(""), "");
    assert_eq!(trim("word"), "word");
}

#[test]
fn ascii_lowercase_leaves_other_letters_alone() {
    assert_eq!(to_ascii_lowercase("MP3"), "mp3");
    assert_eq!(to_ascii_lowercase("FlAc"), "flac");
    assert_eq!(to_ascii_lowercase("ÀZ@[`{"), "Àz@[`{");
}

#[test]
fn strings_and_characters_convert_both_ways() {
    assert_eq!(chars_of("añ😀"), vec!['a', 'ñ', '😀']);
    assert_eq!(append_str("añ", "😀b"), "añ😀b");
    assert!(same_text("añ", "añ"));
    assert!(!same_text("añ", "an"));
    assert!(!same_text("a", "ab"));
    assert!(same_text("", ""));
}

#[test]
fn join_with_puts_the_separator_between_parts() {
    let none: Vec<String> = vec![];
    assert_eq!(join_with(&none, "\n"), "");
    assert_eq!(join_with(&vec![String::from("a")], "\n"), "a");
    assert_eq!(join_with(&vec![String::from("a"), String::from(""), String::from("b")], ", "), "a, , b");
}

#[test]
fn file_names() {
    assert_eq!(file_name_of("song.mp3"), some("song.mp3"));
    assert_eq!(file_name_of("path/to/song.ogg"), some("song.ogg"));
    assert_eq!(file_name_of("/usr/bin/"), some("bin"));
    assert_eq!(file_name_of("tmp/foo.txt/."), some("foo.txt"));
    assert_eq!(file_name_of("foo.txt/.//"), some("foo.txt"));
    assert_eq!(file_name_of("foo.txt/.."), None);
    assert_eq!(file_name_of(".."), None);
    assert_eq!(file_name_of("."), None);
    assert_eq!(file_name_of("/"), None);
    assert_eq!(file_name_of(""), None);
    assert_eq!(file_name_of("..."), some("..."));
}

#[test]
fn extensions() {
    assert_eq!(extension_of("song.mp3"), some("mp3"));
    assert_eq!(extension_of("a/b.c/song.tar.gz"), some("gz"));
    assert_eq!(extension_of("a.b/song"), None);
    assert_eq!(extension_of("song.mp3/"), some("mp3"));
    assert_eq!(extension_of(".hidden"), None);
    assert_eq!(extension_of(".hidden.mp3"), some("mp3"));
    assert_eq!(extension_of("song."), some(""));
    assert_eq!(extension_of("..mp3"), some("mp3"));
    assert_eq!(extension_of(".."), None);
    assert_eq!(extension_of(""), None);
}

#[test]
fn parents() {
    assert_eq!(parent_of("song.mp3"), some(""));
    assert_eq!(parent_of("a/b/song.mp3"), some("a/b"));
    assert_eq!(parent_of("/song.mp3"), some("/"));
    assert_eq!(parent_of("///nonexistent/bad.mp3"), some("///nonexistent"));
    assert_eq!(parent_of("a//b/"), some("a"));
    assert_eq!(parent_of("a/./b"), some("a"));
    assert_eq!(parent_of("./b"), some("."));
    assert_eq!(parent_of("a/.."), some("a"));
    assert_eq!(parent_of("//a"), some("/"));
    assert_eq!(parent_of("/"), None);
    assert_eq!(parent_of(""), None);
}

#[test]
fn changed_extensions() {
    assert_eq!(with_extension_of("song.mp3", "lrc"), "song.lrc");
    assert_eq!(with_extension_of("song", "lrc"), "song.lrc");
    assert_eq!(with_extension_of("a.b/song.tar.gz", "lrc"), "a.b/song.tar.lrc");
    assert_eq!(with_extension_of(".hidden", "lrc"), ".hidden.lrc");
    assert_eq!(with_extension_of("song.mp3/", "lrc"), "song.lrc");
    assert_eq!(with_extension_of("song.mp3", ""), "song");
    assert_eq!(with_extension_of("", "lrc"), "");
    assert_eq!(with_extension_of("..", "lrc"), "..");
}

#[test]
fn joined_paths() {
    assert_eq!(join_paths("a/b", "song.lrc"), "a/b/song.lrc");
    assert_eq!(join_paths("a/b/", "song.lrc"), "a/b/song.lrc");
    assert_eq!(join_paths("", "song.lrc"), "song.lrc");
    assert_eq!(join_paths("/", "song.lrc"), "/song.lrc");
    assert_eq!(join_paths("a", "/etc/song.lrc"), "/etc/song.lrc");
    assert_eq!(join_paths("a", ""), "a/");
}

#[test]
fn paths_are_read_as_the_standard_library_reads_them() {
    let samples = [
        "", "/", ".", "..", "a", "a/", "a/.", "a/..", "/a", "//a", "a/b", "a//b", "a/./b", "./b",
        "./.", "/.", "song.mp3", "song.mp3/", "song.mp3/.", ".hidden", ".hidden.mp3", "song.",
        "..mp3", "...", "a.b/c", "a.b/c.d.e", "///nonexistent/bad.mp3", "dir/sub/../x.flac",
        "x/.y", "x/y.", "./", "a/b/./.", "a/b//.//",
    ];
    for sample in samples {
        let path = std::path::Path::new(sample);
        let name = path.file_name().map(|n| n.to_str().unwrap().to_string());
        let ext = path.extension().map(|e| e.to_str().unwrap().to_string());
        let dir = path.parent().map(|p| p.to_str().unwrap().to_string());
        assert_eq!(file_name_of(sample), name, "file name of {:?}", sample);
        assert_eq!(extension_of(sample), ext, "extension of {:?}", sample);
        assert_eq!(parent_of(sample), dir, "parent of {:?}", sample);
        let mut changed = std::path::PathBuf::from(sample);
        changed.set_extension("lrc");
        assert_eq!(
            with_extension_of(sample, "lrc"),
            changed.to_str().unwrap(),
            "extension change of {:?}",
            sample
        );
        for other in ["x.lrc", "/x.lrc", ""] {
            let joined = path.join(other).to_str().unwrap().to_string();
            assert_eq!(join_paths(sample, other), joined, "{:?} joined with {:?}", sample, other);
        }
    }
}
