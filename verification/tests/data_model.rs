use getlyrics::model::data_model::{AudioExtensions, Song};

#[test]
fn test_audio_extensions_get_extension() {
    assert_eq!(AudioExtensions::MP3.get_extension(), "mp3");
    assert_eq!(AudioExtensions::OGG.get_extension(), "ogg");
    assert_eq!(AudioExtensions::FLAC.get_extension(), "flac");
    assert_eq!(AudioExtensions::UNKNOWN.get_extension(), "unknown");
}

#[test]
fn test_audio_extensions_get_extension_by_filepath() {
    let valid_mp3 = String::from("song.mp3");
    let valid_flac = String::from("track.flac");
    let unknown_file = String::from("document.txt");

    assert_eq!(AudioExtensions::get_extension_by_filepath(&valid_mp3), AudioExtensions::MP3);
    assert_eq!(AudioExtensions::get_extension_by_filepath(&valid_flac), AudioExtensions::FLAC);
    assert_eq!(AudioExtensions::get_extension_by_filepath(&unknown_file), AudioExtensions::UNKNOWN);
}

#[test]
fn test_song_new_valid_extension() {
    let song = Song::new("test.mp3");
    assert!(song.is_some());
    let song = song.unwrap();
    assert_eq!(song.filename, "test.mp3");
    assert_eq!(song.extension, AudioExtensions::MP3);
    assert_eq!(song.filepath.as_str(), "test.mp3");
    assert_eq!(false, song.is_file(Some(false), false));
}

#[test]
fn test_song_new_invalid_extension() {
    let song = Song::new("invalid_file.txt");
    assert!(song.is_none());
}

#[test]
fn test_song_display() {
    let song = Song {
        filename: String::from("song.ogg"),
        extension: AudioExtensions::OGG,
        filepath: String::from("path/to/song.ogg"),
    };

    let output = song.fmt();
    assert!(output.contains("filename: song.ogg"));
    assert!(output.contains("extension: ogg"));
    assert!(output.contains("filepath: path/to/song.ogg"));
}

#[test]
fn test_audio_extension_display() {
    assert_eq!(AudioExtensions::MP3.fmt(), "mp3");
    assert_eq!(AudioExtensions::UNKNOWN.fmt(), "unknown");
}

#[test]
fn every_format_has_its_own_extension() {
    let formats = [
        (AudioExtensions::MP3, "mp3"),
        (AudioExtensions::OGG, "ogg"),
        (AudioExtensions::M4A, "m4a"),
        (AudioExtensions::FLAC, "flac"),
        (AudioExtensions::WAV, "wav"),
        (AudioExtensions::AIFF, "aiff"),
        (AudioExtensions::WMA, "wma"),
        (AudioExtensions::AAC, "aac"),
        (AudioExtensions::UNKNOWN, "unknown"),
    ];
    for (format, name) in formats {
        assert_eq!(format.get_extension(), name);
        assert_eq!(AudioExtensions::from_extension(name), format);
        let path = format!("dir.x/Some Song.{}", name.to_uppercase());
        assert_eq!(AudioExtensions::get_extension_by_filepath(&path), format);
        assert_eq!(AudioExtensions::get_extension_as_str(&path), name);
    }
    assert_eq!(AudioExtensions::from_extension("MP3"), AudioExtensions::UNKNOWN);
    assert_eq!(AudioExtensions::from_extension(""), AudioExtensions::UNKNOWN);
    assert_eq!(AudioExtensions::get_extension_as_str("no-extension"), "unknown");
}

#[test]
fn songs_are_made_from_paths_with_a_known_format() {
    let song = Song::new("/music/Album/01 - Roses.FLAC").unwrap();
    assert_eq!(song.filename, "01 - Roses.FLAC");
    assert_eq!(song.extension, AudioExtensions::FLAC);
    assert_eq!(song.filepath, "/music/Album/01 - Roses.FLAC");
    assert_eq!(song.clone(), song);
    assert_eq!(
        song.fmt(),
        "filename: 01 - Roses.FLAC, extension: flac, filepath: /music/Album/01 - Roses.FLAC"
    );
    assert_eq!(Song::new("song.mp3/").unwrap().filename, "song.mp3");
    assert!(Song::new("song.unknown").is_none());
    assert!(Song::new(".mp3").is_none());
    assert!(Song::new("mp3").is_none());
    assert!(Song::new("").is_none());
}

#[test]
fn the_empty_song_has_no_name_and_no_path() {
    let song = Song::empty();
    assert_eq!(song.filename, "");
    assert_eq!(song.extension, AudioExtensions::MP3);
    assert_eq!(song.filepath, "");
}

#[test]
fn a_song_is_a_file_if_something_regular_is_there() {
    let song = Song::new("test.mp3").unwrap();
    assert!(song.is_file(Some(true), true));
    assert!(!song.is_file(Some(true), false));
    assert!(!song.is_file(Some(false), true));
    assert!(!song.is_file(None, true));
}
