use getlyrics::api::exchange::{Body, Decode, Reply, Request};
use getlyrics::api::lrclib_api::LrcLibAPI;
use getlyrics::api::lyric_api::LyricApi;
use getlyrics::model::data_model::{AudioExtensions, LyricScraperV1, Song, SongMetadata};
use getlyrics::orchestrator::{LyricSource, Orchestrator, Resolution};
use getlyrics::traits::traits::LyricIface;

fn roses() -> SongMetadata {
    SongMetadata {
        song: Song {
            filename: String::from("song.mp3"),
            extension: AudioExtensions::MP3,
            filepath: String::from("song.mp3"),
        },
        artist: String::from("Benny Blanco"),
        title: String::from("Roses"),
        album_title: String::new(),
        duration: Some(180),
    }
}

fn structured(status: u16, plain: &str, synced: Option<&str>) -> Reply {
    Reply::Response {
        status,
        body: Body::Structured {
            plain_lyrics: String::from(plain),
            synced_lyrics: synced.map(String::from),
        },
    }
}

fn lyrics(status: u16, text: &str) -> Reply {
    Reply::Response { status, body: Body::Lyrics(String::from(text)) }
}

fn page(html: &str) -> Reply {
    Reply::Response { status: 200, body: Body::Page(String::from(html)) }
}

fn pair(name: &str, value: &str) -> (String, String) {
    (String::from(name), String::from(value))
}

const LYRIC_PAGE: &str = "<html><head><title>Onde Vais</title></head><body><h1>Onde Vais</h1>\
<div class=\"lyric-original\"><p>First line<br>Second line</p><p>Third line</p></div>\
<div class=\"other\"><p>Not lyrics</p></div></body></html>";

const EMPTY_PAGE: &str = "<html><body><h1>Not found</h1><p>Nothing here</p></body></html>";

#[test]
fn text_normalization() {
    let input = "line1\r\nline2\n\n\nline3  with   double  spaces";
    assert_eq!(
        LyricApi::sanitize_lyrics(input),
        Ok(String::from("line1\nline2\nline3 with double spaces"))
    );
}

#[test]
fn sanitize_lyrics_trims_and_keeps_single_breaks() {
    assert_eq!(LyricApi::sanitize_lyrics("  a\nb  "), Ok(String::from("a\nb")));
    assert_eq!(LyricApi::sanitize_lyrics("\n\n a  b \n\n"), Ok(String::from("a b")));
    assert_eq!(LyricApi::sanitize_lyrics(""), Ok(String::new()));
    assert_eq!(LyricApi::sanitize_lyrics("a\tb"), Ok(String::from("a\tb")));
    // A carriage return with a line feed is one break; line feeds behind it are another.
    assert_eq!(LyricApi::sanitize_lyrics("a\r\n\n\nb"), Ok(String::from("a\n\nb")));
}

#[test]
fn structured_lookup_asks_by_title_artist_album_and_length() {
    let request = LrcLibAPI::new_plain_lyrics().request(&roses());
    assert_eq!(
        request,
        Request {
            url: String::from("https://lrclib.net/api/get"),
            query: vec![
                pair("track_name", "Roses"),
                pair("artist_name", "Benny Blanco"),
                pair("album_name", ""),
                pair("duration", "180"),
            ],
            user_agent: Some(String::from("https://github.com/albertjimenez/GetLyrics")),
            decode: Decode::Structured,
        }
    );
    let mut unknown_length = roses();
    unknown_length.duration = None;
    let request = LrcLibAPI::new_karaoke_lyrics().request(&unknown_length);
    assert_eq!(request.query[3], pair("duration", "0"));
}

#[test]
fn structured_lookup_gives_plain_or_synchronized_lyrics() {
    let md = roses();
    let plain = LrcLibAPI::new_plain_lyrics();
    let karaoke = LrcLibAPI::new_karaoke_lyrics();

    let both = structured(200, "La la la", Some("[00:01.00] La la la"));
    let lyric = plain.fetch_lyrics(&md, &both).unwrap();
    assert_eq!(lyric.lyric, "La la la");
    assert_eq!(lyric.song, md.song);
    assert_eq!(karaoke.fetch_lyrics(&md, &both).unwrap().lyric, "[00:01.00] La la la");
    assert!(!karaoke.is_degraded(&both));

    let plain_only = structured(200, "La la la", None);
    assert_eq!(karaoke.fetch_lyrics(&md, &plain_only).unwrap().lyric, "La la la");
    assert!(karaoke.is_degraded(&plain_only));
    assert!(!plain.is_degraded(&plain_only));
    assert!(!karaoke.is_degraded(&structured(404, "", None)));
}

#[test]
fn structured_lookup_tells_its_failures_apart() {
    let md = roses();
    let source = LrcLibAPI::new_plain_lyrics();
    let fails = |reply: Reply| source.fetch_lyrics(&md, &reply).unwrap_err();
    assert_eq!(fails(structured(404, "", None)), "Lyrics not found.");
    assert_eq!(fails(structured(500, "x", None)), "Unexpected status code: 500");
    assert_eq!(fails(structured(201, "x", None)), "Unexpected status code: 201");
    assert_eq!(fails(Reply::Unsent(String::from("timed out"))), "Request error: timed out");
    assert_eq!(
        fails(Reply::NoClient(String::from("no TLS"))),
        "Failed to build HTTP client: no TLS"
    );
    assert_eq!(
        fails(Reply::Response { status: 200, body: Body::Undecoded(String::from("EOF")) }),
        "Failed to parse response JSON: EOF"
    );
    assert_eq!(fails(lyrics(200, "x")), "Failed to parse response JSON: unexpected body");
}

#[test]
fn free_text_search_asks_by_artist_and_title() {
    let request = LyricApi::new().request(&roses());
    assert_eq!(
        request,
        Request {
            url: String::from("https://api.lyrics.ovh/v1/Benny Blanco/Roses"),
            query: vec![],
            user_agent: None,
            decode: Decode::Lyrics,
        }
    );
}

#[test]
fn free_text_search_normalizes_what_it_gets() {
    let md = roses();
    let source = LyricApi::new();
    let lyric = source.fetch_lyrics(&md, &lyrics(200, " Roses\r\nare  red\n\n")).unwrap();
    assert_eq!(lyric.lyric, "Roses\nare red");
    assert_eq!(lyric.song, md.song);
    assert_eq!(source.fetch_lyrics(&md, &lyrics(299, "x")).unwrap().lyric, "x");
}

#[test]
fn free_text_search_tells_its_failures_apart() {
    let md = roses();
    let source = LyricApi::new();
    let fails = |reply: Reply| source.fetch_lyrics(&md, &reply).unwrap_err();
    assert_eq!(fails(lyrics(404, "x")), "Lyric not found with LyricsAPI");
    assert_eq!(fails(lyrics(199, "x")), "Lyric not found with LyricsAPI");
    assert_eq!(fails(lyrics(300, "x")), "Lyric not found with LyricsAPI");
    assert_eq!(
        fails(Reply::Response { status: 200, body: Body::Undecoded(String::from("EOF")) }),
        "Lyric API is down"
    );
    assert_eq!(fails(structured(200, "x", None)), "Lyric API is down");
    assert_eq!(fails(Reply::Unsent(String::from("refused"))), "Network request failed: refused");
    assert_eq!(fails(Reply::NoClient(String::from("no TLS"))), "Network request failed: no TLS");
}

#[test]
fn slugs() {
    assert_eq!(LyricScraperV1::slugify("Barbara Bandeira"), "barbara-bandeira");
    assert_eq!(LyricScraperV1::slugify("  Onde Vais?  "), "onde-vais-");
    assert_eq!(LyricScraperV1::slugify("AC/DC"), "acdc");
    assert_eq!(LyricScraperV1::slugify("a_b.c,d!e?f:g;h"), "a-b-c-d-e-f-g-h");
    assert_eq!(LyricScraperV1::slugify("Beyoncé & JAY-Z"), "beyoncé--jay-z");
    assert_eq!(LyricScraperV1::slugify("ΣΑΣ"), "σας");
    assert_eq!(LyricScraperV1::slugify(""), "");
    assert_eq!(LyricScraperV1::slug_of_chars(&vec!['A', ' ', '#', '-', '1']), "A--1");
}

#[test]
fn web_page_source_asks_for_the_page_of_the_song() {
    let mut md = roses();
    md.artist = String::from("Barbara Bandeira");
    md.title = String::from("Onde Vais");
    assert_eq!(
        LyricScraperV1::new().request(&md),
        Request {
            url: String::from("https://www.letras.com/barbara-bandeira/onde-vais/"),
            query: vec![],
            user_agent: Some(String::from("Mozilla/5.0")),
            decode: Decode::Page,
        }
    );
}

#[test]
fn test_fetch_valid_lyrics() {
    let scraper = LyricScraperV1::new();

    let metadata = SongMetadata {
        artist: "Barbara Bandeira".to_string(),
        title: "Onde Vais".to_string(),
        song: Song::empty(),
        album_title: String::new(),
        duration: None,
    };

    let result = scraper.fetch_lyrics(&metadata, &page(LYRIC_PAGE));
    assert!(result.is_ok(), "Expected lyrics to be found, got error: {:?}", result.err());

    let lyrics = result.unwrap().lyric;
    assert!(!lyrics.trim().is_empty(), "Lyrics were empty");
    assert_eq!(lyrics, "First line\nSecond line\nThird line");
}

#[test]
fn test_fetch_valid_lyrics_with_slight_misspelling() {
    let scraper = LyricScraperV1::new();

    let metadata = SongMetadata {
        artist: "Barbara Bandeira".to_string(),
        title: "Onde Vaiss".to_string(),
        song: Song::empty(),
        album_title: String::new(),
        duration: None,
    };
    assert_eq!(
        scraper.request(&metadata).url,
        "https://www.letras.com/barbara-bandeira/onde-vaiss/"
    );

    // The site answers a slightly misspelt address with the page of the song.
    let result = scraper.fetch_lyrics(&metadata, &page(LYRIC_PAGE));
    assert!(result.is_ok(), "Expected lyrics to be found, got error: {:?}", result.err());

    let lyrics = result.unwrap().lyric;
    assert!(!lyrics.trim().is_empty(), "Lyrics were empty");
}

#[test]
fn test_fetch_nonexistent_lyrics() {
    let scraper = LyricScraperV1::new();

    let metadata = SongMetadata {
        artist: "@#rwfuisdojokvdf 75sdf5This Artist Does Not Exist5ddfdff6df56df645".to_string(),
        title: "Fake sad75fSong Title That sdf75sdWill Fail5sdsdf86sdfsdfsdfsdf".to_string(),
        song: Song::empty(),
        album_title: String::new(),
        duration: None,
    };
    assert_eq!(
        scraper.request(&metadata).url,
        "https://www.letras.com/rwfuisdojokvdf-75sdf5this-artist-does-not-exist5ddfdff6df56df645/\
fake-sad75fsong-title-that-sdf75sdwill-fail5sdsdf86sdfsdfsdfsdf/"
    );

    let result = scraper.fetch_lyrics(&metadata, &page(EMPTY_PAGE));
    assert!(result.is_err(), "Expected failure for nonexistent lyrics, got {:?}", result.ok());
    println!("Error as expected: {}", result.err().unwrap());
}

#[test]
fn web_page_source_tells_its_failures_apart() {
    let md = roses();
    let source = LyricScraperV1::new();
    let fails = |reply: Reply| source.fetch_lyrics(&md, &reply).unwrap_err();
    assert_eq!(fails(page(EMPTY_PAGE)), "Lyrics not found");
    assert_eq!(fails(page("")), "Lyrics not found");
    assert_eq!(
        fails(page("<div class=\"lyric-original\"><p> \n </p><p>\t</p></div>")),
        "Lyrics not found"
    );
    assert_eq!(fails(Reply::Unsent(String::from("refused"))), "Request failed: refused");
    assert_eq!(
        fails(Reply::Response { status: 200, body: Body::Undecoded(String::from("bad UTF-8")) }),
        "Failed to get response text: bad UTF-8"
    );
    assert_eq!(fails(lyrics(200, "x")), "Failed to get response text: unexpected body");
}

#[test]
fn lyrics_of_a_page_keep_their_own_whitespace() {
    let paragraphs = vec![
        vec![String::from(" a"), String::from("b ")],
        vec![],
        vec![String::from("c")],
    ];
    assert_eq!(LyricScraperV1::lyrics_in(&paragraphs), Ok(String::from(" a\nb \n\nc")));
    assert_eq!(LyricScraperV1::lyrics_in(&vec![]), Err(String::from("Lyrics not found")));
    assert_eq!(
        LyricScraperV1::lyrics_on_page(LYRIC_PAGE),
        Ok(String::from("First line\nSecond line\nThird line"))
    );
}

#[test]
fn fallback_order() {
    let md = roses();
    let mut chain = Orchestrator::new(vec![
        LyricSource::Structured(LrcLibAPI::new_plain_lyrics()),
        LyricSource::FreeText(LyricApi::new()),
    ]);
    assert_eq!(chain.pending(&md), Some(LrcLibAPI::new_plain_lyrics().request(&md)));

    // The first source fails: its failure only passes the turn on.
    match chain.resolve(&md, &structured(404, "", None)) {
        Resolution::Next(request) => assert_eq!(request, LyricApi::new().request(&md)),
        _ => panic!("the second source should be asked"),
    }
    assert_eq!(chain.pending(&md), Some(LyricApi::new().request(&md)));

    // The second source succeeds: its lyrics are the result.
    match chain.resolve(&md, &lyrics(200, "La la la")) {
        Resolution::Found(lyric) => {
            assert_eq!(lyric.lyric, "La la la");
            assert_eq!(lyric.song, md.song);
        }
        _ => panic!("the lyrics of the second source should be found"),
    }
    assert_eq!(chain.pending(&md), None);
    assert!(matches!(chain.resolve(&md, &lyrics(200, "more")), Resolution::Closed));
}

#[test]
fn first_usable_source_wins_and_the_rest_is_not_asked() {
    let md = roses();
    let mut chain = Orchestrator::standard(true);
    match chain.resolve(&md, &structured(200, "plain", Some("[00:01.00] synced"))) {
        Resolution::Found(lyric) => assert_eq!(lyric.lyric, "[00:01.00] synced"),
        _ => panic!("the lyrics of the first source should be found"),
    }
    assert_eq!(chain.pending(&md), None);
    assert!(matches!(chain.resolve(&md, &lyrics(200, "other")), Resolution::Closed));
}

#[test]
fn fallback_exhaustion() {
    let md = roses();
    let mut chain = Orchestrator::new(vec![
        LyricSource::Structured(LrcLibAPI::new_plain_lyrics()),
        LyricSource::FreeText(LyricApi::new()),
        LyricSource::WebPage(LyricScraperV1::new()),
    ]);
    assert!(matches!(
        chain.resolve(&md, &Reply::Unsent(String::from("offline"))),
        Resolution::Next(_)
    ));
    assert!(matches!(chain.resolve(&md, &lyrics(404, "")), Resolution::Next(_)));
    match chain.resolve(&md, &page(EMPTY_PAGE)) {
        Resolution::Exhausted(why) => assert_eq!(why, "Lyrics not found"),
        _ => panic!("the chain should be exhausted"),
    }
    assert_eq!(chain.pending(&md), None);
    assert!(matches!(chain.resolve(&md, &page(LYRIC_PAGE)), Resolution::Closed));
}

#[test]
fn empty_lyrics_are_a_failure() {
    let md = roses();
    let mut chain = Orchestrator::standard(false);
    assert!(matches!(chain.resolve(&md, &structured(200, "", None)), Resolution::Next(_)));
    match chain.resolve(&md, &lyrics(200, "  \n ")) {
        Resolution::Exhausted(why) => assert_eq!(why, "Lyrics were empty"),
        _ => panic!("the chain should be exhausted"),
    }
}

#[test]
fn a_chain_without_sources_asks_nobody() {
    let md = roses();
    let mut chain = Orchestrator::new(vec![]);
    assert_eq!(chain.pending(&md), None);
    assert!(matches!(chain.resolve(&md, &lyrics(200, "x")), Resolution::Closed));
}
