//! The web-page source: the address of a song's page is made from artist and title,
//! and the lyrics are the text of one region of the page.

use vstd::prelude::*;
use scraper::{Html, Selector};
use crate::api::exchange::{Body, Decode, Reply, Request, RequestView};
use crate::model::data_model::{Lyric, LyricScraperV1, SongMetadata};
use crate::text::{
    char_is_alphanumeric, chars_of, append_str, is_alphanumeric, join_with, joined, str_to_lowercase,
    string_of, texts, to_lowercase, trim, trim_chars, trimmed,
};
use crate::traits::traits::LyricIface;

verus! {

/// The error of the crate scraper for a selector that it does not parse. The library
/// carries it and does not look into it.
#[verifier::external_type_specification]
#[verifier::external_body]
pub struct ExSelectorErrorKind(scraper::error::SelectorErrorKind);

/// The text nodes below each element of the HTML document `html` that the CSS
/// selector `selector` matches: one sequence of texts for each element, elements and
/// texts in document order. `None` where `selector` is no selector that the crate
/// scraper parses.
pub uninterp spec fn selected_text(html: Seq<char>, selector: Seq<char>) -> Option<
    Seq<Seq<Seq<char>>>,
>;

/// The texts of the strings of each element.
pub open spec fn element_texts(elements: Seq<Vec<String>>) -> Seq<Seq<Seq<char>>> {
    Seq::new(elements.len(), |i: int| texts(elements[i]@))
}

/// Parses the selector with `Selector::parse` and the document with
/// `Html::parse_document`, then walks `Html::select` and, for each element,
/// `ElementRef::text`: all of the crate scraper. Trusted: what comes back, or that
/// nothing does because the selector did not parse, depends on the two arguments
/// alone; the contract names it.
#[verifier::external_body]
fn select_text(html: &str, selector: &str) -> (r: Result<
    Vec<Vec<String>>,
    scraper::error::SelectorErrorKind,
>)
    ensures
        match r {
            Ok(elements) => selected_text(html@, selector@) == Some(element_texts(elements@)),
            Err(_) => selected_text(html@, selector@) is None,
        },
{
    let selector = Selector::parse(selector)?;
    let document = Html::parse_document(html);
    Ok(document.select(&selector).map(|p| p.text().map(|t| t.to_string()).collect()).collect())
}

/// The selector of the paragraphs of a page that hold the lyrics.
pub const LYRIC_PARAGRAPHS: &'static str = "div.lyric-original p";

/// Whether `c` is one of the characters that a slug has a dash in place of.
pub open spec fn is_separator(c: char) -> bool {
    c == ' ' || c == '_' || c == '.' || c == ',' || c == '!' || c == '?' || c == ':' || c == ';'
}

/// What is left of `s` in a slug: a dash for each separator, each letter, digit and
/// dash as it is, and nothing for any other character.
pub open spec fn slug_chars(s: Seq<char>) -> Seq<char>
    decreases s.len(),
{
    if s.len() == 0 {
        Seq::empty()
    } else {
        let c = s.last();
        let before = slug_chars(s.drop_last());
        if is_separator(c) {
            before.push('-')
        } else if char_is_alphanumeric(c) || c == '-' {
            before.push(c)
        } else {
            before
        }
    }
}

/// The slug of `input`: the text without whitespace at its ends, in lower case, with
/// dashes for separators and without anything else that is no letter or digit.
pub open spec fn slug(input: Seq<char>) -> Seq<char> {
    slug_chars(str_to_lowercase(trimmed(input)))
}

/// The lyrics that a page's paragraphs hold: the texts of each paragraph, and the
/// paragraphs, each on a line of its own.
pub open spec fn lyrics_of(paragraphs: Seq<Seq<Seq<char>>>) -> Seq<char> {
    joined(Seq::new(paragraphs.len(), |i: int| joined(paragraphs[i], "\n"@)), "\n"@)
}

/// What a page gives: its lyrics, or why it has none.
pub open spec fn page_answer(html: Seq<char>) -> Result<Seq<char>, Seq<char>> {
    match selected_text(html, LYRIC_PARAGRAPHS@) {
        None => Err("Selector parse error"@),
        Some(paragraphs) => lyrics_found(lyrics_of(paragraphs)),
    }
}

/// Lyrics count as found unless they hold nothing but whitespace.
pub open spec fn lyrics_found(lyrics: Seq<char>) -> Result<Seq<char>, Seq<char>> {
    if trimmed(lyrics).len() == 0 {
        Err("Lyrics not found"@)
    } else {
        Ok(lyrics)
    }
}

impl LyricScraperV1 {
    pub fn new() -> (r: Self) {
        LyricScraperV1 {  }
    }

    /// The slug of `input`, as it stands in the address of a page.
    pub fn slugify(input: &str) -> (r: String)
        ensures
            r@ == slug(input@),
    {
        let trimmed_input = trim(input);
        let lowered = to_lowercase(trimmed_input.as_str());
        let v = chars_of(lowered.as_str());
        Self::slug_of_chars(&v)
    }

    /// What is left of the characters `v` in a slug.
    pub fn slug_of_chars(v: &Vec<char>) -> (r: String)
        ensures
            r@ == slug_chars(v@),
    {
        let mut out: Vec<char> = Vec::new();
        let mut i: usize = 0;
        assert(v@.take(0) =~= Seq::<char>::empty());
        while i < v.len()
            invariant
                i <= v.len(),
                out@ == slug_chars(v@.take(i as int)),
            decreases v.len() - i,
        {
            let c = v[i];
            assert(v@.take(i + 1).drop_last() == v@.take(i as int));
            if c == ' ' || c == '_' || c == '.' || c == ',' || c == '!' || c == '?' || c == ':' || c
                == ';' {
                out.push('-');
            } else if is_alphanumeric(c) || c == '-' {
                out.push(c);
            }
            i += 1;
        }
        assert(v@.take(v.len() as int) == v@);
        string_of(&out)
    }

    /// The lyrics that the paragraphs of a page hold, each given by its texts.
    pub fn lyrics_in(paragraphs: &Vec<Vec<String>>) -> (r: Result<String, String>)
        ensures
            match (r, lyrics_found(lyrics_of(element_texts(paragraphs@)))) {
                (Ok(lyrics), Ok(text)) => lyrics@ == text,
                (Err(reason), Err(text)) => reason@ == text,
                _ => false,
            },
    {
        let mut whole: Vec<String> = Vec::new();
        let mut i: usize = 0;
        let ghost all = element_texts(paragraphs@);
        let ghost each = Seq::new(all.len(), |i: int| joined(all[i], "\n"@));
        while i < paragraphs.len()
            invariant
                i <= paragraphs.len(),
                all == element_texts(paragraphs@),
                each == Seq::new(all.len(), |i: int| joined(all[i], "\n"@)),
                texts(whole@) == each.take(i as int),
            decreases paragraphs.len() - i,
        {
            let ghost before = texts(whole@);
            whole.push(join_with(&paragraphs[i], "\n"));
            assert(texts(whole@) =~= before.push(each[i as int]));
            assert(each.take(i + 1) =~= each.take(i as int).push(each[i as int]));
            i += 1;
        }
        assert(each.take(paragraphs.len() as int) == each);
        let lyrics = join_with(&whole, "\n");
        let rest = trim_chars(&chars_of(lyrics.as_str()));
        if rest.len() == 0 {
            Err(String::from_str("Lyrics not found"))
        } else {
            Ok(lyrics)
        }
    }

    /// The lyrics on the page `html`.
    pub fn lyrics_on_page(html: &str) -> (r: Result<String, String>)
        ensures
            match (r, page_answer(html@)) {
                (Ok(lyrics), Ok(text)) => lyrics@ == text,
                (Err(reason), Err(text)) => reason@ == text,
                _ => false,
            },
    {
        match select_text(html, LYRIC_PARAGRAPHS) {
            Err(_) => Err(String::from_str("Selector parse error")),
            Ok(paragraphs) => Self::lyrics_in(&paragraphs),
        }
    }
}

impl LyricIface for LyricScraperV1 {
    open spec fn asks(&self, song_metadata: SongMetadata) -> RequestView {
        RequestView {
            url: "https://www.letras.com/"@ + slug(song_metadata.artist@) + "/"@ + slug(
                song_metadata.title@,
            ) + "/"@,
            query: Seq::empty(),
            user_agent: Some("Mozilla/5.0"@),
            decode: Decode::Page,
        }
    }

    open spec fn answers(&self, song_metadata: SongMetadata, reply: Reply) -> Result<
        Seq<char>,
        Seq<char>,
    > {
        match reply {
            Reply::NoClient(why) => Err("Failed to build HTTP client: "@ + why@),
            Reply::Unsent(why) => Err("Request failed: "@ + why@),
            Reply::Response { status, body } => match body {
                Body::Page(html) => page_answer(html@),
                Body::Undecoded(why) => Err("Failed to get response text: "@ + why@),
                _ => Err("Failed to get response text: "@ + "unexpected body"@),
            },
        }
    }

    fn request(&self, song_metadata: &SongMetadata) -> (r: Request) {
        let artist_slug = Self::slugify(song_metadata.artist.as_str());
        let title_slug = Self::slugify(song_metadata.title.as_str());
        let mut url = String::from_str("https://www.letras.com/");
        url.append(artist_slug.as_str());
        url.append("/");
        url.append(title_slug.as_str());
        url.append("/");
        let r = Request {
            url,
            query: Vec::new(),
            user_agent: Some(String::from_str("Mozilla/5.0")),
            decode: Decode::Page,
        };
        assert(r@.query =~= self.asks(*song_metadata).query);
        r
    }

    fn fetch_lyrics(&self, song_metadata: &SongMetadata, reply: &Reply) -> (r: Result<Lyric, String>) {
        match reply {
            Reply::NoClient(why) => Err(append_str("Failed to build HTTP client: ", why.as_str())),
            Reply::Unsent(why) => Err(append_str("Request failed: ", why.as_str())),
            Reply::Response { status, body } => match body {
                Body::Page(html) => match Self::lyrics_on_page(html.as_str()) {
                    Ok(lyrics) => Ok(Lyric { lyric: lyrics, song: song_metadata.song.clone() }),
                    Err(reason) => Err(reason),
                },
                Body::Undecoded(why) => Err(append_str("Failed to get response text: ", why.as_str())),
                _ => Err(append_str("Failed to get response text: ", "unexpected body")),
            },
        }
    }
}

} // verus!
