//! Manga Up: the page of a series carries the list of its chapters as JSON
//! inside a script, the latest last.

use crate::fetch::{
    chapter_missing, fetched_view, page_missing, FetchError, FetchErrorView, FetchedView,
};
use crate::html::{document_first_html, first_inner_html, parse_document};
use crate::text::{
    concat3, concat4, decimal, decimal_of, replace_all, replace_all_in, text_view, trim, trim_in,
};
use crate::time::{TimeView, ZonedTime};
use crate::types::{Manga, MangaView};
use regex::RegexBuilder;
use vstd::prelude::*;

verus! {

/// The list of the chapters of a series.
#[derive(Default, Debug, Clone, PartialEq)]
pub struct MangaUpData {
    pub title_name: String,
    pub title_id: i64,
    pub chapters: Vec<Chapter>,
}

#[derive(Default, Debug, Clone, PartialEq)]
pub struct Chapter {
    pub id: i64,
    pub name: String,
    pub sub_name: String,
    pub can_comment: bool,
    pub comment_count: i64,
    pub url_thumbnail: String,
    pub status: i64,
    pub days_to_change_status: String,
}

/// The element that holds the title of the series.
pub const TITLE_SELECTOR: &'static str = "h2[class*=\"pc:text-title-lg-pc\"]";

/// The element that holds the author of the series.
pub const AUTHOR_SELECTOR: &'static str =
    "div[class=\"text-on_background_medium sp:text-body-md-sp pc:text-body-md-pc\"]";

/// The pattern of the part of a script that holds the list of chapters,
/// with what follows the list up to a fixed mark.
pub const CHAPTER_PATTERN: &'static str =
    r#"\{\\"titleName\\.*currentChapter.*\],\[\\"\$\\",\\"\$L6f"#;

/// The mark that follows the list of chapters.
pub const CHAPTER_TAIL: &'static str = r#"],[\"$\",\"$L6f"#;

/// How often an empty page is asked for again.
pub const MAX_RETRY: u32 = 10;

/// How long an empty page is waited on before it is asked for again, in
/// milliseconds.
pub const RETRY_DELAY_MILLIS: u64 = 500;

/// The first match of `pattern` in `text`, the pattern being a regular
/// expression whose `^` and `$` match at the ends of lines; nothing where
/// `text` holds no match or `pattern` is no regular expression.
pub uninterp spec fn first_regex_match(pattern: Seq<char>, text: Seq<char>) -> Option<Seq<char>>;

/// Calls `Regex::captures` of `regex` on the expression that `RegexBuilder`
/// makes of `pattern` with `multi_line` set. Believed: the text is the whole
/// of the first match, as `first_regex_match` names it, and there is none
/// where nothing matches or `pattern` is no regular expression.
#[verifier::external_body]
fn find_pattern(pattern: &str, text: &str) -> (found: Option<String>)
    ensures
        text_view(found) == first_regex_match(pattern@, text@),
{
    match RegexBuilder::new(pattern).multi_line(true).build() {
        Ok(regex) => regex.captures(text).and_then(|c| c.get(0)).map(|m| m.as_str().to_string()),
        Err(_) => None,
    }
}

/// What a page holds of a series.
#[derive(Clone, Debug)]
pub struct Page {
    pub title: Option<String>,
    pub author: Option<String>,
    /// The JSON text of the list of chapters, where the page carries one.
    pub chapter_json: Option<String>,
}

/// A `Page` with its texts as sequences of characters.
pub struct PageView {
    pub title: Option<Seq<char>>,
    pub author: Option<Seq<char>>,
    pub chapter_json: Option<Seq<char>>,
}

impl View for Page {
    type V = PageView;

    open spec fn view(&self) -> PageView {
        PageView {
            title: text_view(self.title),
            author: text_view(self.author),
            chapter_json: text_view(self.chapter_json),
        }
    }
}

/// The JSON text in what the pattern matched: the match without the mark at
/// its end and without its backslashes.
pub open spec fn spec_unescape(matched: Seq<char>) -> Seq<char> {
    replace_all(replace_all(matched, CHAPTER_TAIL@, ""@), "\\"@, ""@)
}

/// The JSON text of the list of chapters that the page `html` carries.
pub open spec fn spec_chapter_json(html: Seq<char>) -> Option<Seq<char>> {
    match first_regex_match(CHAPTER_PATTERN@, html) {
        Some(matched) => Some(spec_unescape(matched)),
        None => None,
    }
}

/// What the document parsed from `html` holds of a series.
pub open spec fn spec_extract(html: Seq<char>) -> PageView {
    PageView {
        title: document_first_html(html, TITLE_SELECTOR@),
        author: document_first_html(html, AUTHOR_SELECTOR@),
        chapter_json: spec_chapter_json(html),
    }
}

/// The JSON text to decode, or why the page gives none: a page without
/// title, author or the list of chapters is not found.
pub open spec fn spec_json_to_decode(page: PageView) -> Result<Seq<char>, FetchErrorView> {
    match (page.title, page.author, page.chapter_json) {
        (None, _, _) => Err(page_missing("title not found"@)),
        (Some(_), None, _) => Err(page_missing("author not found"@)),
        (Some(_), Some(_), None) => Err(page_missing("no match from regex search"@)),
        (Some(_), Some(_), Some(json)) => Ok(json),
    }
}

/// The title of a chapter: its two lines, the second first, without the
/// white space around them.
pub open spec fn chapter_title(chapter: Chapter) -> Seq<char> {
    trim(chapter.sub_name@ + " "@ + chapter.name@)
}

/// The record of a series, given what its page holds, what decoding the
/// list of its chapters gave, and the current time.
///
/// A page without title, author or the list of chapters is not found. A
/// list that cannot be decoded is an error of the decoder, and an empty list
/// holds no chapter. The last chapter of the list
/// is the latest, and the release is the current time, shown in Japan.
pub open spec fn spec_assemble(page: PageView, decoded: Result<MangaUpData, String>, now: TimeView)
    -> FetchedView {
    match (page.title, page.author, page.chapter_json) {
        (None, _, _) => Err(page_missing("title not found"@)),
        (Some(_), None, _) => Err(page_missing("author not found"@)),
        (Some(_), Some(_), None) => Err(page_missing("no match from regex search"@)),
        (Some(title), Some(author), Some(_)) => match decoded {
            Err(words) => Err(FetchErrorView::JsonDeserializeError(words@)),
            Ok(data) => if data.chapters@.len() == 0 {
                Err(chapter_missing("chapters is empty"@))
            } else {
                let latest = data.chapters@.last();
                Ok(
                    MangaView {
                        title,
                        cover_url: latest.url_thumbnail@,
                        author,
                        latest_chapter_title: chapter_title(latest),
                        latest_chapter_url: "https://www.manga-up.com/titles/"@ + decimal(
                            data.title_id as int,
                        ) + "/chapters/"@ + decimal(latest.id as int),
                        latest_chapter_release_date: now.in_japan(),
                        latest_chapter_publish_day: now.in_japan().weekday(),
                    },
                )
            },
        },
    }
}

/// The record of the series on the page `html`, where decoding the list of
/// its chapters gave `decoded`.
pub open spec fn spec_parse(html: Seq<char>, decoded: Result<MangaUpData, String>, now: TimeView)
    -> FetchedView {
    spec_assemble(spec_extract(html), decoded, now)
}

/// The JSON text in what the pattern matched.
pub fn unescape(matched: &str) -> (json: String)
    ensures
        json@ == spec_unescape(matched@),
{
    let cut = replace_all_in(matched, CHAPTER_TAIL, "");
    replace_all_in(cut.as_str(), "\\", "")
}

/// The JSON text of the list of chapters that the page `html` carries: the
/// text to decode.
pub fn chapter_json(html: &str) -> (json: Option<String>)
    ensures
        text_view(json) == spec_chapter_json(html@),
{
    match find_pattern(CHAPTER_PATTERN, html) {
        Some(matched) => Some(unescape(matched.as_str())),
        None => None,
    }
}

/// What the page `html` holds of a series.
pub fn extract(html: &str) -> (page: Page)
    ensures
        page@ == spec_extract(html@),
{
    let doc = parse_document(html);
    Page {
        title: first_inner_html(&doc, TITLE_SELECTOR),
        author: first_inner_html(&doc, AUTHOR_SELECTOR),
        chapter_json: chapter_json(html),
    }
}

/// The record of a series, given what its page holds, what decoding the
/// list of its chapters gave, and the current time.
pub fn assemble(page: &Page, decoded: Result<MangaUpData, String>, now: ZonedTime) -> (fetched:
    Result<Manga, FetchError>)
    ensures
        fetched_view(fetched) == spec_assemble(page@, decoded, now@),
        fetched matches Ok(manga) ==> manga@.consistent(),
{
    let title = match &page.title {
        Some(title) => title,
        None => {
            return Err(FetchError::page_not_found("title not found"));
        },
    };
    let author = match &page.author {
        Some(author) => author,
        None => {
            return Err(FetchError::page_not_found("author not found"));
        },
    };
    if page.chapter_json.is_none() {
        return Err(FetchError::page_not_found("no match from regex search"));
    }
    let data = match decoded {
        Ok(data) => data,
        Err(words) => {
            return Err(FetchError::JsonDeserializeError(words));
        },
    };
    if data.chapters.len() == 0 {
        return Err(FetchError::chapter_not_found("chapters is empty"));
    }
    let latest = &data.chapters[data.chapters.len() - 1];
    let lines = concat3(latest.sub_name.as_str(), " ", latest.name.as_str());
    Ok(
        Manga::released_at(
            title.clone(),
            latest.url_thumbnail.clone(),
            author.clone(),
            trim_in(lines.as_str()),
            concat4(
                "https://www.manga-up.com/titles/",
                decimal_of(data.title_id).as_str(),
                "/chapters/",
                decimal_of(latest.id).as_str(),
            ),
            now.to_japan(),
        ),
    )
}

/// The record of the series on the page `html`, where decoding the list of
/// its chapters (see `chapter_json`) gave `decoded`: the list, or the words
/// of the decoder.
pub fn parse_manga_up_from_html(html: String, decoded: Result<MangaUpData, String>, now: ZonedTime)
    -> (fetched: Result<Manga, FetchError>)
    ensures
        fetched_view(fetched) == spec_parse(html@, decoded, now@),
        fetched matches Ok(manga) ==> manga@.consistent(),
{
    let page = extract(html.as_str());
    assemble(&page, decoded, now)
}

/// The JSON text to decode, or why the page gives none.
pub fn json_to_decode(page: &Page) -> (json: Result<String, FetchError>)
    ensures
        match json {
            Ok(text) => spec_json_to_decode(page@) == Ok::<Seq<char>, FetchErrorView>(text@),
            Err(error) => spec_json_to_decode(page@) == Err::<Seq<char>, FetchErrorView>(error@),
        },
{
    if page.title.is_none() {
        return Err(FetchError::page_not_found("title not found"));
    }
    if page.author.is_none() {
        return Err(FetchError::page_not_found("author not found"));
    }
    match &page.chapter_json {
        Some(json) => Ok(json.clone()),
        None => Err(FetchError::page_not_found("no match from regex search")),
    }
}

/// Whether the page is asked for again: it came empty, and it was not asked
/// for again more than `MAX_RETRY` times.
pub fn retry(html: &str, retries: u32) -> (again: bool)
    ensures
        again == (html@.len() == 0 && retries <= MAX_RETRY),
{
    html.is_empty() && retries <= MAX_RETRY
}

} // verus!
