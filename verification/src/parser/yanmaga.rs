//! Yanmaga: the page of a series lists its chapters, the latest first.

use crate::fetch::{
    chapter_missing, fetched_view, page_missing, FetchError, FetchErrorView, FetchedView,
};
use crate::html::{
    attribute_view, children_inner_html, document_first, document_first_html,
    element_children_html, element_first, element_first_attribute, element_first_html,
    first_attribute_within, first_inner_html, first_inner_html_within, first_match,
    first_match_within, parse_document,
};
use crate::text::{
    before_first, before_first_in, concat, concat3, text_view, texts_view,
};
use crate::time::{
    calendar_day, date_view, japan_midnight, parse_date, parsed_date, reads_calendar_day,
    TimeView, ZonedTime,
};
use crate::types::{Manga, MangaView};
use vstd::prelude::*;

verus! {

/// The element that holds the title of the series.
pub const TITLE_SELECTOR: &'static str = "h1[class=\"detailv2-outline-title\"]";

/// The element that holds the author of the series.
pub const AUTHOR_SELECTOR: &'static str = "li[class=\"detailv2-outline-author-item\"] > a > h2";

/// The entries of the list of chapters.
pub const CHAPTER_SELECTOR: &'static str = "li[class=\"mod-episode-item\"]";

/// The picture of a chapter, within its entry.
pub const COVER_URL_SELECTOR: &'static str = "div[class=\"mod-episode-thumbnail-image\"] > img";

/// The title of a chapter that is out, within its entry.
pub const CHAPTER_TITLE_SELECTOR: &'static str = "p[class=\"mod-episode-title\"]";

/// The link of a chapter that is out, within its entry.
pub const CHAPTER_URL_SELECTOR: &'static str = "a[class=\"mod-episode-link    ";

/// The release date of a chapter that is out, within its entry.
pub const CHAPTER_RELEASE_DATE_SELECTOR: &'static str = "time[class=\"mod-episode-date\"]";

/// The note of a chapter that is not out yet, within its entry: its first
/// child holds the title, its second the release date.
pub const CHAPTER_NOT_RELEASED_SELECTOR: &'static str =
    "p[class*=\"mod-episode-date-before-publication\"]";

/// The pattern of the dates of chapters.
pub const DATE_FORMAT: &'static str = "%Y/%m/%d";

/// What the entry of the latest chapter holds.
#[derive(Clone, Debug)]
pub struct ChapterEntry {
    /// The contents of the children of the note of a chapter that is not out
    /// yet, where the entry has such a note.
    pub pending: Option<Vec<String>>,
    pub title: Option<String>,
    pub date: Option<String>,
    /// The picture: nothing where the entry has none, else its `src` attribute.
    pub cover: Option<Option<String>>,
    /// The link: nothing where the entry has none, else its `href` attribute.
    pub link: Option<Option<String>>,
}

/// What a page holds of a series.
#[derive(Clone, Debug)]
pub struct Page {
    pub title: Option<String>,
    pub author: Option<String>,
    /// The first entry of the list of chapters, where it has one.
    pub chapter: Option<ChapterEntry>,
}

/// A `ChapterEntry` with its texts as sequences of characters.
pub struct ChapterEntryView {
    pub pending: Option<Seq<Seq<char>>>,
    pub title: Option<Seq<char>>,
    pub date: Option<Seq<char>>,
    pub cover: Option<Option<Seq<char>>>,
    pub link: Option<Option<Seq<char>>>,
}

/// A `Page` with its texts as sequences of characters.
pub struct PageView {
    pub title: Option<Seq<char>>,
    pub author: Option<Seq<char>>,
    pub chapter: Option<ChapterEntryView>,
}

impl View for ChapterEntry {
    type V = ChapterEntryView;

    open spec fn view(&self) -> ChapterEntryView {
        ChapterEntryView {
            pending: match self.pending {
                Some(children) => Some(texts_view(children@)),
                None => None,
            },
            title: text_view(self.title),
            date: text_view(self.date),
            cover: attribute_view(self.cover),
            link: attribute_view(self.link),
        }
    }
}

impl View for Page {
    type V = PageView;

    open spec fn view(&self) -> PageView {
        PageView {
            title: text_view(self.title),
            author: text_view(self.author),
            chapter: match self.chapter {
                Some(entry) => Some(entry@),
                None => None,
            },
        }
    }
}

/// What the document parsed from `html` holds of a series.
pub open spec fn spec_extract(html: Seq<char>) -> PageView {
    PageView {
        title: document_first_html(html, TITLE_SELECTOR@),
        author: document_first_html(html, AUTHOR_SELECTOR@),
        chapter: match document_first(html, CHAPTER_SELECTOR@) {
            Some(entry) => Some(
                ChapterEntryView {
                    pending: match element_first(html, entry, CHAPTER_NOT_RELEASED_SELECTOR@) {
                        Some(note) => Some(element_children_html(html, note)),
                        None => None,
                    },
                    title: element_first_html(html, entry, CHAPTER_TITLE_SELECTOR@),
                    date: element_first_html(html, entry, CHAPTER_RELEASE_DATE_SELECTOR@),
                    cover: element_first_attribute(html, entry, COVER_URL_SELECTOR@, "src"@),
                    link: element_first_attribute(html, entry, CHAPTER_URL_SELECTOR@, "href"@),
                },
            ),
            None => None,
        },
    }
}

/// The text of the date that has to be read: for a chapter that is not out
/// yet, what the second child of its note holds before the first bracket;
/// for one that is out, what its entry shows.
pub open spec fn date_to_read(page: PageView) -> Option<Seq<char>> {
    match page.chapter {
        Some(entry) => match entry.pending {
            Some(children) => if children.len() >= 2 {
                Some(before_first(children[1], "("@))
            } else {
                None
            },
            None => entry.date,
        },
        None => None,
    }
}

/// The picture of an entry, or why it has none.
pub open spec fn spec_cover(entry: ChapterEntryView) -> Result<Seq<char>, FetchErrorView> {
    match entry.cover {
        None => Err(chapter_missing("cover not found"@)),
        Some(None) => Err(chapter_missing("src attribute is empty"@)),
        Some(Some(cover)) => Ok(cover),
    }
}

/// The beginning in Japan of the day that reading a date gave.
pub open spec fn spec_day(midnight: int) -> Result<TimeView, FetchErrorView> {
    if calendar_day(midnight) {
        Ok(japan_midnight(midnight))
    } else {
        Err(chapter_missing("release date is out of range"@))
    }
}

/// The record of a chapter that is not out yet, `children` being the
/// contents of the children of its note: the chapter has no address yet.
pub open spec fn spec_pending(
    title: Seq<char>,
    author: Seq<char>,
    entry: ChapterEntryView,
    children: Seq<Seq<char>>,
    date: Option<Result<int, Seq<char>>>,
) -> FetchedView {
    if children.len() == 0 {
        Err(chapter_missing("title not found"@))
    } else if children.len() == 1 {
        Err(chapter_missing("release date not found"@))
    } else {
        let day = match date {
            Some(Ok(midnight)) => spec_day(midnight),
            Some(Err(words)) => Err(
                chapter_missing(
                    words + ", error parsing date : "@ + before_first(children[1], "("@),
                ),
            ),
            None => Err(chapter_missing("release date not found"@)),
        };
        match (day, spec_cover(entry)) {
            (Err(error), _) => Err(error),
            (Ok(_), Err(error)) => Err(error),
            (Ok(released), Ok(cover)) => Ok(
                MangaView {
                    title,
                    cover_url: cover,
                    author,
                    latest_chapter_title: children[0],
                    latest_chapter_url: Seq::empty(),
                    latest_chapter_release_date: released,
                    latest_chapter_publish_day: released.weekday(),
                },
            ),
        }
    }
}

/// The record of a chapter that is out.
pub open spec fn spec_out(
    title: Seq<char>,
    author: Seq<char>,
    entry: ChapterEntryView,
    date: Option<Result<int, Seq<char>>>,
) -> FetchedView {
    match (entry.title, entry.date) {
        (None, _) => Err(chapter_missing("title not found"@)),
        (Some(_), None) => Err(chapter_missing("release date not found"@)),
        (Some(chapter_title), Some(_)) => {
            let day = match date {
                Some(Ok(midnight)) => spec_day(midnight),
                Some(Err(words)) => Err(chapter_missing("error parsing date : "@ + words)),
                None => Err(chapter_missing("release date not found"@)),
            };
            match (day, spec_cover(entry), entry.link) {
                (Err(error), _, _) => Err(error),
                (Ok(_), Err(error), _) => Err(error),
                (Ok(_), Ok(_), None) => Err(chapter_missing("url not found"@)),
                (Ok(_), Ok(_), Some(None)) => Err(chapter_missing("href attribute is empty"@)),
                (Ok(released), Ok(cover), Some(Some(link))) => Ok(
                    MangaView {
                        title,
                        cover_url: cover,
                        author,
                        latest_chapter_title: chapter_title,
                        latest_chapter_url: "https://yanmaga.jp"@ + link,
                        latest_chapter_release_date: released,
                        latest_chapter_publish_day: released.weekday(),
                    },
                ),
            }
        },
    }
}

/// The record of a series, given what its page holds and what reading the
/// date of its latest chapter gave.
///
/// A page without title or author is not found. No chapter is found where
/// the list is empty or the first entry lacks its title, a date that can be
/// read, its picture or, for a chapter that is out, its link; the checks are
/// made in this order and the first that fails gives the error. The release
/// is the beginning in Japan of the day that the entry shows.
pub open spec fn spec_assemble(page: PageView, date: Option<Result<int, Seq<char>>>)
    -> FetchedView {
    match (page.title, page.author, page.chapter) {
        (None, _, _) => Err(page_missing("Title not found"@)),
        (Some(_), None, _) => Err(page_missing("Author not found"@)),
        (Some(_), Some(_), None) => Err(chapter_missing("zero result from chapter selector"@)),
        (Some(title), Some(author), Some(entry)) => match entry.pending {
            Some(children) => spec_pending(title, author, entry, children, date),
            None => spec_out(title, author, entry, date),
        },
    }
}

/// The record of the series on the page `html`.
pub open spec fn spec_parse(html: Seq<char>) -> FetchedView {
    let page = spec_extract(html);
    spec_assemble(
        page,
        match date_to_read(page) {
            Some(raw) => Some(parsed_date(raw, DATE_FORMAT@)),
            None => None,
        },
    )
}

/// What a date parser gave, if it was asked.
pub open spec fn asked_date_view(date: Option<Result<i64, String>>) -> Option<
    Result<int, Seq<char>>,
> {
    match date {
        Some(parsed) => Some(date_view(parsed)),
        None => None,
    }
}

/// What the page `html` holds of a series.
pub fn extract(html: &str) -> (page: Page)
    ensures
        page@ == spec_extract(html@),
{
    let doc = parse_document(html);
    let title = first_inner_html(&doc, TITLE_SELECTOR);
    let author = first_inner_html(&doc, AUTHOR_SELECTOR);
    let chapter = match first_match(&doc, CHAPTER_SELECTOR) {
        Some(entry) => {
            let pending = match first_match_within(&doc, entry, CHAPTER_NOT_RELEASED_SELECTOR) {
                Some(note) => Some(children_inner_html(&doc, note)),
                None => None,
            };
            let title = first_inner_html_within(&doc, entry, CHAPTER_TITLE_SELECTOR);
            let date = first_inner_html_within(&doc, entry, CHAPTER_RELEASE_DATE_SELECTOR);
            let cover = first_attribute_within(&doc, entry, COVER_URL_SELECTOR, "src");
            let link = first_attribute_within(&doc, entry, CHAPTER_URL_SELECTOR, "href");
            Some(ChapterEntry { pending, title, date, cover, link })
        },
        None => None,
    };
    Page { title, author, chapter }
}

/// The picture of an entry, or why it has none.
fn cover_of(entry: &ChapterEntry) -> (cover: Result<String, FetchError>)
    ensures
        match cover {
            Ok(text) => spec_cover(entry@) == Ok::<Seq<char>, FetchErrorView>(text@),
            Err(error) => spec_cover(entry@) == Err::<Seq<char>, FetchErrorView>(error@),
        },
{
    match &entry.cover {
        None => Err(FetchError::chapter_not_found("cover not found")),
        Some(None) => Err(FetchError::chapter_not_found("src attribute is empty")),
        Some(Some(cover)) => Ok(cover.clone()),
    }
}

/// The beginning in Japan of the day that reading a date gave.
fn day_of(midnight: i64) -> (day: Result<ZonedTime, FetchError>)
    ensures
        match day {
            Ok(time) => spec_day(midnight as int) == Ok::<TimeView, FetchErrorView>(time@),
            Err(error) => spec_day(midnight as int) == Err::<TimeView, FetchErrorView>(error@),
        },
{
    match ZonedTime::at_japan_midnight(midnight) {
        Some(time) => Ok(time),
        None => Err(FetchError::chapter_not_found("release date is out of range")),
    }
}

/// The record of a chapter that is not out yet.
fn pending_manga(
    title: &String,
    author: &String,
    entry: &ChapterEntry,
    children: &Vec<String>,
    date: Option<Result<i64, String>>,
) -> (fetched: Result<Manga, FetchError>)
    ensures
        fetched_view(fetched) == spec_pending(
            title@,
            author@,
            entry@,
            texts_view(children@),
            asked_date_view(date),
        ),
        fetched matches Ok(manga) ==> manga@.consistent(),
{
    if children.len() == 0 {
        return Err(FetchError::chapter_not_found("title not found"));
    }
    if children.len() == 1 {
        return Err(FetchError::chapter_not_found("release date not found"));
    }
    let released = match date {
        Some(Ok(midnight)) => match day_of(midnight) {
            Ok(time) => time,
            Err(error) => {
                return Err(error);
            },
        },
        Some(Err(words)) => {
            let date_only = before_first_in(children[1].as_str(), "(");
            return Err(
                FetchError::ChapterNotFound(
                    Some(concat3(words.as_str(), ", error parsing date : ", date_only.as_str())),
                ),
            );
        },
        None => {
            return Err(FetchError::chapter_not_found("release date not found"));
        },
    };
    let cover = match cover_of(entry) {
        Ok(cover) => cover,
        Err(error) => {
            return Err(error);
        },
    };
    proof {
        assert(""@ =~= Seq::<char>::empty()) by {
            reveal_strlit("");
        }
    }
    Ok(
        Manga::released_at(
            title.clone(),
            cover,
            author.clone(),
            children[0].clone(),
            "".to_owned(),
            released,
        ),
    )
}

/// The record of a chapter that is out.
fn out_manga(
    title: &String,
    author: &String,
    entry: &ChapterEntry,
    date: Option<Result<i64, String>>,
) -> (fetched: Result<Manga, FetchError>)
    ensures
        fetched_view(fetched) == spec_out(title@, author@, entry@, asked_date_view(date)),
        fetched matches Ok(manga) ==> manga@.consistent(),
{
    let chapter_title = match &entry.title {
        Some(text) => text,
        None => {
            return Err(FetchError::chapter_not_found("title not found"));
        },
    };
    if entry.date.is_none() {
        return Err(FetchError::chapter_not_found("release date not found"));
    }
    let released = match date {
        Some(Ok(midnight)) => match day_of(midnight) {
            Ok(time) => time,
            Err(error) => {
                return Err(error);
            },
        },
        Some(Err(words)) => {
            return Err(
                FetchError::ChapterNotFound(Some(concat("error parsing date : ", words.as_str()))),
            );
        },
        None => {
            return Err(FetchError::chapter_not_found("release date not found"));
        },
    };
    let cover = match cover_of(entry) {
        Ok(cover) => cover,
        Err(error) => {
            return Err(error);
        },
    };
    let link = match &entry.link {
        None => {
            return Err(FetchError::chapter_not_found("url not found"));
        },
        Some(None) => {
            return Err(FetchError::chapter_not_found("href attribute is empty"));
        },
        Some(Some(link)) => link,
    };
    Ok(
        Manga::released_at(
            title.clone(),
            cover,
            author.clone(),
            chapter_title.clone(),
            concat("https://yanmaga.jp", link.as_str()),
            released,
        ),
    )
}

/// The record of a series, given what its page holds and what reading the
/// date of its latest chapter gave.
pub fn assemble(page: &Page, date: Option<Result<i64, String>>) -> (fetched: Result<
    Manga,
    FetchError,
>)
    ensures
        fetched_view(fetched) == spec_assemble(page@, asked_date_view(date)),
        fetched matches Ok(manga) ==> manga@.consistent(),
{
    let title = match &page.title {
        Some(title) => title,
        None => {
            return Err(FetchError::page_not_found("Title not found"));
        },
    };
    let author = match &page.author {
        Some(author) => author,
        None => {
            return Err(FetchError::page_not_found("Author not found"));
        },
    };
    let entry = match &page.chapter {
        Some(entry) => entry,
        None => {
            return Err(FetchError::chapter_not_found("zero result from chapter selector"));
        },
    };
    match &entry.pending {
        Some(children) => pending_manga(title, author, entry, children, date),
        None => out_manga(title, author, entry, date),
    }
}

/// The text of the date that has to be read on a page, read.
fn read_date(page: &Page) -> (date: Option<Result<i64, String>>)
    ensures
        asked_date_view(date) == match date_to_read(page@) {
            Some(raw) => Some(parsed_date(raw, DATE_FORMAT@)),
            None => None,
        },
        date_to_read(page@) matches Some(raw) ==> reads_calendar_day(raw, DATE_FORMAT@),
{
    match &page.chapter {
        Some(entry) => match &entry.pending {
            Some(children) => {
                if children.len() >= 2 {
                    let date_only = before_first_in(children[1].as_str(), "(");
                    Some(parse_date(date_only.as_str(), DATE_FORMAT))
                } else {
                    None
                }
            },
            None => match &entry.date {
                Some(raw) => Some(parse_date(raw.as_str(), DATE_FORMAT)),
                None => None,
            },
        },
        None => None,
    }
}

/// The record of the series on the page `html`. The date that was read, if
/// one was, is a day that a release can fall on, so that no date of the page
/// is out of range.
pub fn parse_yanmaga_from_html(html: String) -> (fetched: Result<Manga, FetchError>)
    ensures
        fetched_view(fetched) == spec_parse(html@),
        fetched matches Ok(manga) ==> manga@.consistent(),
        date_to_read(spec_extract(html@)) matches Some(raw) ==> reads_calendar_day(
            raw,
            DATE_FORMAT@,
        ),
{
    let page = extract(html.as_str());
    let date = read_date(&page);
    assemble(&page, date)
}

} // verus!
