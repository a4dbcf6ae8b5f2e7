//! GANMA: the page of a series shows the number of its chapters and no
//! chapter of its own.

use crate::fetch::{chapter_missing, fetched_view, page_missing, FetchError, FetchedView};
use crate::html::{
    attribute_view, document_first_attribute, document_first_html, first_attribute,
    first_inner_html, parse_document,
};
use crate::text::{replace_all, replace_all_in, text_view};
use crate::time::{TimeView, ZonedTime};
use crate::types::{Manga, MangaView};
use vstd::prelude::*;

verus! {

/// The element that holds the title of the series.
pub const TITLE_SELECTOR: &'static str = "h2[class=\"text-lg font-semibold leading-tight\"]";

/// The element that holds the author of the series.
pub const AUTHOR_SELECTOR: &'static str = "div[class=\"font-semibold\"]";

/// The picture of the series.
pub const COVER_SELECTOR: &'static str = "img[class=\"pointer-events-none\"]";

/// The element that holds the number of chapters.
pub const TOTAL_CHAPTER_SELECTOR: &'static str = "span[class=\"text-g-black font-semibold\"]";

/// The link to the reader.
pub const CHAPTER_URL_SELECTOR: &'static str =
    "a[class=\"flex items-center justify-center gap-1 p-4\"]";

/// What a page holds of a series.
#[derive(Clone, Debug)]
pub struct Page {
    pub title: Option<String>,
    pub author: Option<String>,
    /// The picture: nothing where the page has none, else its `src` attribute.
    pub cover: Option<Option<String>>,
    pub total_chapters: Option<String>,
    /// The link: nothing where the page has none, else its `href` attribute.
    pub link: Option<Option<String>>,
}

/// A `Page` with its texts as sequences of characters.
pub struct PageView {
    pub title: Option<Seq<char>>,
    pub author: Option<Seq<char>>,
    pub cover: Option<Option<Seq<char>>>,
    pub total_chapters: Option<Seq<char>>,
    pub link: Option<Option<Seq<char>>>,
}

impl View for Page {
    type V = PageView;

    open spec fn view(&self) -> PageView {
        PageView {
            title: text_view(self.title),
            author: text_view(self.author),
            cover: attribute_view(self.cover),
            total_chapters: text_view(self.total_chapters),
            link: attribute_view(self.link),
        }
    }
}

/// What the document parsed from `html` holds of a series.
pub open spec fn spec_extract(html: Seq<char>) -> PageView {
    PageView {
        title: document_first_html(html, TITLE_SELECTOR@),
        author: document_first_html(html, AUTHOR_SELECTOR@),
        cover: document_first_attribute(html, COVER_SELECTOR@, "src"@),
        total_chapters: document_first_html(html, TOTAL_CHAPTER_SELECTOR@),
        link: document_first_attribute(html, CHAPTER_URL_SELECTOR@, "href"@),
    }
}

/// The record of a series, given what its page holds and the current time.
///
/// A page without title or author is not found. No chapter is found where
/// the page lacks the picture, its address, the number of chapters, the link
/// or its address; the checks are made in this order. The number of
/// chapters, without the comment marks in it, stands for the title of the
/// latest chapter, and the release is the current time, shown in Japan.
pub open spec fn spec_assemble(page: PageView, now: TimeView) -> FetchedView {
    match (page.title, page.author, page.cover, page.total_chapters, page.link) {
        (None, _, _, _, _) => Err(page_missing("title not found"@)),
        (Some(_), None, _, _, _) => Err(page_missing("author not found"@)),
        (Some(_), Some(_), None, _, _) => Err(chapter_missing("cover not found"@)),
        (Some(_), Some(_), Some(None), _, _) => Err(
            chapter_missing("cover src attribute not found"@),
        ),
        (Some(_), Some(_), Some(Some(_)), None, _) => Err(
            chapter_missing("chapter count not found"@),
        ),
        (Some(_), Some(_), Some(Some(_)), Some(_), None) => Err(
            chapter_missing("url not found"@),
        ),
        (Some(_), Some(_), Some(Some(_)), Some(_), Some(None)) => Err(
            chapter_missing("url href attribute not found"@),
        ),
        (Some(title), Some(author), Some(Some(cover)), Some(total), Some(Some(link))) => Ok(
            MangaView {
                title,
                cover_url: cover,
                author,
                latest_chapter_title: replace_all(total, "<!-- -->"@, ""@),
                latest_chapter_url: link,
                latest_chapter_release_date: now.in_japan(),
                latest_chapter_publish_day: now.in_japan().weekday(),
            },
        ),
    }
}

/// The record of the series on the page `html` at `now`.
pub open spec fn spec_parse(html: Seq<char>, now: TimeView) -> FetchedView {
    spec_assemble(spec_extract(html), now)
}

/// What the page `html` holds of a series.
pub fn extract(html: &str) -> (page: Page)
    ensures
        page@ == spec_extract(html@),
{
    let doc = parse_document(html);
    Page {
        title: first_inner_html(&doc, TITLE_SELECTOR),
        author: first_inner_html(&doc, AUTHOR_SELECTOR),
        cover: first_attribute(&doc, COVER_SELECTOR, "src"),
        total_chapters: first_inner_html(&doc, TOTAL_CHAPTER_SELECTOR),
        link: first_attribute(&doc, CHAPTER_URL_SELECTOR, "href"),
    }
}

/// The record of a series, given what its page holds and the current time.
pub fn assemble(page: &Page, now: ZonedTime) -> (fetched: Result<Manga, FetchError>)
    ensures
        fetched_view(fetched) == spec_assemble(page@, now@),
        fetched matches Ok(manga) ==> manga@.consistent(),
{
    let title = match &page.title {
        Some(title) => title,
        None => {
            return Err(FetchError::page_not_found("title not found"));
        },
    };
    let author = match &page.author {
        Some(author) => author,
        None => {
            return Err(FetchError::page_not_found("author not found"));
        },
    };
    let cover = match &page.cover {
        None => {
            return Err(FetchError::chapter_not_found("cover not found"));
        },
        Some(None) => {
            return Err(FetchError::chapter_not_found("cover src attribute not found"));
        },
        Some(Some(cover)) => cover,
    };
    let total = match &page.total_chapters {
        Some(total) => total,
        None => {
            return Err(FetchError::chapter_not_found("chapter count not found"));
        },
    };
    let link = match &page.link {
        None => {
            return Err(FetchError::chapter_not_found("url not found"));
        },
        Some(None) => {
            return Err(FetchError::chapter_not_found("url href attribute not found"));
        },
        Some(Some(link)) => link,
    };
    Ok(
        Manga::released_at(
            title.clone(),
            cover.clone(),
            author.clone(),
            replace_all_in(total.as_str(), "<!-- -->", ""),
            link.clone(),
            now.to_japan(),
        ),
    )
}

/// The record of the series on the page `html` at `now`.
pub fn parse_ganma_from_html(html: String, now: ZonedTime) -> (fetched: Result<Manga, FetchError>)
    ensures
        fetched_view(fetched) == spec_parse(html@, now@),
        fetched matches Ok(manga) ==> manga@.consistent(),
{
    let page = extract(html.as_str());
    assemble(&page, now)
}

} // verus!
