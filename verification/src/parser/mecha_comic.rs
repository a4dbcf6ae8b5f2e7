//! Mecha Comic: the page of a series names the number of its latest chapter,
//! and the page of that chapter lists it last.

use crate::fetch::{
    chapter_missing, fetched_view, page_missing, FetchError, FetchErrorView, FetchedView,
};
use crate::html::{
    attribute_view, document_first_attribute, document_first_html, document_last, document_markup,
    element_first, element_first_attribute, element_first_html, element_first_text,
    first_attribute, first_attribute_within, first_inner_html, first_inner_html_within,
    first_match_within, first_text, last_match, parse_document,
};
use crate::text::{
    concat, concat3, number_view, parse_i32, parsed_i32, replace_all, replace_all_in, text_view,
    trim, trim_in,
};
use crate::time::{TimeView, ZonedTime};
use crate::types::{Manga, MangaView};
use vstd::prelude::*;

verus! {

/// The element that holds the title of the series.
pub const TITLE_SELECTOR: &'static str = "div[class=\"p-bookInfo_title\"] > h1";

/// The picture of the series.
pub const COVER_SELECTOR: &'static str =
    "div[class=\"p-bookInfo_jacket\"] > img[class=\"jacket_image_l\"]";

/// The element that holds the author of the series.
pub const AUTHOR_SELECTOR: &'static str = "span[class=\"p-sepList_item p-sepList_item-thrash\"] > a";

/// The sections of the list of chapters; the last is the latest chapter.
pub const CHAPTER_SECTION_SELECTOR: &'static str =
    "div[class=\"p-chapterInfo p-chapterInfo-comic u-clearfix\"]";

/// The number of a chapter, within its section.
pub const CHAPTER_NUM_SELECTOR: &'static str = "dt[class=\"p-chapterList_no\"]";

/// The title of a chapter, within its section.
pub const CHAPTER_TITLE_SELECTOR: &'static str = "dd[class=\"p-chapterList_name\"]";

/// The link of a chapter, within its section.
pub const CHAPTER_URL_SELECTOR: &'static str =
    "a[class=\"p-btn-chapter c-btn c-btn-boder-buy prevent\"]";

/// The element that holds the number of the latest chapter.
pub const CHAPTER_NUMBER_SELECTOR: &'static str = "div[class=\"u-inlineBlock\"] > span";

/// What the element of a chapter's number holds.
#[derive(Clone, Debug)]
pub enum NumberCell {
    /// The section has no such element.
    Missing,
    /// The element has no child.
    Empty,
    /// The first child of the element is no text.
    NotText,
    /// The text that the element begins with.
    Text(String),
}

/// A `NumberCell` with its text as a sequence of characters.
pub enum NumberCellView {
    Missing,
    Empty,
    NotText,
    Text(Seq<char>),
}

impl View for NumberCell {
    type V = NumberCellView;

    open spec fn view(&self) -> NumberCellView {
        match *self {
            NumberCell::Missing => NumberCellView::Missing,
            NumberCell::Empty => NumberCellView::Empty,
            NumberCell::NotText => NumberCellView::NotText,
            NumberCell::Text(text) => NumberCellView::Text(text@),
        }
    }
}

/// What the section of the latest chapter holds.
#[derive(Clone, Debug)]
pub struct Section {
    pub number: NumberCell,
    pub title: Option<String>,
    /// The link: nothing where the section has none, else its `href` attribute.
    pub link: Option<Option<String>>,
}

/// What a page holds of a series.
#[derive(Clone, Debug)]
pub struct Page {
    pub title: Option<String>,
    /// The picture: nothing where the page has none, else its `src` attribute.
    pub cover: Option<Option<String>>,
    pub author: Option<String>,
    /// The last section of the list of chapters, where it has one.
    pub chapter: Option<Section>,
}

/// A `Section` with its texts as sequences of characters.
pub struct SectionView {
    pub number: NumberCellView,
    pub title: Option<Seq<char>>,
    pub link: Option<Option<Seq<char>>>,
}

/// A `Page` with its texts as sequences of characters.
pub struct PageView {
    pub title: Option<Seq<char>>,
    pub cover: Option<Option<Seq<char>>>,
    pub author: Option<Seq<char>>,
    pub chapter: Option<SectionView>,
}

impl View for Section {
    type V = SectionView;

    open spec fn view(&self) -> SectionView {
        SectionView {
            number: self.number@,
            title: text_view(self.title),
            link: attribute_view(self.link),
        }
    }
}

impl View for Page {
    type V = PageView;

    open spec fn view(&self) -> PageView {
        PageView {
            title: text_view(self.title),
            cover: attribute_view(self.cover),
            author: text_view(self.author),
            chapter: match self.chapter {
                Some(section) => Some(section@),
                None => None,
            },
        }
    }
}

/// What the element of a chapter's number holds, within the section `node`.
pub open spec fn spec_number_cell(html: Seq<char>, node: usize) -> NumberCellView {
    match element_first(html, node, CHAPTER_NUM_SELECTOR@) {
        None => NumberCellView::Missing,
        Some(cell) => match element_first_text(html, cell) {
            None => NumberCellView::Empty,
            Some(None) => NumberCellView::NotText,
            Some(Some(text)) => NumberCellView::Text(text),
        },
    }
}

/// What the document parsed from `html` holds of a series.
pub open spec fn spec_extract(html: Seq<char>) -> PageView {
    PageView {
        title: document_first_html(html, TITLE_SELECTOR@),
        cover: document_first_attribute(html, COVER_SELECTOR@, "src"@),
        author: document_first_html(html, AUTHOR_SELECTOR@),
        chapter: match document_last(html, CHAPTER_SECTION_SELECTOR@) {
            Some(section) => Some(
                SectionView {
                    number: spec_number_cell(html, section),
                    title: element_first_html(html, section, CHAPTER_TITLE_SELECTOR@),
                    link: element_first_attribute(html, section, CHAPTER_URL_SELECTOR@, "href"@),
                },
            ),
            None => None,
        },
    }
}

/// The record of the latest chapter, given its section.
pub open spec fn spec_chapter(
    title: Seq<char>,
    cover: Seq<char>,
    author: Seq<char>,
    section: SectionView,
    now: TimeView,
) -> FetchedView {
    match (section.number, section.title, section.link) {
        (NumberCellView::Missing, _, _) => Err(chapter_missing("chapter num element not found"@)),
        (NumberCellView::Empty, _, _) => Err(chapter_missing("chapter num child is empty"@)),
        (NumberCellView::NotText, _, _) => Err(chapter_missing("chapter num child is not text"@)),
        (NumberCellView::Text(_), None, _) => Err(chapter_missing("chapter title not found"@)),
        (NumberCellView::Text(_), Some(_), None) => Err(
            chapter_missing("chapter url not found"@),
        ),
        (NumberCellView::Text(_), Some(_), Some(None)) => Err(
            chapter_missing("chapter url href attribute is empty"@),
        ),
        (NumberCellView::Text(number), Some(chapter_title), Some(Some(link))) => Ok(
            MangaView {
                title,
                cover_url: cover,
                author,
                latest_chapter_title: trim(number) + " "@ + trim(chapter_title),
                latest_chapter_url: "https://mechacomic.jp"@ + link,
                latest_chapter_release_date: now.in_japan(),
                latest_chapter_publish_day: now.in_japan().weekday(),
            },
        ),
    }
}

/// The record of a series, given what the page of its latest chapter holds
/// and the current time.
///
/// A page without title, picture, address of the picture or author is not
/// found. No chapter is found where the list has no section, or the last
/// section lacks its number as a text, its title, its link or the address of
/// the link; the checks are made in this order. The release is the current
/// time, shown in Japan: the page names no date.
pub open spec fn spec_assemble(page: PageView, now: TimeView) -> FetchedView {
    match (page.title, page.cover, page.author, page.chapter) {
        (None, _, _, _) => Err(page_missing("title not found"@)),
        (Some(_), None, _, _) => Err(page_missing("cover element not found"@)),
        (Some(_), Some(None), _, _) => Err(page_missing("cover src is empty"@)),
        (Some(_), Some(Some(_)), None, _) => Err(page_missing("author not found"@)),
        (Some(_), Some(Some(_)), Some(_), None) => Err(
            chapter_missing("chapter section element not found"@),
        ),
        (Some(title), Some(Some(cover)), Some(author), Some(section)) => spec_chapter(
            title,
            cover,
            author,
            section,
            now,
        ),
    }
}

/// The record of the series on the page `html` at `now`.
pub open spec fn spec_parse(html: Seq<char>, now: TimeView) -> FetchedView {
    spec_assemble(spec_extract(html), now)
}

/// What the element of a chapter's number holds, within the section `node`.
fn number_cell(doc: &scraper::Html, node: usize) -> (cell: NumberCell)
    ensures
        cell@ == spec_number_cell(document_markup(*doc), node),
{
    match first_match_within(doc, node, CHAPTER_NUM_SELECTOR) {
        None => NumberCell::Missing,
        Some(found) => match first_text(doc, found) {
            None => NumberCell::Empty,
            Some(None) => NumberCell::NotText,
            Some(Some(text)) => NumberCell::Text(text),
        },
    }
}

/// What the page `html` holds of a series.
pub fn extract(html: &str) -> (page: Page)
    ensures
        page@ == spec_extract(html@),
{
    let doc = parse_document(html);
    let title = first_inner_html(&doc, TITLE_SELECTOR);
    let cover = first_attribute(&doc, COVER_SELECTOR, "src");
    let author = first_inner_html(&doc, AUTHOR_SELECTOR);
    let chapter = match last_match(&doc, CHAPTER_SECTION_SELECTOR) {
        Some(section) => Some(
            Section {
                number: number_cell(&doc, section),
                title: first_inner_html_within(&doc, section, CHAPTER_TITLE_SELECTOR),
                link: first_attribute_within(&doc, section, CHAPTER_URL_SELECTOR, "href"),
            },
        ),
        None => None,
    };
    Page { title, cover, author, chapter }
}

/// The record of the latest chapter, given its section.
fn chapter_manga(
    title: &String,
    cover: &String,
    author: &String,
    section: &Section,
    now: ZonedTime,
) -> (fetched: Result<Manga, FetchError>)
    ensures
        fetched_view(fetched) == spec_chapter(title@, cover@, author@, section@, now@),
        fetched matches Ok(manga) ==> manga@.consistent(),
{
    let number = match &section.number {
        NumberCell::Missing => {
            return Err(FetchError::chapter_not_found("chapter num element not found"));
        },
        NumberCell::Empty => {
            return Err(FetchError::chapter_not_found("chapter num child is empty"));
        },
        NumberCell::NotText => {
            return Err(FetchError::chapter_not_found("chapter num child is not text"));
        },
        NumberCell::Text(number) => number,
    };
    let chapter_title = match &section.title {
        Some(text) => text,
        None => {
            return Err(FetchError::chapter_not_found("chapter title not found"));
        },
    };
    let link = match &section.link {
        None => {
            return Err(FetchError::chapter_not_found("chapter url not found"));
        },
        Some(None) => {
            return Err(FetchError::chapter_not_found("chapter url href attribute is empty"));
        },
        Some(Some(link)) => link,
    };
    Ok(
        Manga::released_at(
            title.clone(),
            cover.clone(),
            author.clone(),
            concat3(
                trim_in(number.as_str()).as_str(),
                " ",
                trim_in(chapter_title.as_str()).as_str(),
            ),
            concat("https://mechacomic.jp", link.as_str()),
            now.to_japan(),
        ),
    )
}

/// The record of a series, given what the page of its latest chapter holds
/// and the current time.
pub fn assemble(page: &Page, now: ZonedTime) -> (fetched: Result<Manga, FetchError>)
    ensures
        fetched_view(fetched) == spec_assemble(page@, now@),
        fetched matches Ok(manga) ==> manga@.consistent(),
{
    let title = match &page.title {
        Some(title) => title,
        None => {
            return Err(FetchError::page_not_found("title not found"));
        },
    };
    let cover = match &page.cover {
        None => {
            return Err(FetchError::page_not_found("cover element not found"));
        },
        Some(None) => {
            return Err(FetchError::page_not_found("cover src is empty"));
        },
        Some(Some(cover)) => cover,
    };
    let author = match &page.author {
        Some(author) => author,
        None => {
            return Err(FetchError::page_not_found("author not found"));
        },
    };
    match &page.chapter {
        Some(section) => chapter_manga(title, cover, author, section, now),
        None => Err(FetchError::chapter_not_found("chapter section element not found")),
    }
}

/// The record of the series on the page `html` at `now`.
pub fn parse_mecha_comic_from_html(html: String, now: ZonedTime) -> (fetched: Result<
    Manga,
    FetchError,
>)
    ensures
        fetched_view(fetched) == spec_parse(html@, now@),
        fetched matches Ok(manga) ==> manga@.consistent(),
{
    let page = extract(html.as_str());
    assemble(&page, now)
}

/// The text of a chapter's number without what the page writes around it.
pub open spec fn spec_number_text(cell: Seq<char>) -> Seq<char> {
    replace_all(replace_all(cell, "／"@, ""@), "話へ"@, ""@)
}

/// The text of a chapter's number without what the page writes around it.
pub fn number_text(cell: &str) -> (text: String)
    ensures
        text@ == spec_number_text(cell@),
{
    let first = replace_all_in(cell, "／", "");
    replace_all_in(first.as_str(), "話へ", "")
}

/// What a number that was looked for is, or why there is none.
pub enum NumberView {
    Found(int),
    Failed(FetchErrorView),
}

/// The number of the latest chapter, where the page holds `cell` in the
/// element of that number and reading the cleaned text gave `parsed`.
pub open spec fn spec_number(cell: Option<Seq<char>>, parsed: Option<Result<int, Seq<char>>>)
    -> NumberView {
    match (cell, parsed) {
        (Some(_), Some(Ok(number))) => NumberView::Found(number),
        (Some(_), Some(Err(words))) => NumberView::Failed(
            page_missing("Page number parse error: "@ + words),
        ),
        _ => NumberView::Failed(page_missing("no match for chapter number selector"@)),
    }
}

/// The view of a number that was looked for.
pub open spec fn found_view(found: Result<i32, FetchError>) -> NumberView {
    match found {
        Ok(number) => NumberView::Found(number as int),
        Err(error) => NumberView::Failed(error@),
    }
}

/// What a parser of numbers gave, if it was asked.
pub open spec fn asked_number_view(parsed: Option<Result<i32, String>>) -> Option<
    Result<int, Seq<char>>,
> {
    match parsed {
        Some(inner) => Some(number_view(inner)),
        None => None,
    }
}

/// The number of the latest chapter, where the page holds `cell` in the
/// element of that number and reading the cleaned text gave `parsed`.
pub fn number_from(cell: &Option<String>, parsed: Option<Result<i32, String>>) -> (found: Result<
    i32,
    FetchError,
>)
    ensures
        found_view(found) == spec_number(text_view(*cell), asked_number_view(parsed)),
{
    match (cell, parsed) {
        (Some(_), Some(Ok(number))) => Ok(number),
        (Some(_), Some(Err(words))) => Err(
            FetchError::PageNotFound(Some(concat("Page number parse error: ", words.as_str()))),
        ),
        _ => Err(FetchError::page_not_found("no match for chapter number selector")),
    }
}

/// The number of the latest chapter that the page `html` names.
pub open spec fn spec_latest_chapter_number(html: Seq<char>) -> NumberView {
    let cell = document_first_html(html, CHAPTER_NUMBER_SELECTOR@);
    spec_number(
        cell,
        match cell {
            Some(text) => Some(parsed_i32(spec_number_text(text))),
            None => None,
        },
    )
}

/// The number of the latest chapter that the page `html` names.
pub fn find_latest_chapter_number(html: String) -> (found: Result<i32, FetchError>)
    ensures
        found_view(found) == spec_latest_chapter_number(html@),
{
    let doc = parse_document(html.as_str());
    let cell = first_inner_html(&doc, CHAPTER_NUMBER_SELECTOR);
    let parsed = match &cell {
        Some(text) => Some(parse_i32(number_text(text.as_str()).as_str())),
        None => None,
    };
    number_from(&cell, parsed)
}

} // verus!
