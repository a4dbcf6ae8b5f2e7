//! A fetch as a run of steps: the library says what to ask of the outside
//! world, the caller asks it and hands back the answer.

use crate::fetch::{fetched_view, page_missing, FetchError, FetchErrorView, FetchedView};
use crate::parser::cdata_rss;
use crate::parser::comic_fuz;
use crate::parser::comic_pixiv;
use crate::parser::comic_walker;
use crate::parser::gamma_plus;
use crate::parser::gangan_online;
use crate::parser::ganma;
use crate::parser::manga_up;
use crate::parser::mecha_comic;
use crate::parser::rss_manga;
use crate::parser::urasunday;
use crate::parser::yanmaga;
use crate::text::{concat3, decimal};
use crate::time::{TimeView, ZonedTime};
use crate::types::{Manga, MangaSource};
use vstd::prelude::*;

verus! {

/// How the browser of a fetch names itself.
pub const USER_AGENT: &'static str =
    "Mozilla/5.0 (X11; Linux x86_64) AppleWebKit/537.36 (KHTML, like Gecko) Chrome/135.0.0.0 Safari/537.36";

/// The name of the header that Comic Pixiv asks for.
pub const PIXIV_HEADER: &'static str = "x-requested-with";

/// The value of the header that Comic Pixiv asks for.
pub const PIXIV_CLIENT: &'static str = "pixivcomic";

/// The error of an answer that is none to the request made.
pub const MISFIT: &'static str = "the answer does not fit the request";

/// How a source is read.
#[derive(Clone, Copy, Debug, PartialEq, Eq, Structural)]
pub enum Strategy {
    /// A feed in plain RSS.
    Feed,
    /// A feed whose values come in CDATA sections.
    CdataFeed,
    /// A page read by its elements.
    Page,
    /// A page read by its elements, after a browser rendered it.
    RenderedPage,
    /// A page that carries its data as JSON.
    PageWithData,
    /// Answers of an interface, in JSON.
    Interface,
}

/// What a text is to be decoded as.
#[derive(Clone, Copy, Debug, PartialEq, Eq, Structural)]
pub enum Shape {
    Rss,
    CdataRss,
    ComicFuz,
    GanganOnline,
    MangaUp,
    PixivMetadata,
    PixivEpisodes,
    ComicWalker,
}

/// What decoding a text gave.
#[derive(Clone, Debug)]
pub enum Decoded {
    Rss(rss_manga::Rss),
    CdataRss(cdata_rss::Rss),
    ComicFuz(comic_fuz::ComicFuz),
    GanganOnline(gangan_online::GanganOnline),
    MangaUp(manga_up::MangaUpData),
    PixivMetadata(comic_pixiv::Metadata),
    PixivEpisodes(comic_pixiv::Detail),
    ComicWalker(comic_walker::ComicWalkerData),
}

/// A header of a request.
#[derive(Clone, Debug)]
pub struct Header {
    pub name: String,
    pub value: String,
}

/// What the caller is asked to do.
#[derive(Clone, Debug)]
pub enum Request {
    /// Wait for `wait_millis` milliseconds, get the address and hand back the
    /// text of the answer; an answer with an error status is a failure.
    Page { url: String, wait_millis: u64 },
    /// Get the address with the header, and hand back the answer decoded as
    /// JSON of the shape, or the words of the decoder on an answer that holds
    /// nothing of the shape; an answer with an error status is a failure.
    Json { url: String, header: Option<Header>, shape: Shape },
    /// Send the browser to the address and hand back the source of the page
    /// that it shows.
    Rendered { url: String },
    /// Decode the text as the shape and hand back what it holds.
    Decode { shape: Shape, text: String },
}

/// What the caller hands back.
#[derive(Clone, Debug)]
pub enum Answer {
    /// The text of an answer or of a page.
    Text(String),
    /// What a text held.
    Decoded(Decoded),
    /// The words of the decoder on a text that held nothing of the shape.
    Undecoded(String),
    /// The request failed.
    Failed(FetchError),
}

/// How far a fetch has come: what the answer that comes next answers.
#[derive(Clone, Debug)]
pub enum Progress {
    /// The page or feed of the series was asked for, `retries` times again.
    Page { retries: u32 },
    /// The page of the latest chapter was asked for.
    ChapterPage,
    /// A text taken from `html` is being decoded.
    Decoding { html: String },
    /// The first answer of an interface was asked for.
    Interface,
    /// The episodes of a series were asked for, `metadata` being the answer
    /// on the series.
    Episodes { metadata: comic_pixiv::Metadata },
}

/// The next step of a fetch.
#[derive(Debug)]
pub enum Step {
    /// The caller makes the request and comes back with its answer.
    Ask(Progress, Request),
    /// The fetch is over.
    Done(Result<Manga, FetchError>),
}

/// A `Request` with its texts as sequences of characters.
pub enum RequestView {
    Page { url: Seq<char>, wait_millis: int },
    Json { url: Seq<char>, header: Option<(Seq<char>, Seq<char>)>, shape: Shape },
    Rendered { url: Seq<char> },
    Decode { shape: Shape, text: Seq<char> },
}

/// A `Progress` with its texts as sequences of characters.
pub enum ProgressView {
    Page { retries: int },
    ChapterPage,
    Decoding { html: Seq<char> },
    Interface,
    Episodes { metadata: comic_pixiv::Metadata },
}

/// A `Step` over the views of its parts.
pub enum StepView {
    Ask(ProgressView, RequestView),
    Done(FetchedView),
}

impl View for Request {
    type V = RequestView;

    open spec fn view(&self) -> RequestView {
        match *self {
            Request::Page { url, wait_millis } => RequestView::Page {
                url: url@,
                wait_millis: wait_millis as int,
            },
            Request::Json { url, header, shape } => RequestView::Json {
                url: url@,
                header: match header {
                    Some(h) => Some((h.name@, h.value@)),
                    None => None,
                },
                shape,
            },
            Request::Rendered { url } => RequestView::Rendered { url: url@ },
            Request::Decode { shape, text } => RequestView::Decode { shape, text: text@ },
        }
    }
}

impl View for Progress {
    type V = ProgressView;

    open spec fn view(&self) -> ProgressView {
        match *self {
            Progress::Page { retries } => ProgressView::Page { retries: retries as int },
            Progress::ChapterPage => ProgressView::ChapterPage,
            Progress::Decoding { html } => ProgressView::Decoding { html: html@ },
            Progress::Interface => ProgressView::Interface,
            Progress::Episodes { metadata } => ProgressView::Episodes { metadata },
        }
    }
}

impl View for Step {
    type V = StepView;

    open spec fn view(&self) -> StepView {
        match *self {
            Step::Ask(progress, request) => StepView::Ask(progress@, request@),
            Step::Done(fetched) => StepView::Done(fetched_view(fetched)),
        }
    }
}

/// The step that ends a fetch on an answer that is none to the request made.
pub open spec fn misfit() -> StepView {
    StepView::Done(Err(page_missing(MISFIT@)))
}

/// An upper bound on the requests that are still to come after the one that
/// `progress` waits for.
pub open spec fn requests_left(progress: ProgressView) -> nat {
    match progress {
        ProgressView::Page { retries } => if 0 <= retries <= manga_up::MAX_RETRY {
            (2 + (manga_up::MAX_RETRY - retries) + 1) as nat
        } else {
            2
        },
        ProgressView::Interface => 2,
        ProgressView::ChapterPage => 1,
        ProgressView::Decoding { html } => 1,
        ProgressView::Episodes { metadata } => 1,
    }
}

impl MangaSource {
    /// How the source is read.
    pub open spec fn spec_strategy(self) -> Strategy {
        match self {
            MangaSource::ShounenJumpPlus
            | MangaSource::ComicEarthStar
            | MangaSource::KurageBunch
            | MangaSource::ComicDays
            | MangaSource::MagazinePocket
            | MangaSource::TonariYoungJump
            | MangaSource::SundayWebry
            | MangaSource::ComicAction
            | MangaSource::ComicGardo
            | MangaSource::IchijinPlus => Strategy::Feed,
            MangaSource::ComicGrowl
            | MangaSource::ChampionCross
            | MangaSource::YoungAnimal
            | MangaSource::YoungChampion => Strategy::CdataFeed,
            MangaSource::Yanmaga
            | MangaSource::GammaPlus
            | MangaSource::GANMA
            | MangaSource::MechaComic => Strategy::Page,
            MangaSource::Urasunday => Strategy::RenderedPage,
            MangaSource::ComicFuz | MangaSource::GanganOnline | MangaSource::MangaUp =>
                Strategy::PageWithData,
            MangaSource::ComicPixiv | MangaSource::ComicWalker => Strategy::Interface,
        }
    }

    /// What stands before the identifier of a series in the address that a
    /// fetch asks for first.
    pub open spec fn spec_address_head(self) -> Seq<char> {
        match self {
            MangaSource::Yanmaga => "https://yanmaga.jp/comics/"@,
            MangaSource::ShounenJumpPlus => "https://shonenjumpplus.com/rss/series/"@,
            MangaSource::ComicEarthStar => "https://comic-earthstar.com/rss/series/"@,
            MangaSource::KurageBunch => "https://kuragebunch.com/rss/series/"@,
            MangaSource::ComicGrowl => "https://comic-growl.com/series/"@,
            MangaSource::ComicDays => "https://comic-days.com/rss/series/"@,
            MangaSource::MagazinePocket => "https://mgpk-cdn.magazinepocket.com/static/rss/"@,
            MangaSource::ComicPixiv => "https://comic.pixiv.net/api/app/works/v5/"@,
            MangaSource::Urasunday => "https://urasunday.com/title/"@,
            MangaSource::ComicWalker =>
                "https://comic-walker.com/api/contents/details/work?workCode="@,
            MangaSource::TonariYoungJump => "https://tonarinoyj.jp/rss/series/"@,
            MangaSource::MangaUp => "https://www.manga-up.com/titles/"@,
            MangaSource::SundayWebry => "https://www.sunday-webry.com/rss/series/"@,
            MangaSource::ComicFuz => "https://comic-fuz.com/manga/"@,
            MangaSource::GanganOnline => "https://www.ganganonline.com/title/"@,
            MangaSource::GammaPlus => "https://gammaplus.takeshobo.co.jp/manga/"@,
            MangaSource::ChampionCross => "https://championcross.jp/series/"@,
            MangaSource::GANMA => "https://ganma.jp/web/magazine/"@,
            MangaSource::YoungAnimal => "https://younganimal.com/series/"@,
            MangaSource::MechaComic => "https://mechacomic.jp/books/"@,
            MangaSource::YoungChampion => "https://youngchampion.jp/series/"@,
            MangaSource::IchijinPlus => "https://ichicomi.com/rss/series/"@,
            MangaSource::ComicAction => "https://comic-action.com/rss/series/"@,
            MangaSource::ComicGardo => "https://comic-gardo.com/rss/series/"@,
        }
    }

    /// What stands behind the identifier of a series in that address.
    pub open spec fn spec_address_tail(self) -> Seq<char> {
        match self {
            MangaSource::ComicGrowl
            | MangaSource::ChampionCross
            | MangaSource::YoungAnimal
            | MangaSource::YoungChampion => "/rss"@,
            MangaSource::MagazinePocket => "/feed.xml"@,
            MangaSource::Urasunday => "/chapter/1234"@,
            _ => ""@,
        }
    }

    /// The address that a fetch of the series `manga_id` asks for first.
    pub open spec fn spec_address(self, manga_id: Seq<char>) -> Seq<char> {
        self.spec_address_head() + manga_id + self.spec_address_tail()
    }

    /// The first step of a fetch of the series `manga_id`.
    pub open spec fn spec_begin(self, manga_id: Seq<char>) -> StepView {
        let url = self.spec_address(manga_id);
        match self {
            MangaSource::Urasunday => StepView::Ask(
                ProgressView::Page { retries: 0 },
                RequestView::Rendered { url },
            ),
            MangaSource::ComicPixiv => StepView::Ask(
                ProgressView::Interface,
                RequestView::Json {
                    url,
                    header: Some((PIXIV_HEADER@, PIXIV_CLIENT@)),
                    shape: Shape::PixivMetadata,
                },
            ),
            MangaSource::ComicWalker => StepView::Ask(
                ProgressView::Interface,
                RequestView::Json { url, header: None, shape: Shape::ComicWalker },
            ),
            _ => StepView::Ask(
                ProgressView::Page { retries: 0 },
                RequestView::Page { url, wait_millis: 0 },
            ),
        }
    }

    /// What a fetch ends with, given what the adapter of the source made of
    /// the answers: the record as the source's rules keep it, or the error.
    pub open spec fn spec_finish(self, fetched: FetchedView) -> StepView {
        StepView::Done(
            match fetched {
                Ok(manga) => Ok(self.spec_postprocess(manga)),
                Err(error) => Err(error),
            },
        )
    }

    /// The step after the text `body` of the page or feed of the series
    /// came, asked for `retries` times again.
    pub open spec fn spec_after_page(
        self,
        manga_id: Seq<char>,
        retries: int,
        body: String,
        now: TimeView,
    ) -> StepView {
        match self {
            MangaSource::Yanmaga => self.spec_finish(yanmaga::spec_parse(body@)),
            MangaSource::GammaPlus => self.spec_finish(gamma_plus::spec_parse(body@, now)),
            MangaSource::GANMA => self.spec_finish(ganma::spec_parse(body@, now)),
            MangaSource::Urasunday => self.spec_finish(
                urasunday::spec_parse(body@, manga_id, now),
            ),
            MangaSource::MechaComic => match mecha_comic::spec_latest_chapter_number(body@) {
                mecha_comic::NumberView::Found(number) => StepView::Ask(
                    ProgressView::ChapterPage,
                    RequestView::Page {
                        url: self.spec_address(manga_id) + "?chapter_number="@ + decimal(number),
                        wait_millis: 0,
                    },
                ),
                mecha_comic::NumberView::Failed(error) => StepView::Done(Err(error)),
            },
            MangaSource::ComicFuz => match crate::html::document_first_html(
                body@,
                comic_fuz::next_data_selector(),
            ) {
                Some(text) => StepView::Ask(
                    ProgressView::Decoding { html: body@ },
                    RequestView::Decode { shape: Shape::ComicFuz, text },
                ),
                None => StepView::Done(Err(page_missing("__NEXT_DATA__ not found"@))),
            },
            MangaSource::GanganOnline => match crate::html::document_first_html(
                body@,
                gangan_online::next_data_selector(),
            ) {
                Some(text) => StepView::Ask(
                    ProgressView::Decoding { html: body@ },
                    RequestView::Decode { shape: Shape::GanganOnline, text },
                ),
                None => StepView::Done(Err(page_missing("__NEXT_DATA__ not found"@))),
            },
            MangaSource::MangaUp => if body@.len() == 0 && 0 <= retries <= manga_up::MAX_RETRY {
                StepView::Ask(
                    ProgressView::Page { retries: retries + 1 },
                    RequestView::Page {
                        url: self.spec_address(manga_id),
                        wait_millis: manga_up::RETRY_DELAY_MILLIS as int,
                    },
                )
            } else {
                match manga_up::spec_json_to_decode(manga_up::spec_extract(body@)) {
                    Ok(text) => StepView::Ask(
                        ProgressView::Decoding { html: body@ },
                        RequestView::Decode { shape: Shape::MangaUp, text },
                    ),
                    Err(error) => StepView::Done(Err(error)),
                }
            },
            MangaSource::ComicPixiv | MangaSource::ComicWalker => misfit(),
            _ => match self.spec_strategy() {
                Strategy::CdataFeed => StepView::Ask(
                    ProgressView::Decoding { html: body@ },
                    RequestView::Decode {
                        shape: Shape::CdataRss,
                        text: cdata_rss::spec_strip_cdata(body@),
                    },
                ),
                _ => StepView::Ask(
                    ProgressView::Decoding { html: body@ },
                    RequestView::Decode { shape: Shape::Rss, text: body@ },
                ),
            },
        }
    }

    /// The step after decoding a text taken from `html` gave `decoded`: what
    /// the text held, or the words of the decoder.
    pub open spec fn spec_after_decoding(
        self,
        html: String,
        decoded: Result<Decoded, String>,
        now: TimeView,
    ) -> StepView {
        match (self, decoded) {
            (MangaSource::ComicFuz, Ok(Decoded::ComicFuz(data))) => self.spec_finish(
                comic_fuz::spec_parse(html@, Ok(data), now),
            ),
            (MangaSource::ComicFuz, Err(words)) => self.spec_finish(
                comic_fuz::spec_parse(html@, Err(words), now),
            ),
            (MangaSource::GanganOnline, Ok(Decoded::GanganOnline(data))) => self.spec_finish(
                gangan_online::spec_parse(html@, Ok(data), now),
            ),
            (MangaSource::GanganOnline, Err(words)) => self.spec_finish(
                gangan_online::spec_parse(html@, Err(words), now),
            ),
            (MangaSource::MangaUp, Ok(Decoded::MangaUp(data))) => self.spec_finish(
                manga_up::spec_parse(html@, Ok(data), now),
            ),
            (MangaSource::MangaUp, Err(words)) => self.spec_finish(
                manga_up::spec_parse(html@, Err(words), now),
            ),
            (_, Ok(Decoded::Rss(feed))) => if self.spec_strategy() == Strategy::Feed {
                self.spec_finish(rss_manga::spec_from_rss_xml(Ok(feed)))
            } else {
                misfit()
            },
            (_, Ok(Decoded::CdataRss(feed))) => if self.spec_strategy() == Strategy::CdataFeed {
                self.spec_finish(cdata_rss::spec_parse(Ok(feed)))
            } else {
                misfit()
            },
            (_, Err(words)) => if self.spec_strategy() == Strategy::Feed
                || self.spec_strategy() == Strategy::CdataFeed {
                StepView::Done(Err(FetchErrorView::XmlDeserializeError(Some(words@))))
            } else {
                misfit()
            },
            _ => misfit(),
        }
    }

    /// The step after an answer of an interface held nothing of its shape:
    /// the fetch ends with the words of the decoder as a decoding error.
    pub open spec fn spec_after_undecoded(self, words: Seq<char>) -> StepView {
        match self {
            MangaSource::ComicPixiv | MangaSource::ComicWalker => StepView::Done(
                Err(FetchErrorView::JsonDeserializeError(words)),
            ),
            _ => misfit(),
        }
    }

    /// The step of a fetch of the series `manga_id` that follows the answer
    /// `answer`, where the fetch had come as far as `progress`.
    ///
    /// A failed request ends the fetch with its error, and so does an answer
    /// that is none to the request made. Otherwise the answer goes to the
    /// adapter of the source and to no other, and the fetch ends with what
    /// the adapter makes of it, or asks for what the adapter needs next.
    pub open spec fn spec_fetch(
        self,
        manga_id: Seq<char>,
        progress: Progress,
        answer: Answer,
        now: TimeView,
    ) -> StepView {
        match (progress, answer) {
            (_, Answer::Failed(error)) => StepView::Done(Err(error@)),
            (Progress::Page { retries }, Answer::Text(body)) => self.spec_after_page(
                manga_id,
                retries as int,
                body,
                now,
            ),
            (Progress::ChapterPage, Answer::Text(body)) => match self {
                MangaSource::MechaComic => self.spec_finish(mecha_comic::spec_parse(body@, now)),
                _ => misfit(),
            },
            (Progress::Decoding { html }, Answer::Decoded(decoded)) => self.spec_after_decoding(
                html,
                Ok(decoded),
                now,
            ),
            (Progress::Decoding { html }, Answer::Undecoded(words)) => self.spec_after_decoding(
                html,
                Err(words),
                now,
            ),
            (Progress::Interface, Answer::Decoded(Decoded::PixivMetadata(metadata))) => match self {
                MangaSource::ComicPixiv => StepView::Ask(
                    ProgressView::Episodes { metadata },
                    RequestView::Json {
                        url: "https://comic.pixiv.net/api/app/works/"@ + manga_id
                            + "/episodes/v2?order=desc"@,
                        header: Some((PIXIV_HEADER@, PIXIV_CLIENT@)),
                        shape: Shape::PixivEpisodes,
                    },
                ),
                _ => misfit(),
            },
            (Progress::Interface, Answer::Decoded(Decoded::ComicWalker(data))) => match self {
                MangaSource::ComicWalker => self.spec_finish(
                    comic_walker::spec_manga(data, manga_id),
                ),
                _ => misfit(),
            },
            (Progress::Episodes { metadata }, Answer::Decoded(Decoded::PixivEpisodes(details))) =>
                match self {
                MangaSource::ComicPixiv => self.spec_finish(
                    comic_pixiv::spec_manga(metadata, details),
                ),
                _ => misfit(),
            },
            (Progress::Interface, Answer::Undecoded(words)) => self.spec_after_undecoded(words@),
            (Progress::Episodes { metadata }, Answer::Undecoded(words)) =>
                self.spec_after_undecoded(words@),
            _ => misfit(),
        }
    }
}


/// The step that ends a fetch on an answer that is none to the request made.
fn misfit_step() -> (step: Step)
    ensures
        step@ == misfit(),
{
    Step::Done(Err(FetchError::page_not_found(MISFIT)))
}

/// The header that Comic Pixiv asks for.
fn pixiv_header() -> (header: Option<Header>)
    ensures
        header matches Some(h) && h.name@ == PIXIV_HEADER@ && h.value@ == PIXIV_CLIENT@,
{
    Some(Header { name: PIXIV_HEADER.to_owned(), value: PIXIV_CLIENT.to_owned() })
}

impl MangaSource {
    /// How the source is read.
    pub fn strategy(&self) -> (strategy: Strategy)
        ensures
            strategy == self.spec_strategy(),
    {
        match self {
            MangaSource::ShounenJumpPlus
            | MangaSource::ComicEarthStar
            | MangaSource::KurageBunch
            | MangaSource::ComicDays
            | MangaSource::MagazinePocket
            | MangaSource::TonariYoungJump
            | MangaSource::SundayWebry
            | MangaSource::ComicAction
            | MangaSource::ComicGardo
            | MangaSource::IchijinPlus => Strategy::Feed,
            MangaSource::ComicGrowl
            | MangaSource::ChampionCross
            | MangaSource::YoungAnimal
            | MangaSource::YoungChampion => Strategy::CdataFeed,
            MangaSource::Yanmaga
            | MangaSource::GammaPlus
            | MangaSource::GANMA
            | MangaSource::MechaComic => Strategy::Page,
            MangaSource::Urasunday => Strategy::RenderedPage,
            MangaSource::ComicFuz | MangaSource::GanganOnline | MangaSource::MangaUp =>
                Strategy::PageWithData,
            MangaSource::ComicPixiv | MangaSource::ComicWalker => Strategy::Interface,
        }
    }

    /// What stands before the identifier of a series in the address that a
    /// fetch asks for first.
    pub fn address_head(&self) -> (head: &'static str)
        ensures
            head@ == self.spec_address_head(),
    {
        match self {
            MangaSource::Yanmaga => "https://yanmaga.jp/comics/",
            MangaSource::ShounenJumpPlus => "https://shonenjumpplus.com/rss/series/",
            MangaSource::ComicEarthStar => "https://comic-earthstar.com/rss/series/",
            MangaSource::KurageBunch => "https://kuragebunch.com/rss/series/",
            MangaSource::ComicGrowl => "https://comic-growl.com/series/",
            MangaSource::ComicDays => "https://comic-days.com/rss/series/",
            MangaSource::MagazinePocket => "https://mgpk-cdn.magazinepocket.com/static/rss/",
            MangaSource::ComicPixiv => "https://comic.pixiv.net/api/app/works/v5/",
            MangaSource::Urasunday => "https://urasunday.com/title/",
            MangaSource::ComicWalker =>
                "https://comic-walker.com/api/contents/details/work?workCode=",
            MangaSource::TonariYoungJump => "https://tonarinoyj.jp/rss/series/",
            MangaSource::MangaUp => "https://www.manga-up.com/titles/",
            MangaSource::SundayWebry => "https://www.sunday-webry.com/rss/series/",
            MangaSource::ComicFuz => "https://comic-fuz.com/manga/",
            MangaSource::GanganOnline => "https://www.ganganonline.com/title/",
            MangaSource::GammaPlus => "https://gammaplus.takeshobo.co.jp/manga/",
            MangaSource::ChampionCross => "https://championcross.jp/series/",
            MangaSource::GANMA => "https://ganma.jp/web/magazine/",
            MangaSource::YoungAnimal => "https://younganimal.com/series/",
            MangaSource::MechaComic => "https://mechacomic.jp/books/",
            MangaSource::YoungChampion => "https://youngchampion.jp/series/",
            MangaSource::IchijinPlus => "https://ichicomi.com/rss/series/",
            MangaSource::ComicAction => "https://comic-action.com/rss/series/",
            MangaSource::ComicGardo => "https://comic-gardo.com/rss/series/",
        }
    }

    /// What stands behind the identifier of a series in that address.
    pub fn address_tail(&self) -> (tail: &'static str)
        ensures
            tail@ == self.spec_address_tail(),
    {
        match self {
            MangaSource::ComicGrowl
            | MangaSource::ChampionCross
            | MangaSource::YoungAnimal
            | MangaSource::YoungChampion => "/rss",
            MangaSource::MagazinePocket => "/feed.xml",
            MangaSource::Urasunday => "/chapter/1234",
            _ => "",
        }
    }

    /// The address that a fetch of the series `manga_id` asks for first.
    pub fn address(&self, manga_id: &str) -> (url: String)
        ensures
            url@ == self.spec_address(manga_id@),
    {
        concat3(self.address_head(), manga_id, self.address_tail())
    }

    /// The first step of a fetch of the series `manga_id`: the request that
    /// the source, and nothing but the source, calls for.
    pub fn begin(&self, manga_id: &str) -> (step: Step)
        ensures
            step@ == self.spec_begin(manga_id@),
            step is Ask,
    {
        let url = self.address(manga_id);
        match self {
            MangaSource::Urasunday => Step::Ask(
                Progress::Page { retries: 0 },
                Request::Rendered { url },
            ),
            MangaSource::ComicPixiv => Step::Ask(
                Progress::Interface,
                Request::Json { url, header: pixiv_header(), shape: Shape::PixivMetadata },
            ),
            MangaSource::ComicWalker => Step::Ask(
                Progress::Interface,
                Request::Json { url, header: None, shape: Shape::ComicWalker },
            ),
            _ => Step::Ask(Progress::Page { retries: 0 }, Request::Page { url, wait_millis: 0 }),
        }
    }

    /// What a fetch ends with, given what the adapter of the source made of
    /// the answers.
    fn finish(&self, fetched: Result<Manga, FetchError>) -> (step: Step)
        requires
            fetched matches Ok(manga) ==> manga@.consistent(),
        ensures
            step@ == self.spec_finish(fetched_view(fetched)),
            step matches Step::Done(Ok(manga)) ==> manga@.consistent(),
            step is Done,
    {
        match fetched {
            Ok(manga) => Step::Done(Ok(self.postprocess(manga))),
            Err(error) => Step::Done(Err(error)),
        }
    }

    /// The step after the text `body` of the page or feed of the series
    /// came.
    fn after_page(&self, manga_id: &str, retries: u32, body: String, now: ZonedTime) -> (step: Step)
        ensures
            step@ == self.spec_after_page(manga_id@, retries as int, body, now@),
            step matches Step::Ask(next, _) ==> requests_left(next@) < requests_left(
                ProgressView::Page { retries: retries as int },
            ),
            step matches Step::Done(Ok(manga)) ==> manga@.consistent(),
    {
        match self {
            MangaSource::Yanmaga => self.finish(yanmaga::parse_yanmaga_from_html(body)),
            MangaSource::GammaPlus => self.finish(
                gamma_plus::parse_gamma_plus_from_html(body, now),
            ),
            MangaSource::GANMA => self.finish(ganma::parse_ganma_from_html(body, now)),
            MangaSource::Urasunday => self.finish(
                urasunday::parse_urasunday_from_html(body, manga_id, now),
            ),
            MangaSource::MechaComic => match mecha_comic::find_latest_chapter_number(body) {
                Ok(number) => {
                    let url = concat3(
                        self.address(manga_id).as_str(),
                        "?chapter_number=",
                        crate::text::decimal_of(number as i64).as_str(),
                    );
                    Step::Ask(Progress::ChapterPage, Request::Page { url, wait_millis: 0 })
                },
                Err(error) => Step::Done(Err(error)),
            },
            MangaSource::ComicFuz => match comic_fuz::next_data(body.as_str()) {
                Some(text) => Step::Ask(
                    Progress::Decoding { html: body },
                    Request::Decode { shape: Shape::ComicFuz, text },
                ),
                None => Step::Done(Err(FetchError::page_not_found("__NEXT_DATA__ not found"))),
            },
            MangaSource::GanganOnline => match gangan_online::next_data(body.as_str()) {
                Some(text) => Step::Ask(
                    Progress::Decoding { html: body },
                    Request::Decode { shape: Shape::GanganOnline, text },
                ),
                None => Step::Done(Err(FetchError::page_not_found("__NEXT_DATA__ not found"))),
            },
            MangaSource::MangaUp => {
                if manga_up::retry(body.as_str(), retries) {
                    Step::Ask(
                        Progress::Page { retries: retries + 1 },
                        Request::Page {
                            url: self.address(manga_id),
                            wait_millis: manga_up::RETRY_DELAY_MILLIS,
                        },
                    )
                } else {
                    let page = manga_up::extract(body.as_str());
                    match manga_up::json_to_decode(&page) {
                        Ok(text) => Step::Ask(
                            Progress::Decoding { html: body },
                            Request::Decode { shape: Shape::MangaUp, text },
                        ),
                        Err(error) => Step::Done(Err(error)),
                    }
                }
            },
            MangaSource::ComicPixiv | MangaSource::ComicWalker => misfit_step(),
            _ => match self.strategy() {
                Strategy::CdataFeed => {
                    let text = cdata_rss::strip_cdata(body.as_str());
                    Step::Ask(
                        Progress::Decoding { html: body },
                        Request::Decode { shape: Shape::CdataRss, text },
                    )
                },
                _ => {
                    let text = body.clone();
                    Step::Ask(
                        Progress::Decoding { html: body },
                        Request::Decode { shape: Shape::Rss, text },
                    )
                },
            },
        }
    }

    /// The step after decoding a text taken from `html` gave `decoded`.
    fn after_decoding(
        &self,
        html: String,
        decoded: Result<Decoded, String>,
        now: ZonedTime,
    ) -> (step: Step)
        ensures
            step@ == self.spec_after_decoding(html, decoded, now@),
            step is Done,
            step matches Step::Done(Ok(manga)) ==> manga@.consistent(),
    {
        match (self, decoded) {
            (MangaSource::ComicFuz, Ok(Decoded::ComicFuz(data))) => self.finish(
                comic_fuz::parse_comic_fuz_from_html(html, Ok(data), now),
            ),
            (MangaSource::ComicFuz, Err(words)) => self.finish(
                comic_fuz::parse_comic_fuz_from_html(html, Err(words), now),
            ),
            (MangaSource::GanganOnline, Ok(Decoded::GanganOnline(data))) => self.finish(
                gangan_online::parse_gangan_online_from_html(html, Ok(data), now),
            ),
            (MangaSource::GanganOnline, Err(words)) => self.finish(
                gangan_online::parse_gangan_online_from_html(html, Err(words), now),
            ),
            (MangaSource::MangaUp, Ok(Decoded::MangaUp(data))) => self.finish(
                manga_up::parse_manga_up_from_html(html, Ok(data), now),
            ),
            (MangaSource::MangaUp, Err(words)) => self.finish(
                manga_up::parse_manga_up_from_html(html, Err(words), now),
            ),
            (_, Ok(Decoded::Rss(feed))) => {
                if self.strategy() == Strategy::Feed {
                    self.finish(rss_manga::from_rss_xml(Ok(feed)))
                } else {
                    misfit_step()
                }
            },
            (_, Ok(Decoded::CdataRss(feed))) => {
                if self.strategy() == Strategy::CdataFeed {
                    self.finish(cdata_rss::parse_cdata_xml(Ok(feed)))
                } else {
                    misfit_step()
                }
            },
            (_, Err(words)) => {
                if self.strategy() == Strategy::Feed || self.strategy() == Strategy::CdataFeed {
                    Step::Done(Err(FetchError::XmlDeserializeError(Some(words))))
                } else {
                    misfit_step()
                }
            },
            _ => misfit_step(),
        }
    }

    /// The step after an answer of an interface held nothing of its shape.
    fn after_undecoded(&self, words: String) -> (step: Step)
        ensures
            step@ == self.spec_after_undecoded(words@),
            step is Done,
            step matches Step::Done(fetched) ==> fetched is Err,
    {
        match self {
            MangaSource::ComicPixiv | MangaSource::ComicWalker => Step::Done(
                Err(FetchError::JsonDeserializeError(words)),
            ),
            _ => misfit_step(),
        }
    }

    /// The step of a fetch of the series `manga_id` that follows the answer
    /// `answer`, where the fetch had come as far as `progress`.
    ///
    /// Every request that it asks for brings the fetch nearer to its end,
    /// and every record that it ends with has the publish day of its release
    /// date.
    pub fn fetch(
        &self,
        manga_id: &str,
        progress: Progress,
        answer: Answer,
        now: ZonedTime,
    ) -> (step: Step)
        ensures
            step@ == self.spec_fetch(manga_id@, progress, answer, now@),
            step matches Step::Ask(next, _) ==> requests_left(next@) < requests_left(progress@),
            step matches Step::Done(Ok(manga)) ==> manga@.consistent(),
    {
        match (progress, answer) {
            (_, Answer::Failed(error)) => Step::Done(Err(error)),
            (Progress::Page { retries }, Answer::Text(body)) => self.after_page(
                manga_id,
                retries,
                body,
                now,
            ),
            (Progress::ChapterPage, Answer::Text(body)) => match self {
                MangaSource::MechaComic => self.finish(
                    mecha_comic::parse_mecha_comic_from_html(body, now),
                ),
                _ => misfit_step(),
            },
            (Progress::Decoding { html }, Answer::Decoded(decoded)) => self.after_decoding(
                html,
                Ok(decoded),
                now,
            ),
            (Progress::Decoding { html }, Answer::Undecoded(words)) => self.after_decoding(
                html,
                Err(words),
                now,
            ),
            (Progress::Interface, Answer::Decoded(Decoded::PixivMetadata(metadata))) => match self {
                MangaSource::ComicPixiv => Step::Ask(
                    Progress::Episodes { metadata },
                    Request::Json {
                        url: comic_pixiv::episodes_url(manga_id),
                        header: pixiv_header(),
                        shape: Shape::PixivEpisodes,
                    },
                ),
                _ => misfit_step(),
            },
            (Progress::Interface, Answer::Decoded(Decoded::ComicWalker(data))) => match self {
                MangaSource::ComicWalker => self.finish(
                    comic_walker::fetch_comic_walker_data(data, manga_id),
                ),
                _ => misfit_step(),
            },
            (Progress::Episodes { metadata }, Answer::Decoded(Decoded::PixivEpisodes(details))) =>
                match self {
                MangaSource::ComicPixiv => self.finish(
                    comic_pixiv::fetch_pixiv_data(metadata, details),
                ),
                _ => misfit_step(),
            },
            (Progress::Interface, Answer::Undecoded(words)) => self.after_undecoded(words),
            (Progress::Episodes { metadata }, Answer::Undecoded(words)) => self.after_undecoded(
                words,
            ),
            _ => misfit_step(),
        }
    }
}


/// A fetch is over after a bounded number of requests: its first step leaves
/// no more requests to come than the retries of a page and three on top, and
/// every further step leaves fewer.
pub proof fn lemma_requests_bounded(source: MangaSource, manga_id: Seq<char>)
    ensures
        source.spec_begin(manga_id) matches StepView::Ask(progress, _) && requests_left(progress)
            <= manga_up::MAX_RETRY + 3,
{
}

} // verus!
