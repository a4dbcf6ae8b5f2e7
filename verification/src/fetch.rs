//! The errors of a fetch and the rules applied to every fetched record.

use crate::text::{
    chars_of, is_white_space, occurs_at, replace_all, replace_all_in, replace_first,
    replace_first_in, string_of, tail, text_view, trim, trim_end, trim_in, trim_start,
};
use crate::types::{Manga, MangaSource, MangaView};
use vstd::prelude::*;

pub mod steps;

verus! {

/// Why a fetch gave no record. The text carried is the diagnostic of the
/// failing step.
#[derive(Clone, Debug, PartialEq, Eq)]
pub enum FetchError {
    /// The request failed or was answered with an error status.
    ReqwestError(String),
    /// A JSON document could not be decoded.
    JsonDeserializeError(String),
    /// A feed could not be decoded.
    XmlDeserializeError(Option<String>),
    /// The feed, answer or page held no chapter.
    ChapterNotFound(Option<String>),
    /// The page of the series was not found or could not be read.
    PageNotFound(Option<String>),
    /// No browser session could be opened.
    WebDriverSessionError(String),
    /// The browser session failed a command.
    WebDriverCmdError(String),
}

/// A `FetchError` with its texts as sequences of characters.
pub enum FetchErrorView {
    ReqwestError(Seq<char>),
    JsonDeserializeError(Seq<char>),
    XmlDeserializeError(Option<Seq<char>>),
    ChapterNotFound(Option<Seq<char>>),
    PageNotFound(Option<Seq<char>>),
    WebDriverSessionError(Seq<char>),
    WebDriverCmdError(Seq<char>),
}

impl View for FetchError {
    type V = FetchErrorView;

    open spec fn view(&self) -> FetchErrorView {
        match *self {
            FetchError::ReqwestError(t) => FetchErrorView::ReqwestError(t@),
            FetchError::JsonDeserializeError(t) => FetchErrorView::JsonDeserializeError(t@),
            FetchError::XmlDeserializeError(t) => FetchErrorView::XmlDeserializeError(text_view(t)),
            FetchError::ChapterNotFound(t) => FetchErrorView::ChapterNotFound(text_view(t)),
            FetchError::PageNotFound(t) => FetchErrorView::PageNotFound(text_view(t)),
            FetchError::WebDriverSessionError(t) => FetchErrorView::WebDriverSessionError(t@),
            FetchError::WebDriverCmdError(t) => FetchErrorView::WebDriverCmdError(t@),
        }
    }
}

/// What a fetch gives, with its texts as sequences of characters.
pub type FetchedView = Result<MangaView, FetchErrorView>;

/// The view of what a fetch gave.
pub open spec fn fetched_view(fetched: Result<Manga, FetchError>) -> FetchedView {
    match fetched {
        Ok(manga) => Ok(manga@),
        Err(error) => Err(error@),
    }
}

/// "Page not found" with the reason `reason`.
pub open spec fn page_missing(reason: Seq<char>) -> FetchErrorView {
    FetchErrorView::PageNotFound(Some(reason))
}

/// "Chapter not found" with the reason `reason`.
pub open spec fn chapter_missing(reason: Seq<char>) -> FetchErrorView {
    FetchErrorView::ChapterNotFound(Some(reason))
}

impl FetchError {
    /// "Page not found" with the reason `reason`.
    pub fn page_not_found(reason: &str) -> (error: FetchError)
        ensures
            error@ == page_missing(reason@),
    {
        FetchError::PageNotFound(Some(reason.to_owned()))
    }

    /// "Chapter not found" with the reason `reason`.
    pub fn chapter_not_found(reason: &str) -> (error: FetchError)
        ensures
            error@ == chapter_missing(reason@),
    {
        FetchError::ChapterNotFound(Some(reason.to_owned()))
    }

    /// The text shown for the error: the diagnostic it carries, or the name
    /// of its kind where it carries none.
    pub open spec fn spec_message(error: FetchErrorView) -> Seq<char> {
        match error {
            FetchErrorView::ReqwestError(t) => t,
            FetchErrorView::JsonDeserializeError(t) => t,
            FetchErrorView::XmlDeserializeError(Some(t)) => t,
            FetchErrorView::XmlDeserializeError(None) => "Error on deserializing xml"@,
            FetchErrorView::ChapterNotFound(Some(t)) => t,
            FetchErrorView::ChapterNotFound(None) => "Chapter Not Found"@,
            FetchErrorView::PageNotFound(Some(t)) => t,
            FetchErrorView::PageNotFound(None) => "Page Not Found"@,
            FetchErrorView::WebDriverSessionError(t) => t,
            FetchErrorView::WebDriverCmdError(t) => t,
        }
    }

    /// The text shown for the error.
    pub fn message(self) -> (text: String)
        ensures
            text@ == FetchError::spec_message(self@),
    {
        match self {
            FetchError::ReqwestError(t) => t,
            FetchError::JsonDeserializeError(t) => t,
            FetchError::XmlDeserializeError(Some(t)) => t,
            FetchError::XmlDeserializeError(None) => "Error on deserializing xml".to_owned(),
            FetchError::ChapterNotFound(Some(t)) => t,
            FetchError::ChapterNotFound(None) => "Chapter Not Found".to_owned(),
            FetchError::PageNotFound(Some(t)) => t,
            FetchError::PageNotFound(None) => "Page Not Found".to_owned(),
            FetchError::WebDriverSessionError(t) => t,
            FetchError::WebDriverCmdError(t) => t,
        }
    }
}

/// `s` without its last character and then without its first, as far as it
/// has them.
pub open spec fn strip_ends(s: Seq<char>) -> Seq<char> {
    let popped = if s.len() > 0 {
        s.drop_last()
    } else {
        s
    };
    if popped.len() > 0 {
        popped.drop_first()
    } else {
        popped
    }
}

impl MangaSource {
    /// The banner that the source puts before a title, for the sources that
    /// put one. These sources wrap the title itself in a pair of brackets.
    pub open spec fn spec_banner(self) -> Option<Seq<char>> {
        match self {
            MangaSource::ShounenJumpPlus => Some("少年ジャンプ＋"@),
            MangaSource::ComicEarthStar => Some(
                "コミック アース・スター｜毎週木曜・最新話更新！無料で漫画が読めるWEBコミック誌"@,
            ),
            MangaSource::KurageBunch => Some("くらげバンチ"@),
            MangaSource::ComicDays => Some("コミックDAYS"@),
            MangaSource::MagazinePocket => Some("マガポケ"@),
            MangaSource::TonariYoungJump => Some("となりのヤングジャンプ"@),
            MangaSource::SundayWebry => Some("サンデーうぇぶり"@),
            MangaSource::ComicAction => Some("webアクション｜双葉社発のマンガサイト"@),
            MangaSource::IchijinPlus => Some("一迅プラス"@),
            MangaSource::ComicGardo => Some("コミックガルド"@),
            _ => None,
        }
    }

    /// The title as it is kept: for a source with a banner, the title
    /// without the first occurrence of the banner, without the white space
    /// around what is left, and without one character at either end of that;
    /// for any other source, the title as it came.
    pub open spec fn spec_cleanup_title(self, title: Seq<char>) -> Seq<char> {
        match self.spec_banner() {
            Some(banner) => strip_ends(trim(replace_first(title, banner, Seq::empty()))),
            None => title,
        }
    }

    /// The address of a chapter as it is kept: for Magazine Pocket the host
    /// of the reader is replaced by the host that answers.
    pub open spec fn spec_replace_episode_url(self, url: Seq<char>) -> Seq<char> {
        match self {
            MangaSource::MagazinePocket => replace_all(
                url,
                "mgpk-web.magazinepocket.com"@,
                "pocket.shonenmagazine.com"@,
            ),
            _ => url,
        }
    }

    /// The record as it is kept: title and chapter address by the rules of
    /// the source, everything else as it came.
    pub open spec fn spec_postprocess(self, manga: MangaView) -> MangaView {
        MangaView {
            title: self.spec_cleanup_title(manga.title),
            latest_chapter_url: self.spec_replace_episode_url(manga.latest_chapter_url),
            ..manga
        }
    }

    /// The banner that the source puts before a title.
    pub fn banner(&self) -> (banner: Option<&'static str>)
        ensures
            banner matches Some(b) ==> self.spec_banner() == Some(b@),
            banner is None ==> self.spec_banner() is None,
    {
        match self {
            MangaSource::ShounenJumpPlus => Some("少年ジャンプ＋"),
            MangaSource::ComicEarthStar => Some(
                "コミック アース・スター｜毎週木曜・最新話更新！無料で漫画が読めるWEBコミック誌",
            ),
            MangaSource::KurageBunch => Some("くらげバンチ"),
            MangaSource::ComicDays => Some("コミックDAYS"),
            MangaSource::MagazinePocket => Some("マガポケ"),
            MangaSource::TonariYoungJump => Some("となりのヤングジャンプ"),
            MangaSource::SundayWebry => Some("サンデーうぇぶり"),
            MangaSource::ComicAction => Some("webアクション｜双葉社発のマンガサイト"),
            MangaSource::IchijinPlus => Some("一迅プラス"),
            MangaSource::ComicGardo => Some("コミックガルド"),
            _ => None,
        }
    }

    /// The title as it is kept.
    pub fn cleanup_title(&self, title: &str) -> (cleaned: String)
        ensures
            cleaned@ == self.spec_cleanup_title(title@),
    {
        match self.banner() {
            Some(banner) => {
                let without = replace_first_in(title, banner, "");
                let trimmed = chars_of(trim_in(without.as_str()).as_str());
                let n = trimmed.len();
                proof {
                    assert(""@ =~= Seq::<char>::empty()) by {
                        reveal_strlit("");
                    }
                }
                if n >= 2 {
                    assert(trimmed@.drop_last().drop_first() =~= trimmed@.subrange(1, n - 1));
                    string_of(&trimmed, 1, n - 1)
                } else {
                    assert(strip_ends(trimmed@) =~= Seq::<char>::empty());
                    String::new()
                }
            },
            None => title.to_owned(),
        }
    }

    /// The address of a chapter as it is kept.
    pub fn replace_episode_url(&self, url: &str) -> (replaced: String)
        ensures
            replaced@ == self.spec_replace_episode_url(url@),
    {
        match self {
            MangaSource::MagazinePocket => replace_all_in(
                url,
                "mgpk-web.magazinepocket.com",
                "pocket.shonenmagazine.com",
            ),
            _ => url.to_owned(),
        }
    }

    /// The record as it is kept.
    pub fn postprocess(&self, manga: Manga) -> (kept: Manga)
        ensures
            kept@ == self.spec_postprocess(manga@),
            manga@.consistent() ==> kept@.consistent(),
    {
        let title = self.cleanup_title(manga.title.as_str());
        let latest_chapter_url = self.replace_episode_url(manga.latest_chapter_url.as_str());
        Manga {
            title,
            cover_url: manga.cover_url,
            author: manga.author,
            latest_chapter_title: manga.latest_chapter_title,
            latest_chapter_url,
            latest_chapter_release_date: manga.latest_chapter_release_date,
            latest_chapter_publish_day: manga.latest_chapter_publish_day,
        }
    }

    /// No banner is empty.
    pub proof fn lemma_banner_not_empty(self)
        ensures
            self.spec_banner() matches Some(b) ==> b.len() > 0,
    {
        reveal_strlit("少年ジャンプ＋");
        reveal_strlit("コミック アース・スター｜毎週木曜・最新話更新！無料で漫画が読めるWEBコミック誌");
        reveal_strlit("くらげバンチ");
        reveal_strlit("コミックDAYS");
        reveal_strlit("マガポケ");
        reveal_strlit("となりのヤングジャンプ");
        reveal_strlit("サンデーうぇぶり");
        reveal_strlit("webアクション｜双葉社発のマンガサイト");
        reveal_strlit("一迅プラス");
        reveal_strlit("コミックガルド");
    }

    /// For a source with a banner, cleaning the banner followed by a title
    /// in brackets gives the title: whatever the title holds, and whatever
    /// the two brackets are, as long as they are no white space.
    pub proof fn lemma_cleanup_round_trip(self, title: Seq<char>, open: char, close: char)
        requires
            self.spec_banner() is Some,
            !is_white_space(open),
            !is_white_space(close),
        ensures
            self.spec_cleanup_title(self.spec_banner()->0 + seq![open] + title + seq![close])
                == title,
    {
        let banner = self.spec_banner()->0;
        let wrapped = seq![open] + title + seq![close];
        let whole = banner + seq![open] + title + seq![close];
        self.lemma_banner_not_empty();
        assert(whole =~= banner + wrapped);
        assert(whole.subrange(0, 0 + banner.len() as int) =~= banner);
        assert(occurs_at(whole, banner, 0));
        assert(tail(whole, banner.len() as int) =~= wrapped);
        assert(replace_first(whole, banner, Seq::empty()) =~= wrapped);
        assert(wrapped[0] == open);
        assert(wrapped.last() == close);
        assert(trim_start(wrapped) == wrapped);
        assert(trim_end(wrapped) == wrapped);
        assert(wrapped.drop_last().drop_first() =~= title);
    }

    /// For a source without a banner, cleaning a title changes nothing.
    pub proof fn lemma_cleanup_without_banner(self, title: Seq<char>)
        requires
            self.spec_banner() is None,
        ensures
            self.spec_cleanup_title(title) == title,
    {
    }
}

} // verus!
