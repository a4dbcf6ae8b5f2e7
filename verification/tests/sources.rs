use manga_tracker::fetch::FetchError;
use manga_tracker::time::{Weekday, ZonedTime};
use manga_tracker::types::{Manga, MangaQuery, MangaSource, Paginated};

#[test]
fn sources_have_their_names() {
    assert_eq!(MangaSource::Yanmaga.to_string(), "YanMaga");
    assert_eq!(MangaSource::ShounenJumpPlus.to_string(), "Shounen Jump Plus");
    assert_eq!(MangaSource::ComicDays.name(), "Comic Days");
    assert_eq!(MangaSource::GANMA.name(), "GANMA");
    assert_eq!(MangaSource::IchijinPlus.name(), "Ichijin Plus");
    assert_eq!(MangaSource::ChampionCross.name(), "Champion Cross");
}

#[test]
fn every_source_is_found_by_its_name() {
    let all = MangaSource::all();
    assert_eq!(all.len(), 24);
    assert_eq!(all[0], MangaSource::Yanmaga);
    assert_eq!(all[22], MangaSource::ComicAction);
    for source in all {
        assert_eq!(MangaSource::parse(source.name()), Some(source));
    }
}

#[test]
fn names_are_told_apart_exactly() {
    assert_eq!(MangaSource::parse("Comic Days"), Some(MangaSource::ComicDays));
    assert_eq!(MangaSource::parse("comic days"), None);
    assert_eq!(MangaSource::parse("ComicDays"), None);
    assert_eq!(MangaSource::parse(""), None);
}

#[test]
fn banners_belong_to_the_sources_that_wrap_titles() {
    let with_banner = MangaSource::all().into_iter().filter(|s| s.banner().is_some()).count();
    assert_eq!(with_banner, 10);
    assert_eq!(MangaSource::ComicDays.banner(), Some("コミックDAYS"));
    assert_eq!(MangaSource::Yanmaga.banner(), None);
    assert_eq!(MangaSource::ComicGrowl.banner(), None);
}

#[test]
fn cleanup_round_trip_for_every_source_with_a_banner() {
    for source in MangaSource::all() {
        let title = " Foo (new) 題 ";
        match source.banner() {
            Some(banner) => {
                let wrapped = format!("{banner}（{title}）");
                assert_eq!(source.cleanup_title(&wrapped), title);
                let other = format!("{banner}[{banner}]");
                assert_eq!(source.cleanup_title(&other), banner);
            }
            None => assert_eq!(source.cleanup_title(title), title),
        }
    }
}

#[test]
fn cleanup_strips_one_occurrence_and_one_character_at_either_end() {
    let source = MangaSource::ComicDays;
    assert_eq!(source.cleanup_title("コミックDAYS"), "");
    assert_eq!(source.cleanup_title("コミックDAYSx"), "");
    assert_eq!(source.cleanup_title("コミックDAYSxy"), "");
    assert_eq!(source.cleanup_title("コミックDAYSxyz"), "y");
    assert_eq!(source.cleanup_title("  (Foo) コミックDAYS "), "Foo");
    assert_eq!(source.cleanup_title("(Foo)"), "Foo");
    assert_eq!(source.cleanup_title(""), "");
    assert_eq!(source.cleanup_title("コミックDAYS（コミックDAYS）"), "コミックDAYS");
}

#[test]
fn only_magazine_pocket_replaces_the_host() {
    let url = "https://mgpk-web.magazinepocket.com/title/1/episode/2";
    assert_eq!(
        MangaSource::MagazinePocket.replace_episode_url(url),
        "https://pocket.shonenmagazine.com/title/1/episode/2"
    );
    assert_eq!(MangaSource::ComicDays.replace_episode_url(url), url);
    assert_eq!(MangaSource::MagazinePocket.replace_episode_url("https://x/y"), "https://x/y");
}

#[test]
fn postprocess_cleans_title_and_address_only() {
    let released = ZonedTime::in_japan(1_714_921_200_000).unwrap();
    let manga = Manga::released_at(
        "マガポケ（Foo）".to_string(),
        "cover".to_string(),
        "author".to_string(),
        "chapter".to_string(),
        "https://mgpk-web.magazinepocket.com/e/1".to_string(),
        released,
    );
    assert_eq!(manga.latest_chapter_publish_day, Weekday::Mon);
    let kept = MangaSource::MagazinePocket.postprocess(manga.duplicate());
    assert_eq!(kept.title, "Foo");
    assert_eq!(kept.latest_chapter_url, "https://pocket.shonenmagazine.com/e/1");
    assert_eq!(kept.cover_url, manga.cover_url);
    assert_eq!(kept.author, manga.author);
    assert_eq!(kept.latest_chapter_title, manga.latest_chapter_title);
    assert_eq!(kept.latest_chapter_release_date, released);
    assert_eq!(kept.latest_chapter_publish_day, Weekday::Mon);
    assert_eq!(MangaSource::Yanmaga.postprocess(manga.duplicate()), manga);
}

#[test]
fn errors_have_their_messages() {
    assert_eq!(FetchError::ReqwestError("timeout".into()).message(), "timeout");
    assert_eq!(FetchError::JsonDeserializeError("eof".into()).message(), "eof");
    assert_eq!(FetchError::XmlDeserializeError(Some("bad".into())).message(), "bad");
    assert_eq!(FetchError::XmlDeserializeError(None).message(), "Error on deserializing xml");
    assert_eq!(FetchError::ChapterNotFound(Some("none".into())).message(), "none");
    assert_eq!(FetchError::ChapterNotFound(None).message(), "Chapter Not Found");
    assert_eq!(FetchError::PageNotFound(Some("404".into())).message(), "404");
    assert_eq!(FetchError::PageNotFound(None).message(), "Page Not Found");
    assert_eq!(FetchError::WebDriverSessionError("no session".into()).message(), "no session");
    assert_eq!(FetchError::WebDriverCmdError("no command".into()).message(), "no command");
    assert_eq!(
        FetchError::page_not_found("x"),
        FetchError::PageNotFound(Some("x".to_string()))
    );
    assert_eq!(
        FetchError::chapter_not_found("y"),
        FetchError::ChapterNotFound(Some("y".to_string()))
    );
}

#[test]
fn default_query_has_no_condition() {
    let query = MangaQuery::default();
    assert!(query.source.is_none());
    assert!(query.title.is_none());
    assert!(query.author.is_none());
    assert!(query.chapter_title.is_none());
    assert!(query.day.is_none());
    let page = Paginated { data: vec![1, 2], total_count: 22, total_page: 3 };
    assert_eq!(page.data.len(), 2);
    assert_eq!(page.total_count, 22);
    assert_eq!(page.total_page, 3);
}
