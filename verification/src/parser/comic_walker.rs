//! Comic Walker: one answer of its interface on a series and its latest
//! episodes.

use crate::fetch::{chapter_missing, fetched_view, FetchError, FetchedView};
use crate::text::{concat4, join, join_with};
use crate::time::{japan_time, ZonedTime};
use crate::types::{Manga, MangaView};
use vstd::prelude::*;

verus! {

/// The answer on a series.
#[derive(Debug, Clone, PartialEq)]
pub struct ComicWalkerData {
    pub work: Work,
    pub latest_episodes: LatestEpisodes,
    pub latest_episode_id: String,
}

#[derive(Default, Debug, Clone, PartialEq)]
pub struct Work {
    pub code: String,
    pub id: String,
    pub thumbnail: String,
    pub original_thumbnail: String,
    pub book_cover: Option<String>,
    pub title: String,
    pub language: String,
    pub serialization_status: String,
    pub summary: String,
    pub authors: Vec<Author>,
}

#[derive(Default, Debug, Clone, PartialEq)]
pub struct Author {
    pub id: String,
    pub name: String,
    pub role: String,
}

/// The latest episodes, the latest first.
#[derive(Debug, Clone, PartialEq)]
pub struct LatestEpisodes {
    pub total: i64,
    pub result: Vec<EpisodeResult>,
}

#[derive(Debug, Clone, PartialEq)]
pub struct EpisodeResult {
    pub id: String,
    pub code: String,
    pub title: String,
    pub sub_title: String,
    pub thumbnail: Option<String>,
    pub original_thumbnail: Option<String>,
    pub update_date: ZonedTime,
    pub delivery_period: String,
    pub is_new: bool,
    pub has_read: bool,
    pub service_id: String,
    pub internal: Internal,
    pub type_field: String,
    pub is_active: bool,
}

#[derive(Default, Debug, Clone, PartialEq)]
pub struct Internal {
    pub episode_no: i64,
    pub page_count: i64,
    pub episodetype: String,
}

/// The names of the authors, in their order.
pub open spec fn author_names(authors: Seq<Author>) -> Seq<Seq<char>> {
    Seq::new(authors.len(), |i: int| authors[i].name@)
}

/// The cover of an episode: its own picture where it has one, else that of
/// the series.
pub open spec fn cover_of(episode: EpisodeResult, work: Work) -> Seq<char> {
    match episode.original_thumbnail {
        Some(own) => own@,
        None => work.original_thumbnail@,
    }
}

/// The record of the series `id`: that of its first episode, with the
/// release date shown in Japan; no chapter is found where it has no episode.
pub open spec fn spec_manga(data: ComicWalkerData, id: Seq<char>) -> FetchedView {
    if data.latest_episodes.result@.len() == 0 {
        Err(chapter_missing("episodes is empty"@))
    } else {
        let episode = data.latest_episodes.result@[0];
        let released = japan_time(episode.update_date@.millis);
        Ok(
            MangaView {
                title: data.work.title@,
                cover_url: cover_of(episode, data.work),
                author: join(author_names(data.work.authors@), ","@),
                latest_chapter_title: episode.title@,
                latest_chapter_url: "https://comic-walker.com/detail/"@ + id + "/episodes/"@
                    + episode.code@,
                latest_chapter_release_date: released,
                latest_chapter_publish_day: released.weekday(),
            },
        )
    }
}

/// The names of the authors, joined by commas.
fn authors_of(authors: &Vec<Author>) -> (names: String)
    ensures
        names@ == join(author_names(authors@), ","@),
{
    let mut names: Vec<String> = Vec::new();
    let mut i: usize = 0;
    while i < authors.len()
        invariant
            i <= authors.len(),
            names@.len() == i,
            forall|j: int| 0 <= j < i ==> names@[j]@ == authors@[j].name@,
        decreases authors.len() - i,
    {
        names.push(authors[i].name.clone());
        i = i + 1;
    }
    assert(Seq::new(names@.len(), |i: int| names@[i]@) =~= author_names(authors@));
    join_with(&names, ",")
}

/// The record of the series `id` that the answer describes.
pub fn fetch_comic_walker_data(data: ComicWalkerData, id: &str) -> (fetched: Result<
    Manga,
    FetchError,
>)
    ensures
        fetched_view(fetched) == spec_manga(data, id@),
        fetched matches Ok(manga) ==> manga@.consistent(),
{
    if data.latest_episodes.result.len() == 0 {
        return Err(FetchError::chapter_not_found("episodes is empty"));
    }
    let episode = &data.latest_episodes.result[0];
    let author = authors_of(&data.work.authors);
    let cover_url = match &episode.original_thumbnail {
        Some(own) => own.clone(),
        None => data.work.original_thumbnail.clone(),
    };
    Ok(
        Manga::released_at(
            data.work.title.clone(),
            cover_url,
            author,
            episode.title.clone(),
            concat4(
                "https://comic-walker.com/detail/",
                id,
                "/episodes/",
                episode.code.as_str(),
            ),
            episode.update_date.to_japan(),
        ),
    )
}

} // verus!
