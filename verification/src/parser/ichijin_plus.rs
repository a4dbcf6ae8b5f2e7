//! Ichijin Plus: two answers of its interface, one on the series and one on
//! its episodes, the latest first.

use crate::fetch::{chapter_missing, fetched_view, FetchError, FetchedView};
use crate::text::{concat, concat3, join, join_with};
use crate::time::ZonedTime;
use crate::types::{Manga, MangaView};
use vstd::prelude::*;

verus! {

/// The answer on the series.
#[derive(Default, Debug, Clone, PartialEq)]
pub struct IchijinPlusData {
    pub authors: Vec<Author>,
    pub title: String,
}

#[derive(Default, Debug, Clone, PartialEq)]
pub struct Author {
    pub creator_id: String,
    pub name: String,
    pub role: String,
}

/// The answer on the episodes.
#[derive(Debug, Clone, PartialEq)]
pub struct EpisodeDetail {
    pub resources: Vec<Episode>,
}

#[derive(Debug, Clone, PartialEq)]
pub struct Episode {
    pub comic_id: String,
    pub id: String,
    pub published_at: ZonedTime,
    pub thumbnail_image_url: String,
    pub title: String,
}

/// The name of the header that the interface asks for.
pub const HEADER_KEY: &'static str = "x-api-environment-key";

/// The value of the header that the interface asks for.
pub const HEADER_VALUE: &'static str = "GGXGejnSsZw-IxHKQp8OQKHH-NDItSbEq5PU0g2w1W4=";

/// The names of the authors, in their order.
pub open spec fn author_names(authors: Seq<Author>) -> Seq<Seq<char>> {
    Seq::new(authors.len(), |i: int| authors[i].name@)
}

/// The record of a series: that of its first episode, released when the
/// episode says; no chapter is found where it has no episode.
pub open spec fn spec_manga(data: IchijinPlusData, episodes: EpisodeDetail) -> FetchedView {
    if episodes.resources@.len() == 0 {
        Err(chapter_missing("No episode found"@))
    } else {
        let episode = episodes.resources@[0];
        Ok(
            MangaView {
                title: data.title@,
                cover_url: episode.thumbnail_image_url@,
                author: join(author_names(data.authors@), ","@),
                latest_chapter_title: episode.title@,
                latest_chapter_url: "https://ichijin-plus.com/episodes/"@ + episode.id@,
                latest_chapter_release_date: episode.published_at@,
                latest_chapter_publish_day: episode.published_at@.weekday(),
            },
        )
    }
}

/// The names of the authors, joined by commas.
fn authors_of(authors: &Vec<Author>) -> (names: String)
    ensures
        names@ == join(author_names(authors@), ","@),
{
    let mut names: Vec<String> = Vec::new();
    let mut i: usize = 0;
    while i < authors.len()
        invariant
            i <= authors.len(),
            names@.len() == i,
            forall|j: int| 0 <= j < i ==> names@[j]@ == authors@[j].name@,
        decreases authors.len() - i,
    {
        names.push(authors[i].name.clone());
        i = i + 1;
    }
    assert(Seq::new(names@.len(), |i: int| names@[i]@) =~= author_names(authors@));
    join_with(&names, ",")
}

/// The record of the series that the two answers describe.
pub fn fetch_ichijin_plus_data(data: IchijinPlusData, episode_detail: EpisodeDetail) -> (fetched:
    Result<Manga, FetchError>)
    ensures
        fetched_view(fetched) == spec_manga(data, episode_detail),
        fetched matches Ok(manga) ==> manga@.consistent(),
{
    if episode_detail.resources.len() == 0 {
        return Err(FetchError::chapter_not_found("No episode found"));
    }
    let episode = &episode_detail.resources[0];
    let author = authors_of(&data.authors);
    Ok(
        Manga::released_at(
            data.title.clone(),
            episode.thumbnail_image_url.clone(),
            author,
            episode.title.clone(),
            concat("https://ichijin-plus.com/episodes/", episode.id.as_str()),
            episode.published_at,
        ),
    )
}

/// The address of the answer on the series `id`.
pub fn comic_url(id: &str) -> (url: String)
    ensures
        url@ == "https://api.ichijin-plus.com/comics/"@ + id@,
{
    concat("https://api.ichijin-plus.com/comics/", id)
}

/// The address of the answer on the episodes of the series `id`.
pub fn episodes_url(id: &str) -> (url: String)
    ensures
        url@ == "https://api.ichijin-plus.com/episodes?comic_id="@ + id@
            + "&episode_status=free_viewing%2Con_sale&limit=5&order=desc&sort=episode_order"@,
{
    concat3(
        "https://api.ichijin-plus.com/episodes?comic_id=",
        id,
        "&episode_status=free_viewing%2Con_sale&limit=5&order=desc&sort=episode_order",
    )
}

} // verus!
