//! The rules of adding, listing and deleting tracked series: what is checked
//! before the store is asked, and what the caller is told afterwards.

use crate::db::model::{rows_view, MangaRow, MangaRowView};
use crate::fetch::FetchError;
use crate::time::{valid_time, JAPAN_OFFSET, JAPAN_OFFSET_MILLIS};
use crate::types::{Manga, MangaSource, MangaView, Paginated};
use vstd::prelude::*;

verus! {

/// What the store said when it was asked for the row of a series.
#[derive(Clone, Copy, Debug, PartialEq, Eq, Structural)]
pub enum Lookup {
    /// The store holds the row.
    Found,
    /// The store holds no such row.
    Missing,
    /// The store could not be asked.
    Failed,
}

/// A series that is to be added, or why it cannot be.
pub open spec fn spec_add_request(source: Option<MangaSource>, lookup: Lookup) -> Result<
    MangaSource,
    Seq<char>,
> {
    match (source, lookup) {
        (None, _) => Err("Source cannot be empty"@),
        (Some(_), Lookup::Found) => Err("manga already exist in db"@),
        (Some(_), Lookup::Failed) => Err("error checking manga in db"@),
        (Some(known), Lookup::Missing) => Ok(known),
    }
}

/// The source whose series is to be added, where a source is named and the
/// store holds no row of the series yet; else the words for the caller.
pub fn add_request(source: Option<MangaSource>, lookup: Lookup) -> (checked: Result<
    MangaSource,
    String,
>)
    ensures
        match checked {
            Ok(known) => spec_add_request(source, lookup) == Ok::<MangaSource, Seq<char>>(known),
            Err(words) => spec_add_request(source, lookup) == Err::<MangaSource, Seq<char>>(
                words@,
            ),
        },
{
    match (source, lookup) {
        (None, _) => Err("Source cannot be empty".to_owned()),
        (Some(_), Lookup::Found) => Err("manga already exist in db".to_owned()),
        (Some(_), Lookup::Failed) => Err("error checking manga in db".to_owned()),
        (Some(known), Lookup::Missing) => Ok(known),
    }
}

/// What the caller is told of a series that was fetched to be added: the
/// record, or the words of the error of the fetch.
pub fn add_fetched(fetched: Result<Manga, FetchError>) -> (told: Result<Manga, String>)
    ensures
        match (told, fetched) {
            (Ok(manga), Ok(given)) => manga@ == given@,
            (Err(words), Err(error)) => words@ == FetchError::spec_message(error@),
            _ => false,
        },
{
    match fetched {
        Ok(manga) => Ok(manga),
        Err(error) => Err(error.message()),
    }
}

/// What the caller is told of a series that was to be stored: the record
/// where the store took it, else that it did not.
pub fn add_manga_service(manga: Manga, inserted: bool) -> (told: Result<Manga, String>)
    ensures
        match told {
            Ok(kept) => inserted && kept@ == manga@,
            Err(words) => !inserted && words@ == "Error inserting manga to db"@,
        },
{
    if inserted {
        Ok(manga)
    } else {
        Err("Error inserting manga to db".to_owned())
    }
}

/// Whether a list of series may be handed to the store to be deleted: it
/// must name a series.
pub fn delete_request(listed: usize) -> (checked: Result<(), String>)
    ensures
        checked is Ok <==> listed > 0,
        checked matches Err(words) ==> words@ == "manga list cannot be empty"@,
{
    if listed == 0 {
        Err("manga list cannot be empty".to_owned())
    } else {
        Ok(())
    }
}

/// What the caller is told after a deletion, `deleted` being the number of
/// rows that the store deleted, if it could be asked.
pub open spec fn spec_delete_result(deleted: Option<u64>) -> Result<u64, Seq<char>> {
    match deleted {
        None => Err("Error at deleting manga"@),
        Some(rows) => if rows == 0 {
            Err("no manga deleted"@)
        } else {
            Ok(rows)
        },
    }
}

/// What the caller is told after a deletion.
pub fn delete_manga_service(deleted: Option<u64>) -> (told: Result<u64, String>)
    ensures
        match told {
            Ok(rows) => spec_delete_result(deleted) == Ok::<u64, Seq<char>>(rows),
            Err(words) => spec_delete_result(deleted) == Err::<u64, Seq<char>>(words@),
        },
{
    match deleted {
        None => Err("Error at deleting manga".to_owned()),
        Some(rows) => {
            if rows == 0 {
                Err("no manga deleted".to_owned())
            } else {
                Ok(rows)
            }
        },
    }
}

/// One line of a listing: the source of a series, its identifier there, and
/// its record.
#[derive(Clone, Debug)]
pub struct Listed {
    pub source: MangaSource,
    pub manga_id: String,
    pub manga: Manga,
}

/// A `Listed` with its texts as sequences of characters.
pub struct ListedView {
    pub source: MangaSource,
    pub manga_id: Seq<char>,
    pub manga: MangaView,
}

impl View for Listed {
    type V = ListedView;

    open spec fn view(&self) -> ListedView {
        ListedView { source: self.source, manga_id: self.manga_id@, manga: self.manga@ }
    }
}

/// Whether the release date of a row, read in Japan, is a moment within the
/// limit, so that the row stands for a record.
pub open spec fn readable(row: MangaRowView) -> bool {
    valid_time(row.latest_chapter_release_date - JAPAN_OFFSET_MILLIS, JAPAN_OFFSET as int)
}

/// The lines of the rows that stand for a record, in the order of the rows.
pub open spec fn spec_lines(rows: Seq<MangaRowView>) -> Seq<ListedView>
    decreases rows.len(),
{
    if rows.len() == 0 {
        Seq::empty()
    } else {
        let before = spec_lines(rows.drop_last());
        let row = rows.last();
        if readable(row) {
            before.push(
                ListedView {
                    source: row.source,
                    manga_id: row.manga_id,
                    manga: MangaRow::spec_into_manga(row),
                },
            )
        } else {
            before
        }
    }
}

/// The lines of `lines` as their views.
pub open spec fn lines_view(lines: Seq<Listed>) -> Seq<ListedView> {
    Seq::new(lines.len(), |i: int| lines[i]@)
}

/// What the caller is told of a page of stored rows: the lines of the rows
/// with the numbers of rows and pages as the store counted them, or, where
/// the store could not be asked, that it could not.
pub fn retrieve_manga_service(page: Option<Paginated<Vec<MangaRow>>>) -> (told: Result<
    Paginated<Vec<Listed>>,
    String,
>)
    ensures
        match (told, page) {
            (Ok(lines), Some(rows)) => lines.total_count == rows.total_count
                && lines.total_page == rows.total_page && lines_view(lines.data@) == spec_lines(
                rows_view(rows.data@),
            ),
            (Err(words), None) => words@ == "Error at querying manga"@,
            _ => false,
        },
{
    let rows = match page {
        Some(rows) => rows,
        None => {
            return Err("Error at querying manga".to_owned());
        },
    };
    let mut lines: Vec<Listed> = Vec::new();
    let mut i: usize = 0;
    assert(rows_view(rows.data@.subrange(0, 0)) =~= Seq::<MangaRowView>::empty());
    assert(lines_view(lines@) =~= Seq::<ListedView>::empty());
    while i < rows.data.len()
        invariant
            i <= rows.data.len(),
            lines_view(lines@) == spec_lines(rows_view(rows.data@.subrange(0, i as int))),
        decreases rows.data.len() - i,
    {
        let ghost before = lines_view(lines@);
        let ghost upto = rows_view(rows.data@.subrange(0, i + 1));
        assert(upto.drop_last() =~= rows_view(rows.data@.subrange(0, i as int)));
        assert(upto.last() == rows.data@[i as int]@);
        let row = rows.data[i].duplicate();
        let source = row.source;
        let manga_id = row.manga_id.clone();
        match row.into_manga() {
            Some(manga) => {
                let line = Listed { source, manga_id, manga };
                lines.push(line);
                assert(lines_view(lines@) =~= before.push(line@));
            },
            None => {},
        }
        i = i + 1;
    }
    assert(rows.data@.subrange(0, i as int) =~= rows.data@);
    Ok(Paginated { data: lines, total_count: rows.total_count, total_page: rows.total_page })
}

} // verus!
