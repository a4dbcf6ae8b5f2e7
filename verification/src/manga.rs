//! The record of a channel, for callers that tell no more than whether there
//! was a chapter.

use crate::parser::rss_manga::{first_item_manga, latest_of, Channel};
use crate::types::Manga;
use vstd::prelude::*;

verus! {

/// Why a channel gave no record.
#[derive(Clone, Copy, Debug, PartialEq, Eq, Structural)]
pub enum ConvertError {
    /// The channel has no item.
    EmptyChapter,
}

/// The record of the first item of a channel.
pub fn manga_from_channel(value: Channel) -> (converted: Result<Manga, ConvertError>)
    ensures
        match converted {
            Ok(manga) => Some(manga@) == first_item_manga(value) && manga@.consistent(),
            Err(error) => first_item_manga(value) is None && error == ConvertError::EmptyChapter,
        },
{
    match latest_of(value) {
        Some(manga) => Ok(manga),
        None => Err(ConvertError::EmptyChapter),
    }
}

} // verus!
