//! The one entity of the service, in the three shapes in which requests and
//! the store carry it.

use vstd::prelude::*;

verus! {

/// A stored record. The store assigns `id` when the record is created and
/// never changes it.
#[allow(non_snake_case)]
#[derive(Debug, Clone, PartialEq, Eq)]
pub struct Series {
    pub id: i64,
    pub title: String,
    pub status: String,
    pub lastEpisodeWatched: i32,
    pub totalEpisodes: i32,
    pub ranking: i32,
}

/// What a stored record holds.
pub ghost struct SeriesView {
    pub id: i64,
    pub title: Seq<char>,
    pub status: Seq<char>,
    pub last_episode_watched: i32,
    pub total_episodes: i32,
    pub ranking: i32,
}

impl View for Series {
    type V = SeriesView;

    open spec fn view(&self) -> SeriesView {
        SeriesView {
            id: self.id,
            title: self.title@,
            status: self.status@,
            last_episode_watched: self.lastEpisodeWatched,
            total_episodes: self.totalEpisodes,
            ranking: self.ranking,
        }
    }
}

/// The views of a list of records.
pub open spec fn series_views(list: Seq<Series>) -> Seq<SeriesView> {
    Seq::new(list.len(), |i: int| list[i]@)
}

/// Every attribute but `id`: the body of a creation and of a full replacement.
#[allow(non_snake_case)]
#[derive(Debug, Clone, PartialEq, Eq)]
pub struct CreateSeries {
    pub title: String,
    pub status: String,
    pub lastEpisodeWatched: i32,
    pub totalEpisodes: i32,
    pub ranking: i32,
}

/// The body of a partial update: each attribute may be absent.
#[allow(non_snake_case)]
#[derive(Debug, Clone, PartialEq, Eq)]
pub struct UpdateSeries {
    pub title: Option<String>,
    pub status: Option<String>,
    pub lastEpisodeWatched: Option<i32>,
    pub totalEpisodes: Option<i32>,
    pub ranking: Option<i32>,
}

} // verus!
