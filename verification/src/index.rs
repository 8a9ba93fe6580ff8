//! The records of the local content index and the pagination the search
//! takes: a raw index row, the torrent record the search API renders,
//! and the rule that turns a requested page size into a row limit.

use vstd::prelude::*;

verus! {

/// Page size used when the caller asks for none.
pub const DEFAULT_RESULTS: usize = 10;

/// Floor applied to an explicit page size.
pub const MAX_RESULTS: usize = 100;

/// One raw row of the content index.
#[derive(Debug, Clone)]
pub struct Item {
    pub id: i64,
    pub title: String,
    pub hash: String,
    pub dt: String,
    pub cat: String,
    pub imdb: Option<String>,
    pub size: Option<i64>,
    pub ext_id: Option<String>,
}

/// Nested identifiers of a rendered torrent record.
#[derive(Debug, Clone)]
pub struct RarbgTorrentInfo {
    pub imdb: String,
    pub tvrage: Option<i64>,
    pub tvdb: Option<i64>,
}

/// One torrent record as the search API renders it.
#[derive(Debug, Clone)]
pub struct RarbgTorrent {
    pub title: String,
    pub category: String,
    pub download: String,
    pub seeders: Option<i64>,
    pub leechers: Option<i64>,
    pub publish_date: String,
    pub episode_info: RarbgTorrentInfo,
    pub ranked: Option<i64>,
    pub info_page: String,
}

impl RarbgTorrent {
    /// Renders an index row: title, category and dates carry over, the
    /// row's hash becomes the download field, a missing imdb id becomes
    /// the empty string, and the fields the index does not hold stay
    /// empty.
    pub fn from_item(value: Item) -> (r: RarbgTorrent)
        ensures
            r.title@ == value.title@,
            r.category@ == value.cat@,
            r.download@ == value.hash@,
            r.seeders is None,
            r.leechers is None,
            r.publish_date@ == value.dt@,
            value.imdb matches Some(s) ==> r.episode_info.imdb@ == s@,
            value.imdb is None ==> r.episode_info.imdb@.len() == 0,
            r.episode_info.tvrage is None,
            r.episode_info.tvdb is None,
            r.ranked is None,
            r.info_page@.len() == 0,
    {
        let imdb = match value.imdb {
            Some(s) => s,
            None => String::from_str(""),
        };
        proof {
            reveal_strlit("");
        }
        RarbgTorrent {
            title: value.title,
            category: value.cat,
            download: value.hash,
            seeders: None,
            leechers: None,
            publish_date: value.dt,
            episode_info: RarbgTorrentInfo { imdb, tvrage: None, tvdb: None },
            ranked: None,
            info_page: String::from_str(""),
        }
    }
}

/// Offset and requested size of one page of search results.
#[derive(Debug, Default)]
pub struct Pagination {
    pub offset: usize,
    pub amount: Option<usize>,
}

/// The row limit a requested page size yields: an explicit request is
/// raised to at least the floor, and no request at all means the small
/// default page.
pub open spec fn spec_page_amount(requested: Option<usize>) -> usize {
    match requested {
        Some(a) => if a >= MAX_RESULTS {
            a
        } else {
            MAX_RESULTS
        },
        Option::None => DEFAULT_RESULTS,
    }
}

impl Pagination {
    /// The row limit of this page request.
    pub fn amount(&self) -> (r: usize)
        ensures
            r == spec_page_amount(self.amount),
    {
        match self.amount {
            Some(a) => if a >= MAX_RESULTS {
                a
            } else {
                MAX_RESULTS
            },
            None => DEFAULT_RESULTS,
        }
    }
}

} // verus!
