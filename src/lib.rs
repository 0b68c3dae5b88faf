//! Locating and retrieving anime releases and subtitle files: extraction of
//! listing records from page text, fuzzy ranking of candidates against a title,
//! resolution of download destinations and the decisions of a download run.

pub mod destination;
pub mod download;
pub mod indexer;
pub mod ranking;
pub mod raws;
pub mod scrapper;
pub mod subs;
pub mod torrent;
