//! Raw releases listed on the torrent index.
use vstd::prelude::*;
use vstd::string::StringExecFns;

use crate::scrapper::{extracted, group_string, group_text, regex_captures_of, regex_compiles, HttpScrapper, ResponseParsingError, ScrapperData};

verus! {

/// One listing row of the torrent index: the view link, the title, the magnet
/// link and the seeder count are its four groups.
pub const MAGNET_PATTERN: &'static str = r#"(?m)href="(/view/[^"]+?)" title="([^"]+?)"(?:.|[\n\r ])+?(magnet:[^"]+)(?:.|[\n\r ])+?text-center(?:.|[\n\r ])+?text-center(?:.|[\n\r ])+?text-center">(\d+)"#;

pub const RAW_QUERY_PREFIX: &'static str = "https://nyaa.si/?f=0&c=1_4&q=";

pub const RAW_QUERY_SUFFIX: &'static str = "&s=seeders&o=desc";

/// A title and the (so far unknown) magnet link of its raw release.
#[derive(Debug)]
pub struct AnimeSearchResult {
    pub anime_name: String,
    pub anime_raw_magnet: String,
}

/// The search result for a title before any lookup: the title, and no magnet link.
pub fn search_anime(anime_name: String) -> (r: AnimeSearchResult)
    ensures
        r.anime_name@ == anime_name@,
        r.anime_raw_magnet@.len() == 0,
{
    AnimeSearchResult { anime_name, anime_raw_magnet: String::new() }
}

/// A raw release found on the index: its title and magnet link.
#[derive(Debug)]
pub struct AnimeRawSearchResult {
    pub anime_name: String,
    pub anime_raw_magnet: String,
}

impl ScrapperData for AnimeRawSearchResult {
    open spec fn arity() -> nat {
        5
    }

    open spec fn built_from(groups: Seq<Option<Seq<char>>>, record: Self) -> bool {
        &&& record.anime_name@ == group_text(groups[2])
        &&& record.anime_raw_magnet@ == group_text(groups[3])
    }

    fn capture_count() -> (r: usize) {
        5
    }

    fn from_captures(groups: &Vec<Option<String>>) -> (r: Self) {
        AnimeRawSearchResult { anime_name: group_string(groups, 2), anime_raw_magnet: group_string(groups, 3) }
    }
}

/// The address of the index's search page for a title, most seeded first.
pub fn anime_raw_query_url(anime_name: &str) -> (r: String)
    ensures
        r@ == RAW_QUERY_PREFIX@ + anime_name@ + RAW_QUERY_SUFFIX@,
{
    let mut url = String::from_str(RAW_QUERY_PREFIX);
    url.append(anime_name);
    url.append(RAW_QUERY_SUFFIX);
    url
}

/// The raw releases listed in a search page of the index, in page order.
pub fn process_http_response(response_text: String) -> (r: Result<Vec<AnimeRawSearchResult>, ResponseParsingError>)
    ensures
        !regex_compiles(MAGNET_PATTERN@) ==> r == Err::<Vec<AnimeRawSearchResult>, ResponseParsingError>(
            ResponseParsingError::InvalidPattern,
        ),
        regex_compiles(MAGNET_PATTERN@) ==> extracted::<AnimeRawSearchResult>(
            regex_captures_of(MAGNET_PATTERN@, response_text@),
            r,
        ),
{
    let scrapper = HttpScrapper::<AnimeRawSearchResult>::new(MAGNET_PATTERN);
    scrapper.scrap_raw_data(response_text.as_str())
}

} // verus!
