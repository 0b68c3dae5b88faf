use vstd::prelude::*;

use vstd::string::StringExecFns;

use crate::indexer::Indexer;
use crate::ranking::{names_of, rank_positions, ranked_candidates, lemma_ranking_is};
use crate::scrapper::{extracted, group_string, group_text, regex_captures_of, regex_compiles, HttpScrapper, ResponseParsingError, ScrapperData};

verus! {

/// The subtitle site's list of titles.
pub const ANIME_LIST_URL: &'static str = "https://kitsunekko.net/dirlist.php?dir=subtitles%2Fjapanese%2F";

/// Links of the subtitle site are relative to this address.
pub const SITE_ROOT: &'static str = "https://kitsunekko.net/";

/// One title of the list: the link to its page and its name are its two groups.
pub const ANIME_LIST_PATTERN: &'static str = r#"<tr><td colspan="2"><a href="/([^"]+).+?<strong>([^<]+)"#;

/// One subtitle file of a title's page: the link to the file and its name are
/// its two groups.
pub const SUB_FILE_PATTERN: &'static str = r#"<td><a href="/?([^"]+\.(?:srt|ass|ssa|zip|rar|7z))"[^>]*>(?:<strong>)?([^<]+)"#;

fn site_link(path: &str) -> (r: String)
    ensures
        r@ == SITE_ROOT@ + path@,
{
    let mut url = String::from_str(SITE_ROOT);
    url.append(path);
    url
}

/// A title listed on the subtitle site, with the page that lists its files.
#[derive(Debug, Clone, PartialEq, Eq, Hash)]
pub struct AnimeIndexer {
    pub name: String,
    pub url: String,
}

impl AnimeIndexer {
    /// A field-by-field copy.
    pub fn duplicate(&self) -> (r: Self)
        ensures
            r == *self,
    {
        AnimeIndexer { name: self.name.clone(), url: self.url.clone() }
    }
}

impl ScrapperData for AnimeIndexer {
    open spec fn arity() -> nat {
        3
    }

    open spec fn built_from(groups: Seq<Option<Seq<char>>>, record: Self) -> bool {
        &&& record.url@ == SITE_ROOT@ + group_text(groups[1])
        &&& record.name@ == group_text(groups[2])
    }

    fn capture_count() -> (r: usize) {
        3
    }

    fn from_captures(groups: &Vec<Option<String>>) -> (r: Self) {
        let path = group_string(groups, 1);
        AnimeIndexer { name: group_string(groups, 2), url: site_link(path.as_str()) }
    }
}

impl ScrapperData for Indexer {
    open spec fn arity() -> nat {
        3
    }

    open spec fn built_from(groups: Seq<Option<Seq<char>>>, record: Self) -> bool {
        &&& record.spec_uri() == SITE_ROOT@ + group_text(groups[1])
        &&& record.spec_name() == group_text(groups[2])
    }

    fn capture_count() -> (r: usize) {
        3
    }

    fn from_captures(groups: &Vec<Option<String>>) -> (r: Self) {
        let path = group_string(groups, 1);
        let name = group_string(groups, 2);
        let uri = site_link(path.as_str());
        Indexer::new(name.as_str(), uri.as_str())
    }
}

/// The titles of the subtitle site's list page, in page order.
pub fn parse_indexers(response_text: &str) -> (r: Result<Vec<AnimeIndexer>, ResponseParsingError>)
    ensures
        !regex_compiles(ANIME_LIST_PATTERN@) ==> r == Err::<Vec<AnimeIndexer>, ResponseParsingError>(
            ResponseParsingError::InvalidPattern,
        ),
        regex_compiles(ANIME_LIST_PATTERN@) ==> extracted::<AnimeIndexer>(
            regex_captures_of(ANIME_LIST_PATTERN@, response_text@),
            r,
        ),
{
    HttpScrapper::<AnimeIndexer>::new(ANIME_LIST_PATTERN).scrap_raw_data(response_text)
}

/// The subtitle files listed on a title's page, in page order.
pub fn parse_sub_files(response_text: &str) -> (r: Result<Vec<Indexer>, ResponseParsingError>)
    ensures
        !regex_compiles(SUB_FILE_PATTERN@) ==> r == Err::<Vec<Indexer>, ResponseParsingError>(
            ResponseParsingError::InvalidPattern,
        ),
        regex_compiles(SUB_FILE_PATTERN@) ==> extracted::<Indexer>(
            regex_captures_of(SUB_FILE_PATTERN@, response_text@),
            r,
        ),
{
    HttpScrapper::<Indexer>::new(SUB_FILE_PATTERN).scrap_raw_data(response_text)
}

/// Orders `indexes` against `anime_name`: exact case-insensitive matches first,
/// then by fuzzy score lowered by the length difference, ties in input order;
/// candidates that the query does not match are left out.
pub fn fuzzy_match_indexers(anime_name: &str, indexes: Vec<AnimeIndexer>) -> (r: Vec<AnimeIndexer>)
    ensures
        r@ == ranked_candidates(anime_name@, indexes@),
{
    let order = rank_positions(anime_name, &indexes);
    proof {
        let ghost positions = order@.map_values(|i: usize| i as int);
        lemma_ranking_is(anime_name@, names_of(indexes@), positions);
        assert forall|m: int| 0 <= m < order@.len() implies 0 <= #[trigger] order@[m] < indexes@.len() by {
            assert(positions[m] == order@[m] as int);
        }
    }
    let mut result: Vec<AnimeIndexer> = Vec::new();
    let mut k: usize = 0;
    while k < order.len()
        invariant
            k <= order@.len(),
            forall|m: int| 0 <= m < order@.len() ==> 0 <= #[trigger] order@[m] < indexes@.len(),
            result@ =~= order@.subrange(0, k as int).map_values(|i: usize| indexes@[i as int]),
        decreases order.len() - k,
    {
        let pos = order[k];
        result.push(indexes[pos].duplicate());
        k = k + 1;
    }
    assert(result@ =~= ranked_candidates(anime_name@, indexes@));
    result
}

/// The titles of the list page `listing`, ranked against `anime_name`.
pub fn fetch_best_indexers_for(anime_name: &str, listing: &str) -> (r: Result<Vec<AnimeIndexer>, ResponseParsingError>)
    ensures
        !regex_compiles(ANIME_LIST_PATTERN@) ==> r == Err::<Vec<AnimeIndexer>, ResponseParsingError>(
            ResponseParsingError::InvalidPattern,
        ),
        regex_compiles(ANIME_LIST_PATTERN@) ==> match r {
            Err(e) => extracted::<AnimeIndexer>(
                regex_captures_of(ANIME_LIST_PATTERN@, listing@),
                Err(e),
            ),
            Ok(best) => exists|titles: Vec<AnimeIndexer>|
                extracted::<AnimeIndexer>(regex_captures_of(ANIME_LIST_PATTERN@, listing@), Ok(titles))
                    && best@ == ranked_candidates(anime_name@, titles@),
        },
{
    match parse_indexers(listing) {
        Ok(titles) => {
            let ghost parsed = titles;
            let best = fuzzy_match_indexers(anime_name, titles);
            assert(extracted::<AnimeIndexer>(regex_captures_of(ANIME_LIST_PATTERN@, listing@), Ok(parsed)));
            Ok(best)
        },
        Err(e) => Err(e),
    }
}

} // verus!
