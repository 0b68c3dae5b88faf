//! Extraction of typed records from page text by pattern capture.
//!
//! A pattern has a fixed number of capture groups (the whole match counted as
//! group 0). Each non-overlapping match of it, in document order, becomes one
//! record; a match whose group count differs from what the record type expects
//! fails the whole extraction, since it means that the page format changed.
use std::marker::PhantomData;

use vstd::prelude::*;

verus! {

/// Whether `regex::Regex::new` accepts a pattern.
pub uninterp spec fn regex_compiles(pattern: Seq<char>) -> bool;

/// The capture groups of each match, in document order, that a compiled
/// pattern finds in a text.
pub uninterp spec fn regex_captures_of(pattern: Seq<char>, text: Seq<char>) -> Seq<Seq<Option<Seq<char>>>>;

#[verifier::external_type_specification]
#[verifier::external_body]
pub struct ExRegexError(regex::Error);

/// Relies on `regex::Regex::new`, which succeeds or not by the pattern alone, and on
/// `Regex::captures_iter` and `Captures::iter`, whose matches and groups depend on
/// the pattern and the text alone.
#[verifier::external_body]
fn regex_captures(pattern: &str, text: &str) -> (r: Result<Vec<Vec<Option<String>>>, regex::Error>)
    ensures
        r is Ok <==> regex_compiles(pattern@),
        r matches Ok(caps) ==> caps.deep_view() == regex_captures_of(pattern@, text@),
{
    let re = regex::Regex::new(pattern)?;
    Ok(re.captures_iter(text).map(|c| c.iter().map(|g| g.map(|m| m.as_str().to_string())).collect()).collect())
}

/// Why a page could not be turned into records.
#[derive(Debug, PartialEq, Eq)]
pub enum ResponseParsingError {
    /// A match had `actual` capture groups where the record type needs `expected`.
    RegexCaptureCountMismatch(usize, usize),
    /// The extraction pattern is not a valid regular expression.
    InvalidPattern,
}

/// A record type that can be built from the capture groups of one match.
pub trait ScrapperData: Sized {
    /// How many capture groups, the whole match included, a record is built from.
    spec fn arity() -> nat;

    /// `record` holds what the groups of one match give.
    spec fn built_from(groups: Seq<Option<Seq<char>>>, record: Self) -> bool;

    fn capture_count() -> (r: usize)
        ensures
            r == Self::arity(),
    ;

    fn from_captures(groups: &Vec<Option<String>>) -> (r: Self)
        requires
            groups@.len() == Self::arity(),
        ensures
            Self::built_from(groups.deep_view(), r),
    ;
}

/// The text of a group, or the empty text when the group did not take part in the match.
pub open spec fn group_text(g: Option<Seq<char>>) -> Seq<char> {
    match g {
        Some(s) => s,
        None => Seq::empty(),
    }
}

pub fn group_string(groups: &Vec<Option<String>>, i: usize) -> (r: String)
    requires
        i < groups@.len(),
    ensures
        r@ == group_text(groups.deep_view()[i as int]),
{
    match &groups[i] {
        Some(s) => s.clone(),
        None => String::new(),
    }
}

/// Every match has the group count that `T` expects.
pub open spec fn arity_holds<T: ScrapperData>(caps: Seq<Seq<Option<Seq<char>>>>) -> bool {
    forall|k: int| 0 <= k < caps.len() ==> (#[trigger] caps[k]).len() == T::arity()
}

/// `k` is the first match whose group count is not what `T` expects.
pub open spec fn is_first_mismatch<T: ScrapperData>(caps: Seq<Seq<Option<Seq<char>>>>, k: int) -> bool {
    &&& 0 <= k < caps.len()
    &&& caps[k].len() != T::arity()
    &&& forall|j: int| 0 <= j < k ==> (#[trigger] caps[j]).len() == T::arity()
}

/// `r` is what extraction yields for the matches `caps`: one record per match, in
/// order, or the mismatch error of the first match with the wrong group count.
pub open spec fn extracted<T: ScrapperData>(
    caps: Seq<Seq<Option<Seq<char>>>>,
    r: Result<Vec<T>, ResponseParsingError>,
) -> bool {
    match r {
        Ok(records) => arity_holds::<T>(caps) && records@.len() == caps.len() && forall|k: int|
            0 <= k < caps.len() ==> T::built_from(caps[k], #[trigger] records@[k]),
        Err(e) => exists|k: int|
            is_first_mismatch::<T>(caps, k) && e == ResponseParsingError::RegexCaptureCountMismatch(
                T::arity() as usize,
                caps[k].len() as usize,
            ),
    }
}

/// Turns the matches of a page into records.
pub fn extract<T: ScrapperData>(captures: &Vec<Vec<Option<String>>>) -> (r: Result<Vec<T>, ResponseParsingError>)
    ensures
        extracted::<T>(captures.deep_view(), r),
        captures@.len() == 0 ==> (r matches Ok(records) && records@.len() == 0),
        !arity_holds::<T>(captures.deep_view()) ==> r is Err,
{
    let expected = T::capture_count();
    let ghost caps = captures.deep_view();
    let mut records: Vec<T> = Vec::new();
    let mut k: usize = 0;
    while k < captures.len()
        invariant
            caps == captures.deep_view(),
            expected == T::arity(),
            k <= captures@.len(),
            forall|j: int| 0 <= j < k ==> (#[trigger] caps[j]).len() == T::arity(),
            records@.len() == k,
            forall|j: int| 0 <= j < k ==> T::built_from(caps[j], #[trigger] records@[j]),
        decreases captures.len() - k,
    {
        let groups = &captures[k];
        assert(groups.deep_view() == caps[k as int]);
        if groups.len() != expected {
            assert(is_first_mismatch::<T>(caps, k as int));
            return Err(ResponseParsingError::RegexCaptureCountMismatch(expected, groups.len()));
        }
        records.push(T::from_captures(groups));
        k = k + 1;
    }
    Ok(records)
}

/// Extracts records of type `T` from page text with a fixed pattern.
pub struct HttpScrapper<T: ScrapperData> {
    inner_regex: String,
    _phantom: PhantomData<T>,
}

impl<T: ScrapperData> HttpScrapper<T> {
    pub closed spec fn pattern(&self) -> Seq<char> {
        self.inner_regex@
    }

    pub fn new(inner_regex: &str) -> (r: Self)
        ensures
            r.pattern() == inner_regex@,
    {
        HttpScrapper { inner_regex: inner_regex.to_owned(), _phantom: PhantomData }
    }

    pub fn pattern_text(&self) -> (r: &str)
        ensures
            r@ == self.pattern(),
    {
        self.inner_regex.as_str()
    }

    /// The records of every match of the pattern in `data`.
    pub fn scrap_raw_data(&self, data: &str) -> (r: Result<Vec<T>, ResponseParsingError>)
        ensures
            !regex_compiles(self.pattern()) ==> r == Err::<Vec<T>, ResponseParsingError>(
                ResponseParsingError::InvalidPattern,
            ),
            regex_compiles(self.pattern()) ==> extracted::<T>(regex_captures_of(self.pattern(), data@), r),
            regex_compiles(self.pattern()) && regex_captures_of(self.pattern(), data@).len() == 0
                ==> (r matches Ok(records) && records@.len() == 0),
    {
        match regex_captures(self.inner_regex.as_str(), data) {
            Ok(captures) => extract::<T>(&captures),
            Err(_) => Err(ResponseParsingError::InvalidPattern),
        }
    }
}

} // verus!
