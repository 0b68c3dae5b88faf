//! Snapshots of the torrent backend's transfers, and its endpoints.
use vstd::prelude::*;
use vstd::string::StringExecFns;

verus! {

/// The state the backend reports for a transfer that has finished downloading
/// and is now seeding.
pub const FINISHED_STATE: &'static str = "uploading";

/// Where the backend's web API is served.
pub const API_URL: &'static str = "http://127.0.0.1:8080/api/v2/";

/// One transfer of the backend at the time it was queried.
#[derive(Debug)]
pub struct Torrent {
    pub hash: String,
    pub name: String,
    pub size: i64,
    pub downloaded: i64,
    pub state: String,
}

impl Torrent {
    pub open spec fn is_finished(&self) -> bool {
        self.state@ == FINISHED_STATE@
    }

    /// Whether the transfer has finished downloading.
    pub fn finished(&self) -> (r: bool)
        ensures
            r == self.is_finished(),
    {
        self.state == String::from_str(FINISHED_STATE)
    }

    pub fn size(&self) -> (r: i64)
        ensures
            r == self.size,
    {
        self.size
    }

    pub fn downloaded(&self) -> (r: i64)
        ensures
            r == self.downloaded,
    {
        self.downloaded
    }
}

/// The backend's transfers at the time it was queried.
#[derive(Debug)]
pub struct TorrentList(pub Vec<Torrent>);

pub open spec fn all_finished(list: Seq<Torrent>) -> bool {
    forall|k: int| 0 <= k < list.len() ==> (#[trigger] list[k]).is_finished()
}

pub open spec fn sum_sizes(list: Seq<Torrent>) -> int
    decreases list.len(),
{
    if list.len() == 0 {
        0
    } else {
        sum_sizes(list.drop_last()) + list.last().size
    }
}

pub open spec fn sum_downloaded(list: Seq<Torrent>) -> int
    decreases list.len(),
{
    if list.len() == 0 {
        0
    } else {
        sum_downloaded(list.drop_last()) + list.last().downloaded
    }
}

proof fn lemma_sum_bounds(list: Seq<Torrent>)
    ensures
        list.len() * i64::MIN <= sum_sizes(list) <= list.len() * i64::MAX,
        list.len() * i64::MIN <= sum_downloaded(list) <= list.len() * i64::MAX,
    decreases list.len(),
{
    if list.len() > 0 {
        lemma_sum_bounds(list.drop_last());
        assert((list.len() - 1) * i64::MIN + i64::MIN == list.len() * i64::MIN) by (nonlinear_arith);
        assert((list.len() - 1) * i64::MAX + i64::MAX == list.len() * i64::MAX) by (nonlinear_arith);
    }
}

impl TorrentList {
    /// Whether some transfer has not finished yet.
    pub fn has_unfinished(&self) -> (r: bool)
        ensures
            r == !all_finished(self.0@),
    {
        let mut k: usize = 0;
        while k < self.0.len()
            invariant
                k <= self.0@.len(),
                forall|j: int| 0 <= j < k ==> (#[trigger] self.0@[j]).is_finished(),
            decreases self.0.len() - k,
        {
            if !self.0[k].finished() {
                return true;
            }
            k = k + 1;
        }
        false
    }

    /// The byte sizes of all transfers, and the bytes downloaded so far, summed.
    pub fn progress(&self) -> (r: (i128, i128))
        ensures
            r.0 == sum_sizes(self.0@),
            r.1 == sum_downloaded(self.0@),
    {
        let mut size: i128 = 0;
        let mut done: i128 = 0;
        let mut k: usize = 0;
        while k < self.0.len()
            invariant
                k <= self.0@.len(),
                size == sum_sizes(self.0@.subrange(0, k as int)),
                done == sum_downloaded(self.0@.subrange(0, k as int)),
            decreases self.0.len() - k,
        {
            let ghost prefix = self.0@.subrange(0, k as int + 1);
            assert(prefix.drop_last() =~= self.0@.subrange(0, k as int));
            proof {
                lemma_sum_bounds(prefix);
                assert(prefix.len() <= usize::MAX + 1);
                assert(prefix.len() * i64::MAX <= (usize::MAX + 1) * i64::MAX) by (nonlinear_arith)
                    requires prefix.len() <= usize::MAX + 1;
                assert(prefix.len() * i64::MIN >= (usize::MAX + 1) * i64::MIN) by (nonlinear_arith)
                    requires prefix.len() <= usize::MAX + 1;
            }
            size = size + self.0[k].size as i128;
            done = done + self.0[k].downloaded as i128;
            k = k + 1;
        }
        assert(self.0@.subrange(0, k as int) =~= self.0@);
        (size, done)
    }
}

/// The backend refused a new transfer, or could not be reached.
#[derive(Debug)]
pub struct TorrentAddError;

/// The backend's transfers could not be queried or read.
#[derive(Debug)]
pub struct TorrentInfoError;

/// A backend operation failed.
#[derive(Debug)]
pub struct QBitTorrentClientError;

/// The backend's web API, by its address.
pub struct QBitTorrentClient {
    api_url: String,
}

impl QBitTorrentClient {
    pub closed spec fn spec_api_url(&self) -> Seq<char> {
        self.api_url@
    }

    pub fn new() -> (r: Self)
        ensures
            r.spec_api_url() == API_URL@,
    {
        QBitTorrentClient { api_url: String::from_str(API_URL) }
    }

    /// The address of one of the API's endpoints.
    pub fn endpoint(&self, path: &str) -> (r: String)
        ensures
            r@ == self.spec_api_url() + path@,
    {
        let mut url = self.api_url.clone();
        url.append(path);
        url
    }

    /// The form fields that hand a locator to the backend, saved in its working folder.
    pub fn add_form(&self, uri: &str) -> (r: Vec<(String, String)>)
        ensures
            r@.len() == 2,
            r@[0].0@ == "urls"@ && r@[0].1@ == uri@,
            r@[1].0@ == "savepath"@ && r@[1].1@ == "."@,
    {
        let mut form: Vec<(String, String)> = Vec::new();
        form.push((String::from_str("urls"), String::from_str(uri)));
        form.push((String::from_str("savepath"), String::from_str(".")));
        form
    }
}

} // verus!
