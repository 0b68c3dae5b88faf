//! The decisions of a download: skip a file that is already there, fetch and
//! persist directly, or hand the locator to the torrent backend and poll it until
//! every transfer has finished. The caller performs each action that a job asks
//! for and reports back the event it observed.
use vstd::prelude::*;
use vstd::string::StringExecFns;

use crate::destination::{chosen_basename, decimal, generated_basename, hint_view, push_char, resolve_destination, resolved_path, write_decimal, Destination, Timestamp};
use crate::indexer::Indexer;
use crate::torrent::{all_finished, TorrentAddError, TorrentInfoError, TorrentList};

verus! {

/// The folder that subtitle files are saved in when a destination names none.
pub const DEFAULT_FOLDER: &'static str = "subs";

/// The extension that subtitle files are saved with.
pub const DEFAULT_EXTENSION: &'static str = "srt";

/// Fetching text from a locator failed.
#[derive(Debug)]
pub struct StringDownloaderError;

/// Writing a file failed.
#[derive(Debug, Clone, Copy, PartialEq, Eq)]
pub enum PersistError {
    CreateFolder,
    Write,
}

/// The step of a download at which it failed.
#[derive(Debug, Clone, Copy, PartialEq, Eq, Structural)]
pub enum FailureStage {
    Fetch,
    Persist,
    Submit,
    Status,
    Cancelled,
}

/// How a download ended.
#[derive(Debug, Clone, Copy, PartialEq, Eq, Structural)]
pub enum DownloadOutcome {
    /// The file was already there; nothing was fetched.
    Skipped,
    /// The content was fetched and saved, or the backend finished every transfer.
    Completed,
    Failed(FailureStage),
}

/// A failed download: the step that failed and the locator or path it was working on.
#[derive(Debug)]
pub struct FileDownloaderError {
    pub stage: FailureStage,
    pub target: String,
}

/// Where a job stands.
#[derive(Debug, Clone, Copy, PartialEq, Eq, Structural)]
pub enum JobPhase {
    /// Waiting to learn whether the target file exists.
    Checking,
    /// Waiting for the content of the locator.
    Fetching,
    /// Waiting for the content to be written.
    Persisting,
    /// Waiting for the backend to accept the locator.
    Submitting,
    /// Waiting for the backend's transfers, to be queried now.
    Polling,
    /// Waiting for the backend's transfers, to be queried after the poll interval.
    Waiting,
    Done(DownloadOutcome),
}

/// What the caller must do next.
#[derive(Debug, Clone, Copy, PartialEq, Eq, Structural)]
pub enum DownloadAction {
    /// Check whether a file exists at the job's path.
    CheckExists,
    /// Fetch the text at the job's locator.
    Fetch,
    /// Write the job's content at its path, creating parent folders.
    Persist,
    /// Hand the job's locator to the backend.
    Submit,
    /// Query the backend's transfers.
    Poll,
    /// Wait the poll interval, then query the backend's transfers.
    WaitAndPoll,
    /// Nothing more: the download ended so.
    Finish(DownloadOutcome),
}

/// What the caller observed when it performed an action.
pub enum DownloadEvent {
    Exists(bool),
    Fetched(Result<String, StringDownloaderError>),
    Persisted(Result<(), PersistError>),
    Submitted(Result<(), TorrentAddError>),
    Status(Result<TorrentList, TorrentInfoError>),
    /// The caller gave the download up.
    Cancelled,
}

/// The action that a job in `phase` asks for.
pub open spec fn pending_action(phase: JobPhase) -> DownloadAction {
    match phase {
        JobPhase::Checking => DownloadAction::CheckExists,
        JobPhase::Fetching => DownloadAction::Fetch,
        JobPhase::Persisting => DownloadAction::Persist,
        JobPhase::Submitting => DownloadAction::Submit,
        JobPhase::Polling => DownloadAction::Poll,
        JobPhase::Waiting => DownloadAction::WaitAndPoll,
        JobPhase::Done(outcome) => DownloadAction::Finish(outcome),
    }
}

/// The phase a job moves to on an event. An event that does not answer the
/// job's pending action leaves it where it is.
pub open spec fn next_phase(phase: JobPhase, event: DownloadEvent) -> JobPhase {
    match phase {
        JobPhase::Done(_) => phase,
        _ => match event {
            DownloadEvent::Cancelled => JobPhase::Done(DownloadOutcome::Failed(FailureStage::Cancelled)),
            DownloadEvent::Exists(exists) => if phase == JobPhase::Checking {
                if exists {
                    JobPhase::Done(DownloadOutcome::Skipped)
                } else {
                    JobPhase::Fetching
                }
            } else {
                phase
            },
            DownloadEvent::Fetched(fetched) => if phase == JobPhase::Fetching {
                match fetched {
                    Ok(_) => JobPhase::Persisting,
                    Err(_) => JobPhase::Done(DownloadOutcome::Failed(FailureStage::Fetch)),
                }
            } else {
                phase
            },
            DownloadEvent::Persisted(persisted) => if phase == JobPhase::Persisting {
                match persisted {
                    Ok(_) => JobPhase::Done(DownloadOutcome::Completed),
                    Err(_) => JobPhase::Done(DownloadOutcome::Failed(FailureStage::Persist)),
                }
            } else {
                phase
            },
            DownloadEvent::Submitted(submitted) => if phase == JobPhase::Submitting {
                match submitted {
                    Ok(_) => JobPhase::Polling,
                    Err(_) => JobPhase::Done(DownloadOutcome::Failed(FailureStage::Submit)),
                }
            } else {
                phase
            },
            DownloadEvent::Status(status) => if phase == JobPhase::Polling || phase == JobPhase::Waiting {
                match status {
                    Ok(list) => if all_finished(list.0@) {
                        JobPhase::Done(DownloadOutcome::Completed)
                    } else {
                        JobPhase::Waiting
                    },
                    Err(_) => JobPhase::Done(DownloadOutcome::Failed(FailureStage::Status)),
                }
            } else {
                phase
            },
        },
    }
}

/// `after` is `before` once it took in `event`: the phase moved on, and the
/// fetched text was kept where it was awaited.
pub open spec fn job_stepped(before: DownloadJob, event: DownloadEvent, after: DownloadJob) -> bool {
    &&& after.spec_phase() == next_phase(before.spec_phase(), event)
    &&& after.spec_locator() == before.spec_locator()
    &&& after.spec_path() == before.spec_path()
    &&& before.spec_phase() == JobPhase::Fetching ==> (event matches DownloadEvent::Fetched(Ok(text))
        ==> after.spec_content() == text@)
    &&& !(before.spec_phase() == JobPhase::Fetching && event matches DownloadEvent::Fetched(Ok(_)))
        ==> after.spec_content() == before.spec_content()
}

pub open spec fn is_fresh_phase(phase: JobPhase) -> bool {
    phase == JobPhase::Checking || phase == JobPhase::Submitting || phase == JobPhase::Polling
}

/// One download: its locator, the path it saves to (direct downloads only), the
/// content fetched so far, and where it stands.
pub struct DownloadJob {
    locator: String,
    path: String,
    content: String,
    phase: JobPhase,
}

impl DownloadJob {
    pub closed spec fn spec_locator(&self) -> Seq<char> {
        self.locator@
    }

    pub closed spec fn spec_path(&self) -> Seq<char> {
        self.path@
    }

    pub closed spec fn spec_content(&self) -> Seq<char> {
        self.content@
    }

    pub closed spec fn spec_phase(&self) -> JobPhase {
        self.phase
    }

    /// A download fetched directly from `locator` and saved at `path`, unless a
    /// file is there already.
    pub fn direct(locator: &str, path: String) -> (r: Self)
        ensures
            r.spec_locator() == locator@,
            r.spec_path() == path@,
            r.spec_phase() == JobPhase::Checking,
    {
        DownloadJob { locator: String::from_str(locator), path, content: String::new(), phase: JobPhase::Checking }
    }

    /// A download handed to the backend, which saves it itself; the job ends
    /// when every transfer of the backend has finished.
    pub fn delegated(locator: &str) -> (r: Self)
        ensures
            r.spec_locator() == locator@,
            r.spec_phase() == JobPhase::Submitting,
    {
        DownloadJob { locator: String::from_str(locator), path: String::new(), content: String::new(), phase: JobPhase::Submitting }
    }

    /// Waiting, with nothing handed over, until every transfer of the backend has finished.
    pub fn completion_watch() -> (r: Self)
        ensures
            r.spec_phase() == JobPhase::Polling,
    {
        DownloadJob { locator: String::new(), path: String::new(), content: String::new(), phase: JobPhase::Polling }
    }

    pub fn locator(&self) -> (r: &str)
        ensures
            r@ == self.spec_locator(),
    {
        self.locator.as_str()
    }

    pub fn path(&self) -> (r: &str)
        ensures
            r@ == self.spec_path(),
    {
        self.path.as_str()
    }

    /// The content to persist.
    pub fn content(&self) -> (r: &str)
        ensures
            r@ == self.spec_content(),
    {
        self.content.as_str()
    }

    pub fn phase(&self) -> (r: JobPhase)
        ensures
            r == self.spec_phase(),
    {
        self.phase
    }

    /// Whether the job has not answered any event yet.
    pub fn is_fresh(&self) -> (r: bool)
        ensures
            r == is_fresh_phase(self.spec_phase()),
    {
        match self.phase {
            JobPhase::Checking | JobPhase::Submitting | JobPhase::Polling => true,
            _ => false,
        }
    }

    /// What the caller must do next.
    pub fn action(&self) -> (r: DownloadAction)
        ensures
            r == pending_action(self.spec_phase()),
    {
        match self.phase {
            JobPhase::Checking => DownloadAction::CheckExists,
            JobPhase::Fetching => DownloadAction::Fetch,
            JobPhase::Persisting => DownloadAction::Persist,
            JobPhase::Submitting => DownloadAction::Submit,
            JobPhase::Polling => DownloadAction::Poll,
            JobPhase::Waiting => DownloadAction::WaitAndPoll,
            JobPhase::Done(outcome) => DownloadAction::Finish(outcome),
        }
    }

    /// Takes in what the caller observed and says what to do next.
    pub fn step(&mut self, event: DownloadEvent) -> (r: DownloadAction)
        ensures
            job_stepped(*old(self), event, *final(self)),
            r == pending_action(final(self).spec_phase()),
    {
        let phase = self.phase;
        let next = match phase {
            JobPhase::Done(_) => phase,
            _ => match event {
                DownloadEvent::Cancelled => JobPhase::Done(DownloadOutcome::Failed(FailureStage::Cancelled)),
                DownloadEvent::Exists(exists) => if phase == JobPhase::Checking {
                    if exists {
                        JobPhase::Done(DownloadOutcome::Skipped)
                    } else {
                        JobPhase::Fetching
                    }
                } else {
                    phase
                },
                DownloadEvent::Fetched(fetched) => if phase == JobPhase::Fetching {
                    match fetched {
                        Ok(text) => {
                            self.content = text;
                            JobPhase::Persisting
                        },
                        Err(_) => JobPhase::Done(DownloadOutcome::Failed(FailureStage::Fetch)),
                    }
                } else {
                    phase
                },
                DownloadEvent::Persisted(persisted) => if phase == JobPhase::Persisting {
                    match persisted {
                        Ok(_) => JobPhase::Done(DownloadOutcome::Completed),
                        Err(_) => JobPhase::Done(DownloadOutcome::Failed(FailureStage::Persist)),
                    }
                } else {
                    phase
                },
                DownloadEvent::Submitted(submitted) => if phase == JobPhase::Submitting {
                    match submitted {
                        Ok(_) => JobPhase::Polling,
                        Err(_) => JobPhase::Done(DownloadOutcome::Failed(FailureStage::Submit)),
                    }
                } else {
                    phase
                },
                DownloadEvent::Status(status) => if phase == JobPhase::Polling || phase == JobPhase::Waiting {
                    match status {
                        Ok(list) => if list.has_unfinished() {
                            JobPhase::Waiting
                        } else {
                            JobPhase::Done(DownloadOutcome::Completed)
                        },
                        Err(_) => JobPhase::Done(DownloadOutcome::Failed(FailureStage::Status)),
                    }
                } else {
                    phase
                },
            },
        };
        self.phase = next;
        self.action()
    }

    /// The result a finished job reports, naming the locator or path that failed.
    pub fn result(&self) -> (r: Result<(), FileDownloaderError>)
        ensures
            r is Ok <==> (self.spec_phase() == JobPhase::Done(DownloadOutcome::Skipped)
                || self.spec_phase() == JobPhase::Done(DownloadOutcome::Completed)),
            r matches Err(e) ==> (self.spec_phase() matches JobPhase::Done(DownloadOutcome::Failed(stage))
                && e.stage == stage && e.target@ == (if stage == FailureStage::Persist {
                self.spec_path()
            } else {
                self.spec_locator()
            })) || (!(self.spec_phase() is Done) && e.stage == FailureStage::Cancelled
                && e.target@ == self.spec_locator()),
    {
        match self.phase {
            JobPhase::Done(DownloadOutcome::Skipped) | JobPhase::Done(DownloadOutcome::Completed) => Ok(()),
            JobPhase::Done(DownloadOutcome::Failed(stage)) => {
                let target = if stage == FailureStage::Persist {
                    self.path.clone()
                } else {
                    self.locator.clone()
                };
                Err(FileDownloaderError { stage, target })
            },
            _ => Err(FileDownloaderError { stage: FailureStage::Cancelled, target: self.locator.clone() }),
        }
    }
}

/// Downloading twice to a destination that names the file, or with a name hint:
/// both jobs target the same path, whatever basename either would have
/// generated; and once a file is there, the second job ends at once, skipped and
/// successful, without asking for a fetch or a write.
pub proof fn lemma_repeat_download_is_skipped(
    d: Destination,
    hint: Option<Seq<char>>,
    default_folder: Seq<char>,
    extension: Seq<char>,
    first: DownloadJob,
    second: DownloadJob,
    first_generated: Seq<char>,
    second_generated: Seq<char>,
)
    requires
        chosen_basename(d, hint) is Some,
        first.spec_path() == resolved_path(d, hint, default_folder, extension, first_generated),
        second.spec_path() == resolved_path(d, hint, default_folder, extension, second_generated),
        second.spec_phase() == JobPhase::Checking,
    ensures
        second.spec_path() == first.spec_path(),
        next_phase(second.spec_phase(), DownloadEvent::Exists(true)) == JobPhase::Done(DownloadOutcome::Skipped),
        pending_action(next_phase(second.spec_phase(), DownloadEvent::Exists(true))) == DownloadAction::Finish(
            DownloadOutcome::Skipped,
        ),
{
}

/// The file name that the `i`-th subtitle text of a title is saved under.
pub fn sub_file_name(anime_name: &str, i: u32) -> (r: String)
    ensures
        r@ == "tmp/"@ + anime_name@ + seq!['-'] + decimal(i as nat) + ".srt"@,
{
    let mut name = String::from_str("tmp/");
    name.append(anime_name);
    push_char(&mut name, '-');
    write_decimal(&mut name, i);
    name.append(".srt");
    name
}

/// Downloads run one after another: each job runs until it ends, its outcome is
/// recorded, and the next job starts, whether the last one failed or not.
pub struct BatchDownload {
    active: Option<DownloadJob>,
    queued: Vec<DownloadJob>,
    outcomes: Vec<DownloadOutcome>,
}

impl BatchDownload {
    pub closed spec fn spec_active(&self) -> Option<DownloadJob> {
        self.active
    }

    pub closed spec fn spec_queued(&self) -> Seq<DownloadJob> {
        self.queued@
    }

    /// The outcomes of the jobs that ended, in order.
    pub closed spec fn spec_outcomes(&self) -> Seq<DownloadOutcome> {
        self.outcomes@
    }

    pub open spec fn wf(&self) -> bool {
        &&& self.spec_active() matches Some(job) ==> !(job.spec_phase() is Done)
        &&& forall|k: int| 0 <= k < self.spec_queued().len() ==> is_fresh_phase(#[trigger] self.spec_queued()[k].spec_phase())
    }

    pub fn new(jobs: Vec<DownloadJob>) -> (r: Self)
        requires
            forall|k: int| 0 <= k < jobs@.len() ==> is_fresh_phase(#[trigger] jobs@[k].spec_phase()),
        ensures
            r.wf(),
            r.spec_outcomes().len() == 0,
            jobs@.len() == 0 ==> r.spec_active() is None && r.spec_queued().len() == 0,
            jobs@.len() > 0 ==> r.spec_active() == Some(jobs@[0]) && r.spec_queued() == jobs@.drop_first(),
    {
        let mut queued = jobs;
        let active = if queued.len() > 0 {
            Some(queued.remove(0))
        } else {
            None
        };
        let r = BatchDownload { active, queued, outcomes: Vec::new() };
        assert(r.spec_queued() =~= jobs@.drop_first() || jobs@.len() == 0);
        r
    }

    /// Whether every job has ended.
    pub fn is_done(&self) -> (r: bool)
        ensures
            r == self.spec_active() is None,
    {
        self.active.is_none()
    }

    /// The job that runs now.
    pub fn current(&self) -> (r: Option<&DownloadJob>)
        ensures
            r == match self.spec_active() {
                Some(job) => Some(&job),
                None => None::<&DownloadJob>,
            },
    {
        match &self.active {
            Some(job) => Some(job),
            None => None,
        }
    }

    /// The outcomes of the jobs that ended, in order.
    pub fn outcomes(&self) -> (r: &Vec<DownloadOutcome>)
        ensures
            r@ == self.spec_outcomes(),
    {
        &self.outcomes
    }

    /// What the caller must do next for the running job; `None` once all ended.
    pub fn action(&self) -> (r: Option<DownloadAction>)
        ensures
            r == match self.spec_active() {
                Some(job) => Some(pending_action(job.spec_phase())),
                None => None::<DownloadAction>,
            },
    {
        match &self.active {
            Some(job) => Some(job.action()),
            None => None,
        }
    }

    /// Takes in what the caller observed for the running job. When that job ends,
    /// its outcome is recorded and the next job starts.
    pub fn step(&mut self, event: DownloadEvent) -> (r: Option<DownloadAction>)
        requires
            old(self).wf(),
        ensures
            final(self).wf(),
            old(self).spec_active() is None ==> *final(self) == *old(self) && r is None,
            old(self).spec_active() matches Some(job) ==> {
                let phase = next_phase(job.spec_phase(), event);
                match phase {
                    JobPhase::Done(outcome) => {
                    &&& final(self).spec_outcomes() == old(self).spec_outcomes().push(outcome)
                    &&& old(self).spec_queued().len() > 0 ==> final(self).spec_active() == Some(
                        old(self).spec_queued()[0],
                    ) && final(self).spec_queued() == old(self).spec_queued().drop_first() && r == Some(
                        pending_action(old(self).spec_queued()[0].spec_phase()),
                    )
                    &&& old(self).spec_queued().len() == 0 ==> final(self).spec_active() is None
                        && final(self).spec_queued().len() == 0 && r is None
                    },
                    _ => {
                    &&& final(self).spec_outcomes() == old(self).spec_outcomes()
                    &&& final(self).spec_queued() == old(self).spec_queued()
                    &&& final(self).spec_active() matches Some(after) && job_stepped(job, event, after)
                    &&& r == Some(pending_action(phase))
                    },
                }
            },
    {
        let active = self.active.take();
        match active {
            None => None,
            Some(mut job) => {
                let a = job.step(event);
                match job.phase() {
                    JobPhase::Done(outcome) => {
                        self.outcomes.push(outcome);
                        if self.queued.len() > 0 {
                            let next = self.queued.remove(0);
                            let na = next.action();
                            self.active = Some(next);
                            Some(na)
                        } else {
                            None
                        }
                    },
                    _ => {
                        self.active = Some(job);
                        Some(a)
                    },
                }
            },
        }
    }
}

/// Saves subtitle files under a default folder, with the `srt` extension.
pub struct AnimeSubsDownloader {
    default_folder: String,
}

impl AnimeSubsDownloader {
    pub closed spec fn spec_default_folder(&self) -> Seq<char> {
        self.default_folder@
    }

    pub fn new() -> (r: Self)
        ensures
            r.spec_default_folder() == DEFAULT_FOLDER@,
    {
        AnimeSubsDownloader { default_folder: String::from_str(DEFAULT_FOLDER) }
    }

    /// `job` is the direct download of `indexer` for `dest`: it starts by checking
    /// for the file, fetches from the indexer's locator, and saves at the path the
    /// destination resolves to with the indexer's name as the hint.
    pub open spec fn planned_for(&self, indexer: Indexer, dest: Destination, job: DownloadJob) -> bool {
        &&& job.spec_locator() == indexer.spec_uri()
        &&& job.spec_phase() == JobPhase::Checking
        &&& chosen_basename(dest, Some(indexer.spec_name())) is Some ==> job.spec_path() == resolved_path(
            dest,
            Some(indexer.spec_name()),
            self.spec_default_folder(),
            DEFAULT_EXTENSION@,
            Seq::empty(),
        )
        &&& exists|t: Timestamp, n: u32|
            t.wf() && job.spec_path() == resolved_path(
                dest,
                Some(indexer.spec_name()),
                self.spec_default_folder(),
                DEFAULT_EXTENSION@,
                generated_basename(t, n),
            )
    }

    /// The path that a subtitle file for `destination` is saved at.
    pub fn create_file_path(&self, destination: &Destination, file_basename_hint: Option<&str>) -> (r: String)
        ensures
            chosen_basename(*destination, hint_view(file_basename_hint)) is Some ==> r@ == resolved_path(
                *destination,
                hint_view(file_basename_hint),
                self.spec_default_folder(),
                DEFAULT_EXTENSION@,
                Seq::empty(),
            ),
            exists|t: Timestamp, n: u32|
                t.wf() && r@ == resolved_path(
                    *destination,
                    hint_view(file_basename_hint),
                    self.spec_default_folder(),
                    DEFAULT_EXTENSION@,
                    generated_basename(t, n),
                ),
    {
        resolve_destination(destination, file_basename_hint, self.default_folder.as_str(), DEFAULT_EXTENSION)
    }

    /// The job that saves the text at `uri` for `dest`.
    pub fn plan_uri_download(&self, uri: &str, dest: &Destination) -> (r: DownloadJob)
        ensures
            r.spec_locator() == uri@,
            r.spec_phase() == JobPhase::Checking,
            chosen_basename(*dest, None) is Some ==> r.spec_path() == resolved_path(
                *dest,
                None,
                self.spec_default_folder(),
                DEFAULT_EXTENSION@,
                Seq::empty(),
            ),
            exists|t: Timestamp, n: u32|
                t.wf() && r.spec_path() == resolved_path(
                    *dest,
                    None,
                    self.spec_default_folder(),
                    DEFAULT_EXTENSION@,
                    generated_basename(t, n),
                ),
    {
        let path = self.create_file_path(dest, None);
        DownloadJob::direct(uri, path)
    }

    /// The job that saves the text of `indexer` for `dest`, named after it
    /// where the destination names no file.
    pub fn plan_indexer_download(&self, indexer: &Indexer, dest: &Destination) -> (r: DownloadJob)
        ensures
            self.planned_for(*indexer, *dest, r),
    {
        let path = self.create_file_path(dest, Some(indexer.name()));
        DownloadJob::direct(indexer.uri(), path)
    }

    /// One job per indexer, in order, each run to its end whatever the others did:
    /// the first runs now, the others are queued.
    pub fn plan_indexers_download(&self, indexers: &Vec<Indexer>, dest: &Destination) -> (r: BatchDownload)
        ensures
            r.wf(),
            r.spec_outcomes().len() == 0,
            indexers@.len() == 0 ==> r.spec_active() is None && r.spec_queued().len() == 0,
            indexers@.len() > 0 ==> (r.spec_active() matches Some(job) && self.planned_for(
                indexers@[0],
                *dest,
                job,
            )),
            indexers@.len() > 0 ==> r.spec_queued().len() == indexers@.len() - 1,
            forall|k: int|
                0 <= k < r.spec_queued().len() ==> self.planned_for(
                    indexers@[k + 1],
                    *dest,
                    #[trigger] r.spec_queued()[k],
                ),
    {
        let mut jobs: Vec<DownloadJob> = Vec::new();
        let mut k: usize = 0;
        while k < indexers.len()
            invariant
                k <= indexers@.len(),
                jobs@.len() == k,
                forall|j: int| 0 <= j < k ==> self.planned_for(indexers@[j], *dest, #[trigger] jobs@[j]),
            decreases indexers.len() - k,
        {
            jobs.push(self.plan_indexer_download(&indexers[k], dest));
            k = k + 1;
        }
        let batch = BatchDownload::new(jobs);
        assert forall|j: int| 0 <= j < batch.spec_queued().len() implies self.planned_for(
            indexers@[j + 1],
            *dest,
            #[trigger] batch.spec_queued()[j],
        ) by {
            assert(batch.spec_queued()[j] == jobs@[j + 1]);
        }
        batch
    }
}

/// Fetches text over HTTP.
pub struct ReqwestDownloader;

impl ReqwestDownloader {
    pub fn new() -> (r: Self) {
        ReqwestDownloader
    }
}

} // verus!
