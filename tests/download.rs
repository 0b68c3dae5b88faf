use anime_fetch::destination::Destination;
use anime_fetch::download::{
    AnimeSubsDownloader, BatchDownload, DownloadAction, DownloadEvent, DownloadJob, DownloadOutcome, FailureStage,
    JobPhase, PersistError, ReqwestDownloader, StringDownloaderError, sub_file_name,
};
use anime_fetch::indexer::Indexer;
use anime_fetch::torrent::{Torrent, TorrentAddError, TorrentInfoError, TorrentList};

const MAGNET: &str = "magnet:?xt=urn:btih:4936206e05d1bb04084f50032d6b3704f271eff7&dn=%5BOhys-Raws%5D%20Bougyoryoku%202%20-%2006%20%28AT-X%201280x720%20x264%20AAC%29.mp4&tr=http%3A%2F%2Fnyaa.tracker.wf%3A7777%2Fannounce&tr=udp%3A%2F%2Fopen.stealth.si%3A80%2Fannounce&tr=udp%3A%2F%2Ftracker.opentrackr.org%3A1337%2Fannounce&tr=udp%3A%2F%2Fexodus.desync.com%3A6969%2Fannounce&tr=udp%3A%2F%2Ftracker.torrent.eu.org%3A451%2Fannounce";

fn torrent(state: &str, size: i64, downloaded: i64) -> Torrent {
    Torrent {
        hash: "h".to_string(),
        name: "n".to_string(),
        size,
        downloaded,
        state: state.to_string(),
    }
}

#[test]
fn client_test_download_uri_to_file() {
    let mut job = DownloadJob::delegated(MAGNET);
    assert_eq!(job.action(), DownloadAction::Submit);
    assert_eq!(job.locator(), MAGNET);
    assert_eq!(job.step(DownloadEvent::Submitted(Ok(()))), DownloadAction::Poll);
    let done = TorrentList(vec![torrent("uploading", 10, 10)]);
    assert_eq!(
        job.step(DownloadEvent::Status(Ok(done))),
        DownloadAction::Finish(DownloadOutcome::Completed)
    );
    assert!(job.result().is_ok());
}

#[test]
fn downloader_test_download_uri_to_file() {
    let mut job = DownloadJob::delegated(MAGNET);
    assert_eq!(job.step(DownloadEvent::Submitted(Ok(()))), DownloadAction::Poll);
    let busy = TorrentList(vec![torrent("uploading", 10, 10), torrent("downloading", 20, 5)]);
    assert_eq!(job.step(DownloadEvent::Status(Ok(busy))), DownloadAction::WaitAndPoll);
    let busy = TorrentList(vec![torrent("uploading", 10, 10), torrent("downloading", 20, 15)]);
    assert_eq!(job.step(DownloadEvent::Status(Ok(busy))), DownloadAction::WaitAndPoll);
    let done = TorrentList(vec![torrent("uploading", 10, 10), torrent("uploading", 20, 20)]);
    assert_eq!(
        job.step(DownloadEvent::Status(Ok(done))),
        DownloadAction::Finish(DownloadOutcome::Completed)
    );
}

#[test]
fn rejected_submission_fails_without_polling() {
    let mut job = DownloadJob::delegated("__BROKEN__MAGNET__LINK__");
    assert_eq!(
        job.step(DownloadEvent::Submitted(Err(TorrentAddError))),
        DownloadAction::Finish(DownloadOutcome::Failed(FailureStage::Submit))
    );
    let err = job.result().unwrap_err();
    assert_eq!(err.stage, FailureStage::Submit);
    assert_eq!(err.target, "__BROKEN__MAGNET__LINK__");
}

#[test]
fn failed_status_query_fails_the_watch() {
    let mut watch = DownloadJob::completion_watch();
    assert_eq!(watch.action(), DownloadAction::Poll);
    assert_eq!(
        watch.step(DownloadEvent::Status(Err(TorrentInfoError))),
        DownloadAction::Finish(DownloadOutcome::Failed(FailureStage::Status))
    );
}

#[test]
fn empty_transfer_list_counts_as_finished() {
    let mut watch = DownloadJob::completion_watch();
    assert_eq!(
        watch.step(DownloadEvent::Status(Ok(TorrentList(Vec::new())))),
        DownloadAction::Finish(DownloadOutcome::Completed)
    );
}

#[test]
fn cancellation_ends_polling() {
    let mut watch = DownloadJob::completion_watch();
    let busy = TorrentList(vec![torrent("downloading", 20, 5)]);
    assert_eq!(watch.step(DownloadEvent::Status(Ok(busy))), DownloadAction::WaitAndPoll);
    assert_eq!(
        watch.step(DownloadEvent::Cancelled),
        DownloadAction::Finish(DownloadOutcome::Failed(FailureStage::Cancelled))
    );
}

#[test]
fn direct_download_fetches_then_persists() {
    let downloader = AnimeSubsDownloader::new();
    let indexer = Indexer::new("episode-01", "https://kitsunekko.net/episode-01.srt");
    let mut job = downloader.plan_indexer_download(&indexer, &Destination::Default);
    assert_eq!(job.path(), "subs/episode-01.srt");
    assert_eq!(job.action(), DownloadAction::CheckExists);
    assert_eq!(job.step(DownloadEvent::Exists(false)), DownloadAction::Fetch);
    assert_eq!(job.locator(), "https://kitsunekko.net/episode-01.srt");
    assert_eq!(job.step(DownloadEvent::Fetched(Ok("1\n00:00 --> 00:01\nhi".to_string()))), DownloadAction::Persist);
    assert_eq!(job.content(), "1\n00:00 --> 00:01\nhi");
    assert_eq!(job.step(DownloadEvent::Persisted(Ok(()))), DownloadAction::Finish(DownloadOutcome::Completed));
    assert!(job.result().is_ok());
}

#[test]
fn second_download_to_existing_file_is_skipped() {
    let downloader = AnimeSubsDownloader::new();
    let dest = Destination::GivenFolderGivenFileBasename("test".to_string(), "hello".to_string());
    let mut first = downloader.plan_uri_download("https://example.org/hello.srt", &dest);
    assert_eq!(first.step(DownloadEvent::Exists(false)), DownloadAction::Fetch);
    assert_eq!(first.step(DownloadEvent::Fetched(Ok("Hello world".to_string()))), DownloadAction::Persist);
    assert_eq!(first.step(DownloadEvent::Persisted(Ok(()))), DownloadAction::Finish(DownloadOutcome::Completed));

    let mut second = downloader.plan_uri_download("https://example.org/hello.srt", &dest);
    assert_eq!(second.path(), first.path());
    assert_eq!(second.step(DownloadEvent::Exists(true)), DownloadAction::Finish(DownloadOutcome::Skipped));
    assert!(second.result().is_ok());
    assert!(first.result().is_ok());
}

#[test]
fn fetch_failure_names_the_locator() {
    let mut job = DownloadJob::direct("https://example.org/a.srt", "subs/a.srt".to_string());
    assert_eq!(job.step(DownloadEvent::Exists(false)), DownloadAction::Fetch);
    assert_eq!(
        job.step(DownloadEvent::Fetched(Err(StringDownloaderError))),
        DownloadAction::Finish(DownloadOutcome::Failed(FailureStage::Fetch))
    );
    let err = job.result().unwrap_err();
    assert_eq!(err.target, "https://example.org/a.srt");
}

#[test]
fn write_failure_names_the_path() {
    let mut job = DownloadJob::direct("https://example.org/a.srt", "subs/a.srt".to_string());
    job.step(DownloadEvent::Exists(false));
    job.step(DownloadEvent::Fetched(Ok("text".to_string())));
    assert_eq!(
        job.step(DownloadEvent::Persisted(Err(PersistError::CreateFolder))),
        DownloadAction::Finish(DownloadOutcome::Failed(FailureStage::Persist))
    );
    let err = job.result().unwrap_err();
    assert_eq!(err.stage, FailureStage::Persist);
    assert_eq!(err.target, "subs/a.srt");
}

#[test]
fn unexpected_event_leaves_job_waiting() {
    let mut job = DownloadJob::direct("https://example.org/a.srt", "subs/a.srt".to_string());
    assert_eq!(job.step(DownloadEvent::Persisted(Ok(()))), DownloadAction::CheckExists);
    assert_eq!(job.phase(), JobPhase::Checking);
    assert!(job.is_fresh());
}

#[test]
fn batch_goes_on_after_a_failed_item() {
    let downloader = AnimeSubsDownloader::new();
    let sources = vec![
        Indexer::new("one", "https://example.org/one.srt"),
        Indexer::new("two", "https://example.org/two.srt"),
        Indexer::new("three", "https://example.org/three.srt"),
    ];
    let mut batch = downloader.plan_indexers_download(&sources, &Destination::Default);
    assert_eq!(batch.action(), Some(DownloadAction::CheckExists));
    assert_eq!(batch.current().unwrap().path(), "subs/one.srt");
    batch.step(DownloadEvent::Exists(false));
    batch.step(DownloadEvent::Fetched(Ok("one".to_string())));
    assert_eq!(batch.step(DownloadEvent::Persisted(Ok(()))), Some(DownloadAction::CheckExists));

    assert_eq!(batch.current().unwrap().locator(), "https://example.org/two.srt");
    batch.step(DownloadEvent::Exists(false));
    assert_eq!(
        batch.step(DownloadEvent::Fetched(Err(StringDownloaderError))),
        Some(DownloadAction::CheckExists)
    );

    assert_eq!(batch.current().unwrap().locator(), "https://example.org/three.srt");
    batch.step(DownloadEvent::Exists(false));
    batch.step(DownloadEvent::Fetched(Ok("three".to_string())));
    assert_eq!(batch.step(DownloadEvent::Persisted(Ok(()))), None);
    assert!(batch.is_done());
    assert_eq!(
        batch.outcomes(),
        &vec![
            DownloadOutcome::Completed,
            DownloadOutcome::Failed(FailureStage::Fetch),
            DownloadOutcome::Completed
        ]
    );
}

#[test]
fn empty_batch_is_done_at_once() {
    let mut batch = BatchDownload::new(Vec::new());
    assert!(batch.is_done());
    assert_eq!(batch.action(), None);
    assert_eq!(batch.step(DownloadEvent::Exists(true)), None);
    assert!(batch.outcomes().is_empty());
}

#[test]
fn http_downloader_can_be_made() {
    let _downloader = ReqwestDownloader::new();
}

#[test]
fn subtitle_file_names_are_numbered() {
    assert_eq!(sub_file_name("One Piece", 0), "tmp/One Piece-0.srt");
    assert_eq!(sub_file_name("One Piece", 12), "tmp/One Piece-12.srt");
}

#[test]
fn batch_skips_an_existing_file_and_saves_the_others_at_their_paths() {
    let downloader = AnimeSubsDownloader::new();
    let sources = vec![
        Indexer::new("one", "https://example.org/one.srt"),
        Indexer::new("two", "https://example.org/two.srt"),
    ];
    let dest = Destination::GivenFolderGuessFileBasename("test".to_string());
    let mut batch = downloader.plan_indexers_download(&sources, &dest);
    assert_eq!(batch.current().unwrap().path(), "test/one.srt");
    assert_eq!(batch.step(DownloadEvent::Exists(true)), Some(DownloadAction::CheckExists));
    assert_eq!(batch.current().unwrap().path(), "test/two.srt");
    assert_eq!(batch.step(DownloadEvent::Exists(false)), Some(DownloadAction::Fetch));
    assert_eq!(batch.step(DownloadEvent::Fetched(Ok("two".to_string()))), Some(DownloadAction::Persist));
    assert_eq!(batch.current().unwrap().content(), "two");
    assert_eq!(batch.step(DownloadEvent::Persisted(Ok(()))), None);
    assert_eq!(batch.outcomes(), &vec![DownloadOutcome::Skipped, DownloadOutcome::Completed]);
}
