use anime_fetch::indexer::Indexer;
use anime_fetch::raws::{anime_raw_query_url, search_anime};
use anime_fetch::torrent::{QBitTorrentClient, Torrent, TorrentList};

#[test]
fn anime_search_test_anime_name() {
    let anime_name = String::from("One Piece");
    let result = search_anime(anime_name);
    assert_eq!(result.anime_name, "One Piece");
}

#[test]
fn anime_search_test_anime_raw_magnet() {
    let anime_name = String::from("One Piece");
    let result = search_anime(anime_name);
    assert_eq!(result.anime_raw_magnet, "");
}

#[test]
fn indexer_keeps_name_and_uri() {
    let indexer = Indexer::new("Bocchi the Rock!", "https://kitsunekko.net/bocchi");
    assert_eq!(indexer.name(), "Bocchi the Rock!");
    assert_eq!(indexer.uri(), "https://kitsunekko.net/bocchi");
}

#[test]
fn raw_query_url_for_title() {
    assert_eq!(
        anime_raw_query_url("One Piece"),
        "https://nyaa.si/?f=0&c=1_4&q=One Piece&s=seeders&o=desc"
    );
}

fn torrent(state: &str, size: i64, downloaded: i64) -> Torrent {
    Torrent {
        hash: "abc".to_string(),
        name: "episode".to_string(),
        size,
        downloaded,
        state: state.to_string(),
    }
}

#[test]
fn uploading_is_finished() {
    assert!(torrent("uploading", 1, 1).finished());
    assert!(!torrent("downloading", 1, 0).finished());
    assert!(!torrent("stalledDL", 1, 0).finished());
}

#[test]
fn progress_sums_all_transfers() {
    let list = TorrentList(vec![torrent("uploading", 100, 100), torrent("downloading", 250, 40)]);
    assert_eq!(list.progress(), (350, 140));
    assert!(list.has_unfinished());
    let none = TorrentList(Vec::new());
    assert_eq!(none.progress(), (0, 0));
    assert!(!none.has_unfinished());
}

#[test]
fn client_endpoints() {
    let client = QBitTorrentClient::new();
    assert_eq!(client.endpoint("torrents/add"), "http://127.0.0.1:8080/api/v2/torrents/add");
    let form = client.add_form("magnet:?xt=1");
    assert_eq!(form[0], ("urls".to_string(), "magnet:?xt=1".to_string()));
    assert_eq!(form[1], ("savepath".to_string(), ".".to_string()));
}
