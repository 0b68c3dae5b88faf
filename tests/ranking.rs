use anime_fetch::subs::{fetch_best_indexers_for, fuzzy_match_indexers, AnimeIndexer};

fn bocchi_the_mock() -> Vec<AnimeIndexer> {
    vec![
        AnimeIndexer {
            name: "Bocchi the Rock! 2".to_string(),
            url: "https://kitsunekko.net/bocchi-the-rock-2".to_string(),
        },
        AnimeIndexer {
            name: "Bocchi the Rock!".to_string(),
            url: "https://kitsunekko.net/bocchi-the-rock".to_string(),
        },
    ]
}

fn titles(names: &[&str]) -> Vec<AnimeIndexer> {
    names
        .iter()
        .map(|n| AnimeIndexer { name: n.to_string(), url: format!("https://kitsunekko.net/{}", n) })
        .collect()
}

#[test]
fn test_fuzzy_match_indexers_exact_match_season_1() {
    let mock_anime_list = bocchi_the_mock();

    let matches = fuzzy_match_indexers("Bocchi the Rock!", mock_anime_list);
    assert_eq!(matches.len(), 2);
    assert_eq!(matches[0].name, "Bocchi the Rock!");
    assert_eq!(matches[1].name, "Bocchi the Rock! 2");
}

#[test]
fn test_fuzzy_match_indexers_incomplete_equal_score() {
    let mock_anime_list = bocchi_the_mock();
    let matches = fuzzy_match_indexers("Bocchi", mock_anime_list);
    assert_eq!(matches.len(), 2);
    assert_eq!(matches[0].name, "Bocchi the Rock!");
    assert_eq!(matches[1].name, "Bocchi the Rock! 2");
}

#[test]
fn test_fuzzy_match_indexers_incomplete_better_score_exclusive() {
    let mock_anime_list = bocchi_the_mock();
    let matches = fuzzy_match_indexers("Bocchi 2", mock_anime_list);
    assert_eq!(matches.len(), 1);
    assert_eq!(matches[0].name, "Bocchi the Rock! 2");
}

const RELIFE_LISTING: &str = r#"<table>
<tr><td colspan="2"><a href="/dirlist.php?dir=subtitles%2Fjapanese%2FReal+Life+Fantasy+Story+Collection%2F" class=""><strong>Real Life Fantasy Story Collection</strong></a></td></tr>
<tr><td colspan="2"><a href="/dirlist.php?dir=subtitles%2Fjapanese%2FReLife+Kanketsu+Hen%2F" class=""><strong>ReLife Kanketsu Hen</strong></a></td></tr>
<tr><td colspan="2"><a href="/dirlist.php?dir=subtitles%2Fjapanese%2FOne+Piece%2F" class=""><strong>One Piece</strong></a></td></tr>
<tr><td colspan="2"><a href="/dirlist.php?dir=subtitles%2Fjapanese%2FReLIFE%2F" class=""><strong>ReLIFE</strong></a></td></tr>
</table>"#;

#[test]
fn test_fetch_best_indexers_for_relife() {
    let matches = fetch_best_indexers_for("relife", RELIFE_LISTING).unwrap();
    assert!(matches.len() > 2);
    assert_eq!(matches[0].name, "ReLIFE");
    assert_eq!(matches[1].name, "ReLife Kanketsu Hen");
}

#[test]
fn ranking_twice_keeps_the_order() {
    let candidates = titles(&["Bocchi the Rock! 2", "Bocchi the Rock!", "Bocchi", "Rock", "Bocchi the Rock! 2"]);
    let once = fuzzy_match_indexers("Bocchi", candidates);
    let twice = fuzzy_match_indexers("Bocchi", once.clone());
    assert_eq!(once, twice);
}

#[test]
fn exact_match_ranks_first_whatever_the_case() {
    let candidates = titles(&["Bocchi the Rock! 2", "bocchi THE rock!", "Bocchi"]);
    let matches = fuzzy_match_indexers("Bocchi the Rock!", candidates);
    assert_eq!(matches[0].name, "bocchi THE rock!");
}

#[test]
fn closer_length_ranks_higher_on_equal_fuzzy_score() {
    let candidates = titles(&["Bocchi the Rock! 2", "Bocchi the Rock!"]);
    let matches = fuzzy_match_indexers("Bocchi", candidates);
    assert_eq!(matches[0].name, "Bocchi the Rock!");
}

#[test]
fn no_candidates_give_no_ranking() {
    let matches = fuzzy_match_indexers("Bocchi", Vec::new());
    assert!(matches.is_empty());
}

#[test]
fn unmatched_candidates_are_dropped() {
    let matches = fuzzy_match_indexers("zzz", titles(&["Bocchi", "One Piece"]));
    assert!(matches.is_empty());
}

#[test]
fn equal_candidates_keep_input_order() {
    let candidates = vec![
        AnimeIndexer { name: "Bocchi".to_string(), url: "first".to_string() },
        AnimeIndexer { name: "Bocchi".to_string(), url: "second".to_string() },
    ];
    let matches = fuzzy_match_indexers("Bocchi", candidates);
    assert_eq!(matches.len(), 2);
    assert_eq!(matches[0].url, "first");
    assert_eq!(matches[1].url, "second");
}

#[test]
fn listing_without_titles_gives_empty_ranking() {
    let matches = fetch_best_indexers_for("relife", "no titles here").unwrap();
    assert!(matches.is_empty());
}
