use mupl::action::Action;
use mupl::fuzzy_finder::rank_matches;
use mupl::fuzzy_finder::Data;

fn pool(items: &[&str]) -> Vec<String> {
    items.iter().map(|s| s.to_string()).collect()
}

#[test]
fn ranking_orders_by_edit_distance() {
    let p = pool(&["Alpha", "Beta", "Alphb"]);
    let first = rank_matches("Alph", &p);
    assert_eq!(first, pool(&["Alpha", "Alphb", "Beta"]));
    for _ in 0..5 {
        assert_eq!(rank_matches("Alph", &p), first);
    }
}

#[test]
fn ranking_keeps_pool_order_on_ties() {
    let p = pool(&["abd", "abc", "abx"]);
    assert_eq!(rank_matches("ab", &p), pool(&["abd", "abc", "abx"]));
    assert_eq!(rank_matches("abx", &p), pool(&["abx", "abd", "abc"]));
}

#[test]
fn ranking_drops_candidates_past_the_threshold() {
    let p = pool(&["kitten", "sitting", "a much longer title"]);
    assert_eq!(rank_matches("kitten", &p), pool(&["kitten", "sitting"]));
}

#[test]
fn empty_query_is_still_filtered() {
    let p = pool(&["abcdefg", "ab", "abcde", "abcdef"]);
    assert_eq!(rank_matches("", &p), pool(&["ab", "abcde"]));
}

#[test]
fn empty_pool_ranks_to_nothing() {
    assert!(rank_matches("x", &Vec::new()).is_empty());
}

#[test]
fn finder_reset_ranks_pool_against_empty_query() {
    let mut d = Data::new();
    assert_eq!(d.result_func(), None);
    d.reset("Play".to_string(), pool(&["rock", "jazz", "classical", "ab"]), Action::PlayPlaylist);
    assert_eq!(d.title(), "Play");
    assert_eq!(d.input(), "");
    assert_eq!(d.matches(), &pool(&["ab", "rock", "jazz"]));
    assert_eq!(d.selected(), Some(0));
    assert_eq!(d.result_func(), Some(Action::PlayPlaylist));
    assert!(d.check_finding());
    assert_eq!(d.output(), "ab");
}

#[test]
fn finder_reset_hides_long_candidates() {
    let mut d = Data::new();
    d.reset("Play".to_string(), pool(&["abcdefg"]), Action::PlayPlaylist);
    assert!(d.matches().is_empty());
    assert_eq!(d.selected(), None);
    assert!(!d.check_finding());
}

#[test]
fn finder_typing_ranks_and_selects_first() {
    let mut d = Data::new();
    d.reset("Play".to_string(), pool(&["rock", "jazz", "rocks"]), Action::PlayPlaylist);
    d.push_input('r');
    d.push_input('o');
    d.push_input('c');
    d.push_input('k');
    assert_eq!(d.input(), "rock");
    assert_eq!(d.matches(), &pool(&["rock", "rocks", "jazz"]));
    assert_eq!(d.selected(), Some(0));
    d.pop_input();
    assert_eq!(d.input(), "roc");
    assert_eq!(d.matches(), &pool(&["rock", "rocks", "jazz"]));
}

#[test]
fn finder_cycles_with_wraparound() {
    let mut d = Data::new();
    d.reset("Play".to_string(), pool(&["aa", "ab", "ac"]), Action::PlayPlaylist);
    d.push_input('a');
    assert_eq!(d.selected(), Some(0));
    d.next_match();
    d.next_match();
    assert_eq!(d.selected(), Some(2));
    d.next_match();
    assert_eq!(d.selected(), Some(0));
    d.previous_match();
    assert_eq!(d.selected(), Some(2));
    assert!(d.check_finding());
    assert_eq!(d.output(), "ac");
}

#[test]
fn finder_cycling_on_empty_results_is_noop() {
    let mut d = Data::new();
    d.reset("Play".to_string(), Vec::new(), Action::PlayPlaylist);
    d.push_input('z');
    assert!(d.matches().is_empty());
    d.next_match();
    d.previous_match();
    assert_eq!(d.selected(), None);
    assert!(!d.check_finding());
    assert_eq!(d.output(), "");
}

#[test]
fn pop_on_empty_query_keeps_it_empty() {
    let mut d = Data::new();
    d.reset("t".to_string(), pool(&["a"]), Action::EditPlaylist);
    d.pop_input();
    assert_eq!(d.input(), "");
    assert_eq!(d.matches(), &pool(&["a"]));
    assert_eq!(d.selected(), Some(0));
}
