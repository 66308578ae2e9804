use mupl::action::Action;
use mupl::confirmation;
use mupl::debug;
use mupl::load::is_music_extension;
use mupl::select::StatefulList;
use mupl::text_prompt;
use mupl::utils::format_time;

#[test]
fn confirmation_defaults_to_positive() {
    let d = confirmation::Data::new();
    assert!(d.highlight_pos());
    assert_eq!(d.highlighted_action(), None);
}

#[test]
fn confirmation_highlight_and_resolution() {
    let mut d = confirmation::Data::new();
    d.reset("Sure?".to_string(), "Title".to_string(), Action::ApplyEdit, Action::DiscardEdit);
    assert_eq!(d.message(), "Sure?");
    assert_eq!(d.title(), "Title");
    assert_eq!(d.highlighted_action(), Some(Action::ApplyEdit));
    d.set_highlight(false);
    assert_eq!(d.highlighted_action(), Some(Action::DiscardEdit));
    d.set_highlight(true);
    assert_eq!(d.highlighted_action(), Some(Action::ApplyEdit));
    d.toggle_highlight();
    assert!(!d.highlight_pos());
    assert_eq!(d.neg_action(), Some(Action::DiscardEdit));
    assert_eq!(d.pos_action(), Some(Action::ApplyEdit));
    d.reset("Again?".to_string(), "T".to_string(), Action::ResetPlaylist, Action::Dismiss);
    assert!(d.highlight_pos());
}

#[test]
fn text_prompt_edits_and_enters() {
    let mut d = text_prompt::Data::new();
    d.reset("New playlist", "Name:", Action::CreatePlaylist);
    assert_eq!(d.title(), "New playlist");
    assert_eq!(d.message(), "Name:");
    assert_eq!(d.result_func(), Some(Action::CreatePlaylist));
    d.push_input('m');
    d.push_input('i');
    d.push_input('x');
    d.pop_input();
    assert_eq!(d.input(), "mi");
    assert_eq!(d.output(), "");
    d.enter();
    assert_eq!(d.output(), "mi");
    d.pop_input();
    d.pop_input();
    d.pop_input();
    assert_eq!(d.input(), "");
}

#[test]
fn debug_log_keeps_last_ten() {
    let mut d = debug::Debug::new();
    for i in 0..12 {
        d.print(&format!("m{}", i));
    }
    assert_eq!(d.messages.len(), 10);
    assert_eq!(d.messages.front().unwrap(), "m2");
    assert_eq!(d.messages.back().unwrap(), "m11");
}

#[test]
fn format_time_pads_each_field() {
    assert_eq!(format_time(0), "00:00:00");
    assert_eq!(format_time(59), "00:00:59");
    assert_eq!(format_time(3661), "01:01:01");
    assert_eq!(format_time(86399), "23:59:59");
    assert_eq!(format_time(360000), "100:00:00");
}

#[test]
fn stateful_list_wraps_both_ways() {
    let mut l = StatefulList::with_items(vec![1, 2, 3]);
    assert_eq!(l.selected(), None);
    l.next();
    assert_eq!(l.selected(), Some(0));
    l.previous();
    assert_eq!(l.selected(), Some(2));
    l.next();
    assert_eq!(l.selected(), Some(0));
    l.unselect();
    l.previous();
    assert_eq!(l.selected(), Some(0));
}

#[test]
fn stateful_list_delete_moves_cursor_back() {
    let mut l = StatefulList::with_items(vec!['a', 'b', 'c']);
    l.select(2);
    l.delete_item(2);
    assert_eq!(l.items(), &vec!['a', 'b']);
    assert_eq!(l.selected(), Some(1));
    l.delete_item(0);
    l.delete_item(0);
    assert_eq!(l.len(), 0);
    assert_eq!(l.selected(), None);
    l.next();
    assert_eq!(l.selected(), None);
}

#[test]
fn music_extensions_are_recognised() {
    assert!(is_music_extension("wav"));
    assert!(is_music_extension("ogg"));
    assert!(is_music_extension("mp3"));
    assert!(!is_music_extension("flac"));
    assert!(!is_music_extension("mp"));
    assert!(!is_music_extension("MP3"));
    assert!(!is_music_extension(""));
}
