use mupl::action::Action;
use mupl::confirmation;
use mupl::data::PlaylistStore;
use mupl::song::match_action;
use mupl::song::SinkCommand;
use mupl::song::SongAction;
use mupl::song::SongInfo;
use mupl::terminal::App;
use mupl::terminal::Key;
use mupl::terminal::Mode;

fn song(name: &str, duration: u32) -> SongInfo {
    SongInfo::new(name.to_string(), duration, format!("/music/{}", name))
}

fn store(entries: &[(&str, &[&str])]) -> PlaylistStore {
    PlaylistStore::from_entries(
        entries
            .iter()
            .map(|(n, t)| (n.to_string(), t.iter().map(|x| x.to_string()).collect()))
            .collect(),
    )
    .unwrap()
}

fn app(songs: Vec<SongInfo>) -> App {
    App::new(songs, store(&[("rock", &["b", "a"]), ("jazz", &[])]))
}

fn played(cmds: &[SongAction]) -> Vec<String> {
    cmds.iter()
        .filter_map(|c| match c {
            SongAction::AddSong(s) => Some(s.name.clone()),
            _ => None,
        })
        .collect()
}

fn typed(a: &mut App, text: &str) {
    for c in text.chars() {
        a.handle_key(Key::Char(c));
    }
}

#[test]
fn new_session_queues_initial_volume() {
    let mut a = app(vec![song("a", 5)]);
    assert_eq!(a.mode, Mode::Main);
    assert_eq!(a.volume, 50);
    let cmds = a.take_commands();
    assert_eq!(cmds.len(), 1);
    assert!(matches!(cmds[0], SongAction::Volume(50)));
    assert!(a.take_commands().is_empty());
}

#[test]
fn progress_wraps_and_advances_once() {
    let mut a = app(vec![song("a", 5), song("b", 7)]);
    a.take_commands();
    let mut zeros = 0;
    for _ in 0..6 {
        a.on_tick();
        if a.get_progress() == 0 {
            zeros += 1;
        }
    }
    assert_eq!(zeros, 1);
    assert_eq!(a.get_progress(), 0);
    assert_eq!(a.get_current_song_index(), 1);
    assert_eq!(played(&a.take_commands()), vec!["b".to_string()]);
}

#[test]
fn progress_advance_clamps_at_last_track() {
    let mut a = app(vec![song("a", 1)]);
    a.take_commands();
    a.on_tick();
    assert_eq!(a.get_progress(), 1);
    a.on_tick();
    assert_eq!(a.get_progress(), 0);
    assert_eq!(a.get_current_song_index(), 0);
    assert_eq!(played(&a.take_commands()), vec!["a".to_string()]);
}

#[test]
fn paused_tick_changes_nothing() {
    let mut a = app(vec![song("a", 5)]);
    a.handle_key(Key::Char(' '));
    assert!(a.paused);
    a.on_tick();
    assert_eq!(a.get_progress(), 0);
    a.handle_key(Key::Char(' '));
    assert!(!a.paused);
    a.on_tick();
    assert_eq!(a.get_progress(), 1);
}

#[test]
fn toggle_pause_without_tracks_is_noop() {
    let mut a = app(vec![]);
    a.take_commands();
    a.toggle_pause_song();
    assert!(!a.paused);
    assert!(a.take_commands().is_empty());
    a.on_tick();
    assert_eq!(a.get_progress(), 0);
}

#[test]
fn volume_is_clamped() {
    let mut a = app(vec![song("a", 5)]);
    a.volume = 95;
    a.handle_key(Key::Char('w'));
    assert_eq!(a.volume, 100);
    a.handle_key(Key::Char('w'));
    assert_eq!(a.volume, 100);
    a.volume = 3;
    a.change_volume(-10);
    assert_eq!(a.volume, 0);
    a.handle_key(Key::Char('b'));
    assert_eq!(a.volume, 0);
    let cmds = a.take_commands();
    assert!(matches!(cmds.last(), Some(SongAction::Volume(0))));
    a.change_volume(i32::MAX);
    assert_eq!(a.volume, 100);
}

#[test]
fn selection_moves_and_plays() {
    let mut a = app(vec![song("a", 5), song("b", 5)]);
    a.take_commands();
    a.handle_key(Key::Enter);
    assert!(a.take_commands().is_empty());
    a.handle_key(Key::Char('j'));
    a.handle_key(Key::Char('j'));
    assert_eq!(a.selected, Some(1));
    a.handle_key(Key::Char('j'));
    assert_eq!(a.selected, Some(0));
    a.handle_key(Key::Char('k'));
    assert_eq!(a.selected, Some(1));
    a.handle_key(Key::Enter);
    assert_eq!(a.get_current_song_index(), 1);
    assert_eq!(played(&a.take_commands()), vec!["b".to_string()]);
    a.handle_key(Key::Char('h'));
    assert_eq!(a.selected, None);
    a.handle_key(Key::Char('K'));
    a.handle_key(Key::Char('K'));
    assert_eq!(a.get_current_song_index(), 0);
    a.handle_key(Key::Char('J'));
    assert_eq!(a.get_current_song_index(), 1);
}

#[test]
fn quit_key_sets_quit() {
    let mut a = app(vec![]);
    a.handle_key(Key::Char('q'));
    assert!(a.quit);
}

#[test]
fn add_to_playlist_needs_a_selection() {
    let mut a = app(vec![song("a", 5)]);
    a.handle_key(Key::Char('a'));
    assert_eq!(a.mode, Mode::Main);
    a.handle_key(Key::Char('j'));
    a.handle_key(Key::Char('a'));
    assert_eq!(a.mode, Mode::AddToPlaylist);
    typed(&mut a, "jazz");
    a.handle_key(Key::Enter);
    assert_eq!(a.mode, Mode::Main);
    assert_eq!(a.playlists.tracks(&"jazz".to_string()), Some(vec!["a".to_string()]));
    assert!(a.take_playlists_changed());
    assert!(!a.take_playlists_changed());
}

#[test]
fn play_playlist_follows_its_order() {
    let mut a = app(vec![song("a", 1), song("b", 1)]);
    a.take_commands();
    a.handle_key(Key::Char('p'));
    assert_eq!(a.mode, Mode::PlayPlaylist);
    typed(&mut a, "rock");
    a.handle_key(Key::Enter);
    assert_eq!(a.mode, Mode::Main);
    assert_eq!(a.get_current_song_index(), 1);
    a.on_tick();
    a.on_tick();
    assert_eq!(a.get_current_song_index(), 0);
    assert!(a.playlist_info.is_some());
    a.on_tick();
    a.on_tick();
    assert!(a.playlist_info.is_none());
    assert_eq!(a.get_current_song_index(), 1);
    assert_eq!(
        played(&a.take_commands()),
        vec!["b".to_string(), "a".to_string(), "b".to_string()]
    );
}

#[test]
fn new_playlist_and_reset_confirmation() {
    let mut a = app(vec![]);
    a.handle_key(Key::Char('n'));
    assert_eq!(a.mode, Mode::TextPrompt);
    typed(&mut a, "pop");
    a.handle_key(Key::Enter);
    assert_eq!(a.mode, Mode::Main);
    assert_eq!(a.playlists.names().len(), 3);
    a.handle_key(Key::Char('n'));
    typed(&mut a, "rock");
    a.handle_key(Key::Enter);
    assert_eq!(a.mode, Mode::Confirmation);
    assert!(a.confirmation_data.highlight_pos());
    assert_eq!(a.confirmation_data.pos_action(), Some(Action::ResetPlaylist));
    a.handle_key(Key::Enter);
    assert_eq!(a.mode, Mode::Main);
    assert_eq!(a.playlists.tracks(&"rock".to_string()), Some(vec![]));
}

#[test]
fn confirmation_keys_move_highlight_and_escape_declines() {
    let mut a = app(vec![]);
    a.handle_key(Key::Char('n'));
    typed(&mut a, "rock");
    a.handle_key(Key::Enter);
    assert_eq!(a.mode, Mode::Confirmation);
    a.handle_key(Key::Left);
    assert!(!a.confirmation_data.highlight_pos());
    a.handle_key(Key::Right);
    assert!(a.confirmation_data.highlight_pos());
    a.handle_key(Key::Char('h'));
    assert!(!a.confirmation_data.highlight_pos());
    a.handle_key(Key::Tab);
    assert!(a.confirmation_data.highlight_pos());
    a.handle_key(Key::Esc);
    assert_eq!(a.mode, Mode::Main);
    assert_eq!(a.playlists.tracks(&"rock".to_string()).unwrap().len(), 2);
}

#[test]
fn modify_playlist_deletes_after_confirmation() {
    let mut a = app(vec![]);
    a.handle_key(Key::Char('m'));
    assert_eq!(a.mode, Mode::FuzzyFind);
    typed(&mut a, "rock");
    a.handle_key(Key::Enter);
    assert_eq!(a.mode, Mode::ModifyPlaylist);
    a.handle_key(Key::Char('j'));
    a.handle_key(Key::Char('d'));
    a.handle_key(Key::Esc);
    assert_eq!(a.mode, Mode::Confirmation);
    a.handle_key(Key::Enter);
    assert_eq!(a.mode, Mode::Main);
    assert!(a.edit_info.is_none());
    assert_eq!(a.playlists.tracks(&"rock".to_string()), Some(vec!["a".to_string()]));
}

#[test]
fn modify_playlist_without_changes_exits_directly() {
    let mut a = app(vec![]);
    a.handle_key(Key::Char('m'));
    typed(&mut a, "rock");
    a.handle_key(Key::Enter);
    a.handle_key(Key::Char('j'));
    a.handle_key(Key::Char('q'));
    assert_eq!(a.mode, Mode::Main);
    assert!(a.edit_info.is_none());
}

#[test]
fn escape_returns_to_main_from_every_mode() {
    let mut a = app(vec![song("a", 5)]);
    a.handle_key(Key::Esc);
    assert_eq!(a.mode, Mode::Main);
    for k in ['p', 'm', 'n'] {
        a.handle_key(Key::Char(k));
        assert_ne!(a.mode, Mode::Main);
        a.handle_key(Key::Esc);
        assert_eq!(a.mode, Mode::Main);
    }
    a.handle_key(Key::Char('j'));
    a.handle_key(Key::Char('a'));
    assert_eq!(a.mode, Mode::AddToPlaylist);
    a.handle_key(Key::Esc);
    assert_eq!(a.mode, Mode::Main);
    a.handle_key(Key::Char('m'));
    typed(&mut a, "rock");
    a.handle_key(Key::Enter);
    a.handle_key(Key::Char('j'));
    a.handle_key(Key::Char('d'));
    a.handle_key(Key::Esc);
    assert_eq!(a.mode, Mode::Confirmation);
    a.handle_key(Key::Esc);
    assert_eq!(a.mode, Mode::Main);
    assert_eq!(a.playlists.tracks(&"rock".to_string()).unwrap().len(), 2);
}

#[test]
fn finder_enter_without_results_stays() {
    let mut a = app(vec![]);
    a.handle_key(Key::Char('p'));
    typed(&mut a, "zzzzzzzzzzzz");
    a.handle_key(Key::Enter);
    assert_eq!(a.mode, Mode::PlayPlaylist);
}

#[test]
fn audio_actor_decisions() {
    let c = match_action(SongAction::AddSong(song("a", 3)), false);
    assert!(matches!(c, SinkCommand::Replace(ref f) if f == "/music/a"));
    assert!(matches!(match_action(SongAction::Volume(40), false), SinkCommand::SetVolume(40)));
    assert!(matches!(match_action(SongAction::Volume(140), false), SinkCommand::SetVolume(100)));
    assert!(matches!(match_action(SongAction::TogglePause, true), SinkCommand::Play));
    assert!(matches!(match_action(SongAction::TogglePause, false), SinkCommand::Pause));
}

#[test]
fn confirmation_texts_for_existing_playlist() {
    let mut a = app(vec![]);
    a.handle_key(Key::Char('n'));
    typed(&mut a, "jazz");
    a.handle_key(Key::Enter);
    assert_eq!(a.mode, Mode::Confirmation);
    assert_eq!(a.confirmation_data.message(), "Playlist already exists, reset it?");
    assert_eq!(a.confirmation_data.title(), "Reset Playlist");
    assert_eq!(a.text_prompt_data.output(), "jazz");
    assert_eq!(a.text_prompt_data.input(), "jazz");
}

#[test]
fn confirmation_texts_for_changed_edit() {
    let mut a = app(vec![]);
    a.handle_key(Key::Char('m'));
    typed(&mut a, "rock");
    a.handle_key(Key::Enter);
    assert_eq!(a.finder_data.output(), "rock");
    a.handle_key(Key::Char('j'));
    a.handle_key(Key::Char('d'));
    a.handle_key(Key::Char('q'));
    assert_eq!(a.confirmation_data.message(), "Apply changes to playlist?");
    assert_eq!(a.confirmation_data.title(), "Confirmation");
    a.handle_key(Key::Char('q'));
    assert_eq!(a.mode, Mode::Main);
    assert!(a.edit_info.is_none());
    assert_eq!(a.playlists.tracks(&"rock".to_string()).unwrap().len(), 2);
}

#[test]
fn missing_confirmation_action_is_logged() {
    let mut a = app(vec![]);
    confirmation::neg_response(&mut a);
    confirmation::pos_response(&mut a);
    assert_eq!(a.mode, Mode::Main);
    assert_eq!(a.debugger.messages.len(), 2);
    assert_eq!(a.debugger.messages[0], "No neg result func set.");
    assert_eq!(a.debugger.messages[1], "No pos result func set.");
    confirmation::response(&mut a);
    assert_eq!(a.debugger.messages[2], "No pos result func set.");
}

#[test]
fn finder_opens_ranked_against_empty_query() {
    let mut a = App::new(
        vec![],
        store(&[("a very long playlist name", &[]), ("rock", &[])]),
    );
    a.handle_key(Key::Char('p'));
    assert_eq!(a.finder_data.matches(), &vec!["rock".to_string()]);
    assert_eq!(a.finder_data.selected(), Some(0));
    a.handle_key(Key::Enter);
    assert_eq!(a.mode, Mode::Main);
    assert_eq!(a.finder_data.output(), "rock");
}
