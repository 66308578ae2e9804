use vstd::prelude::*;

use crate::fuzzy_finder::views;
use crate::select::StatefulList;
use crate::terminal::App;
use crate::terminal::Key;
use crate::terminal::Mode;
use crate::terminal::is_bound;
use crate::terminal::escape_mode;
use crate::terminal::edit_changed;
use crate::action::Action;
use crate::select::next_cursor;
use crate::select::previous_cursor;

verus! {

/// An open playlist: its name, its tracks, the playback position in them and
/// an edit cursor over a working copy of them.
pub struct PlaylistInfo {
    pub playlist: String,
    pub songs: Vec<String>,
    pub index: usize,
    pub stateful_songs: StatefulList<String>,
}

impl PlaylistInfo {
    /// An empty playlist called `playlist_name`.
    pub fn new(playlist_name: &str) -> (r: PlaylistInfo)
        ensures
            r.playlist@ == playlist_name@,
            r.songs@.len() == 0,
            r.index == 0,
            r.stateful_songs.items_view().len() == 0,
            r.stateful_songs.cursor() is None,
            r.stateful_songs.wf(),
    {
        PlaylistInfo {
            playlist: playlist_name.to_owned(),
            songs: Vec::new(),
            index: 0,
            stateful_songs: StatefulList::with_items(Vec::new()),
        }
    }

    /// The playlist called `playlist` holding `songs`, positioned on its first
    /// track, with a working copy of the tracks and no edit cursor.
    pub fn with_songs(playlist: String, songs: Vec<String>) -> (r: PlaylistInfo)
        ensures
            r.playlist@ == playlist@,
            views(r.songs@) == views(songs@),
            r.index == 0,
            views(r.stateful_songs.items_view()) == views(songs@),
            r.stateful_songs.cursor() is None,
            r.stateful_songs.wf(),
    {
        let copy = songs.clone();
        assert(views(copy@) =~= views(songs@));
        PlaylistInfo { playlist, songs, index: 0, stateful_songs: StatefulList::with_items(copy) }
    }
}

/// What a key does while a playlist is edited.
pub open spec fn edit_step(o: App, n: App, key: Key) -> bool {
    &&& (key == Key::Esc || key == Key::Char('q') ==> {
        &&& n.mode == escape_mode(Mode::ModifyPlaylist, edit_changed(o))
        &&& n.playlists == o.playlists
        &&& edit_changed(o) ==> n.confirmation_data.on_positive() == Some(Action::ApplyEdit)
            && n.confirmation_data.on_negative() == Some(Action::DiscardEdit)
            && n.confirmation_data.positive()
            && n.edit_info == o.edit_info
        &&& !edit_changed(o) ==> n.edit_info is None
    })
    &&& (({
        let before = o.edit_info->Some_0.stateful_songs;
        &&& key == Key::Char('j') ==> (n.edit_info matches Some(e)
            && e.stateful_songs.items_view() == before.items_view()
            && e.stateful_songs.cursor() == next_cursor(before.cursor(), before.items_view().len()))
        &&& key == Key::Char('k') ==> (n.edit_info matches Some(e)
            && e.stateful_songs.items_view() == before.items_view()
            && e.stateful_songs.cursor() == previous_cursor(before.cursor(), before.items_view().len()))
        &&& key == Key::Char('h') || key == Key::Char('l') ==> (n.edit_info matches Some(e)
            && e.stateful_songs.items_view() == before.items_view()
            && e.stateful_songs.cursor() is None)
        &&& key == Key::Char('d') ==> (n.edit_info matches Some(e) && match before.cursor() {
            Some(i) => e.stateful_songs.items_view() == before.items_view().remove(i as int),
            None => e.stateful_songs == before,
        })
    }))
    &&& (key != Key::Esc && key != Key::Char('q') ==> {
        &&& n.mode == Mode::ModifyPlaylist
        &&& n.playlists == o.playlists
        &&& (n.edit_info matches Some(e) && e.playlist == o.edit_info->Some_0.playlist)
    })
    &&& (!is_bound(Mode::ModifyPlaylist, key) ==> n == o)
}

/// Handles a key while a playlist is edited.
pub fn controller_modify_playlist(app: &mut App, key: Key)
    requires
        old(app).wf(),
        old(app).mode == Mode::ModifyPlaylist,
    ensures
        final(app).wf(),
        edit_step(*old(app), *final(app), key),
{
    match key {
        Key::Char('q') | Key::Esc => {
            app.exit_edit();
            return;
        },
        _ => {},
    }
    let mut e = app.edit_info.take().unwrap();
    match key {
        Key::Char('j') => e.stateful_songs.next(),
        Key::Char('k') => e.stateful_songs.previous(),
        Key::Char('h') | Key::Char('l') => e.stateful_songs.unselect(),
        Key::Char('d') => {
            match e.stateful_songs.selected() {
                Some(i) => e.stateful_songs.delete_item(i),
                None => {},
            }
        },
        _ => {},
    }
    app.edit_info = Some(e);
}

} // verus!
