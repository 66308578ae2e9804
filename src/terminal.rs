use vstd::prelude::*;

use crate::action::Action;
use crate::confirmation;
use crate::data::PlaylistStore;
use crate::data::has_name;
use crate::data::names_of;
use crate::data::tracks_of;
use crate::data::with_tracks;
use crate::fuzzy_finder::ranked;
use crate::fuzzy_finder::views;
use crate::select::next_cursor;
use crate::select::previous_cursor;
use crate::fuzzy_finder;
use crate::playlist::PlaylistInfo;
use crate::song::MAX_VOLUME;
use crate::song::SongAction;
use crate::song::SongInfo;
use crate::song::plays;
use crate::text_prompt;
use crate::text_prompt::prompt_step;
use crate::fuzzy_finder::search_step;
use crate::confirmation::confirmation_step;
use crate::playlist::edit_step;

verus! {

/// How much one key press raises or lowers the volume.
pub const VOLUME_STEP: i32 = 5;

/// The volume a session starts with.
pub const INITIAL_VOLUME: i32 = 50;

/// The modal state of the controller; exactly one is active.
#[derive(Clone, Copy, Debug, PartialEq, Eq, Structural)]
pub enum Mode {
    Main,
    TextPrompt,
    Confirmation,
    FuzzyFind,
    AddToPlaylist,
    PlayPlaylist,
    ModifyPlaylist,
}

/// `v` brought into the volume range.
pub open spec fn clamp_volume(v: int) -> int {
    if v < 0 { 0 } else if v > MAX_VOLUME { MAX_VOLUME as int } else { v }
}

/// The index after `cur` in a catalog of `len` tracks, staying on the last one.
pub open spec fn next_index(cur: usize, len: nat) -> usize {
    if cur + 1 < len { (cur + 1) as usize } else { (len - 1) as usize }
}

/// `k` is the first catalog track called `name`.
pub open spec fn first_song_named(songs: Seq<SongInfo>, name: Seq<char>, k: int) -> bool {
    &&& 0 <= k < songs.len()
    &&& songs[k].name@ == name
    &&& forall|j: int| 0 <= j < k ==> songs[j].name@ != name
}

pub open spec fn in_catalog(songs: Seq<SongInfo>, name: Seq<char>) -> bool {
    exists|k: int| 0 <= k < songs.len() && #[trigger] songs[k].name@ == name
}

/// The session: the catalog, what plays, the dialogs, and the commands waiting
/// to be sent to the audio actor.
pub struct App {
    pub progress: u32,
    pub volume: i32,
    pub songs: Vec<SongInfo>,
    pub debugger: crate::debug::Debug,
    pub playlists: PlaylistStore,
    pub finder_data: fuzzy_finder::Data,
    pub text_prompt_data: text_prompt::Data,
    pub confirmation_data: confirmation::Data,
    /// The playlist that playback follows, if any.
    pub playlist_info: Option<PlaylistInfo>,
    /// The playlist being edited, if any.
    pub edit_info: Option<PlaylistInfo>,
    /// The cursor over the catalog.
    pub selected: Option<usize>,
    pub mode: Mode,
    pub current_song_index: usize,
    pub paused: bool,
    pub quit: bool,
    /// Commands for the audio actor, oldest first.
    pub outbox: Vec<SongAction>,
    /// Whether the store changed since the last save.
    pub playlists_changed: bool,
}

/// A key press, as the controller sees it.
#[derive(Clone, Copy, Debug, PartialEq, Eq, Structural)]
pub enum Key {
    Char(char),
    Enter,
    Esc,
    Tab,
    BackTab,
    Backspace,
    Left,
    Right,
    Other,
}

/// The edit in progress changed the track count of a stored playlist.
pub open spec fn edit_changed(o: App) -> bool {
    match o.edit_info {
        Some(e) => has_name(o.playlists@, e.playlist@)
            && tracks_of(o.playlists@, e.playlist@).len() != e.stateful_songs.items_view().len(),
        None => false,
    }
}

/// A mode that shows the fuzzy search.
pub open spec fn is_search(m: Mode) -> bool {
    m == Mode::FuzzyFind || m == Mode::AddToPlaylist || m == Mode::PlayPlaylist
}

/// The search and prompt dialogs stay as they were.
pub open spec fn keeps_dialogs(o: App, n: App) -> bool {
    n.finder_data == o.finder_data && n.text_prompt_data == o.text_prompt_data
}

/// What running `action` does to the session `o`, giving `n`. The search's
/// output names the playlist for appending, playing and editing; the
/// prompt's output names it for creating and resetting.
pub open spec fn action_step(o: App, n: App, action: Action) -> bool {
    &&& keeps_dialogs(o, n)
    &&& closes(action) ==> n.mode == Mode::Main
    &&& action == Action::AppendToPlaylist ==> ({
        let name = o.finder_data.output_view();
        &&& n.songs == o.songs
        &&& if o.selected is Some && has_name(o.playlists@, name) {
            &&& n.playlists@ == with_tracks(o.playlists@, name,
                tracks_of(o.playlists@, name).push(o.songs@[o.selected->Some_0 as int].name@))
            &&& n.playlists_changed
        } else {
            n.playlists@ == o.playlists@
        }
    })
    &&& action == Action::PlayPlaylist ==> ({
        let name = o.finder_data.output_view();
        let t = tracks_of(o.playlists@, name);
        &&& n.playlists == o.playlists
        &&& n.songs == o.songs
        &&& if has_name(o.playlists@, name) && t.len() > 0 && in_catalog(o.songs@, t[0]) {
            &&& first_song_named(o.songs@, t[0], n.current_song_index as int)
            &&& queued_current(o, n)
            &&& (n.playlist_info matches Some(p) && p.playlist@ == name && views(p.songs@) == t && p.index == 0)
        } else {
            &&& n.playlist_info == o.playlist_info
            &&& n.outbox == o.outbox
            &&& n.current_song_index == o.current_song_index
        }
    })
    &&& action == Action::EditPlaylist ==> ({
        let name = o.finder_data.output_view();
        &&& n.playlists == o.playlists
        &&& if has_name(o.playlists@, name) {
            &&& n.mode == Mode::ModifyPlaylist
            &&& (n.edit_info matches Some(e) && e.playlist@ == name
                && views(e.stateful_songs.items_view()) == tracks_of(o.playlists@, name))
        } else {
            &&& n.mode == Mode::Main
            &&& n.edit_info == o.edit_info
        }
    })
    &&& action == Action::CreatePlaylist ==> ({
        let name = o.text_prompt_data.output_view();
        if has_name(o.playlists@, name) {
            &&& n.mode == Mode::Confirmation
            &&& n.confirmation_data.message_view() == "Playlist already exists, reset it?"@
            &&& n.confirmation_data.title_view() == "Reset Playlist"@
            &&& n.confirmation_data.positive()
            &&& n.confirmation_data.on_positive() == Some(Action::ResetPlaylist)
            &&& n.confirmation_data.on_negative() == Some(Action::Dismiss)
            &&& n.playlists == o.playlists
        } else {
            &&& n.mode == Mode::Main
            &&& n.playlists@ == o.playlists@.push((name, Seq::empty()))
            &&& n.playlists_changed
        }
    })
    &&& action == Action::ResetPlaylist ==> ({
        let name = o.text_prompt_data.output_view();
        &&& n.playlists_changed
        &&& if has_name(o.playlists@, name) {
            n.playlists@ == with_tracks(o.playlists@, name, Seq::empty())
        } else {
            n.playlists@ == o.playlists@.push((name, Seq::empty()))
        }
    })
    &&& action == Action::ApplyEdit ==> ({
        &&& n.edit_info is None
        &&& match o.edit_info {
            Some(e) => if has_name(o.playlists@, e.playlist@) {
                &&& n.playlists@ == with_tracks(o.playlists@, e.playlist@, views(e.stateful_songs.items_view()))
                &&& n.playlists_changed
            } else {
                n.playlists@ == o.playlists@
            },
            None => n.playlists == o.playlists,
        }
    })
    &&& action == Action::DiscardEdit ==> n == (App { mode: Mode::Main, edit_info: None, ..o })
    &&& action == Action::Dismiss ==> n == (App { mode: Mode::Main, ..o })
}

/// An action that closes its dialog and returns to the main mode.
pub open spec fn closes(a: Action) -> bool {
    a != Action::EditPlaylist && a != Action::CreatePlaylist
}

/// Where the escape key leads from `m`; `edit_changed` tells whether an edit
/// in progress changed the track count.
pub open spec fn escape_mode(m: Mode, edit_changed: bool) -> Mode {
    if m == Mode::ModifyPlaylist && edit_changed { Mode::Confirmation } else { Mode::Main }
}

/// Everything but the playback position, the playlist context and the
/// outbox stays.
pub open spec fn same_but_playback(o: App, n: App) -> bool {
    &&& n.volume == o.volume
    &&& n.songs == o.songs
    &&& n.playlists == o.playlists
    &&& n.finder_data == o.finder_data
    &&& n.text_prompt_data == o.text_prompt_data
    &&& n.confirmation_data == o.confirmation_data
    &&& n.edit_info == o.edit_info
    &&& n.selected == o.selected
    &&& n.mode == o.mode
    &&& n.paused == o.paused
    &&& n.quit == o.quit
    &&& n.playlists_changed == o.playlists_changed
    &&& n.debugger == o.debugger
}

/// One command was queued, and it plays the current track of `n` from the start.
pub open spec fn queued_current(o: App, n: App) -> bool {
    &&& n.current_song_index < n.songs@.len()
    &&& n.outbox@.len() == o.outbox@.len() + 1
    &&& n.outbox@.drop_last() == o.outbox@
    &&& plays(n.outbox@.last(), n.songs@[n.current_song_index as int])
    &&& n.progress == 0
}

/// Whether a finished track is followed by the next entry of the playlist
/// context: there is one, and the catalog holds it.
pub open spec fn playlist_continues(o: App) -> bool {
    match o.playlist_info {
        Some(p) => p.index + 1 < p.songs@.len() && in_catalog(o.songs@, p.songs@[p.index + 1]@),
        None => false,
    }
}

/// What follows a finished track: the next playlist entry while the context
/// lasts; otherwise the context ends and the next catalog track plays,
/// staying on the last.
pub open spec fn advanced(o: App, n: App) -> bool {
    &&& same_but_playback(o, n)
    &&& queued_current(o, n)
    &&& if playlist_continues(o) {
        let p = o.playlist_info->Some_0;
        &&& first_song_named(o.songs@, p.songs@[p.index + 1]@, n.current_song_index as int)
        &&& n.playlist_info matches Some(q) && q.index == p.index + 1 && q.playlist == p.playlist
            && q.songs == p.songs && q.stateful_songs == p.stateful_songs
    } else {
        &&& n.playlist_info is None
        &&& n.current_song_index == next_index(o.current_song_index, o.songs@.len())
    }
}

/// What a key does in the main mode.
pub open spec fn main_step(o: App, n: App, key: Key) -> bool {
    &&& (key == Key::Char('q') ==> n == (App { quit: true, ..o }))
    &&& (key == Key::Char('j') ==> n == (App {
        selected: next_cursor(o.selected, o.songs@.len()),
        ..o
    }))
    &&& (key == Key::Char('k') ==> n == (App {
        selected: previous_cursor(o.selected, o.songs@.len()),
        ..o
    }))
    &&& (key == Key::Char('h') ==> n == (App { selected: None, ..o }))
    &&& (key == Key::Enter ==> match o.selected {
        Some(i) => {
            &&& n.current_song_index == i
            &&& n.playlist_info is None
            &&& queued_current(o, n)
            &&& same_but_playback(o, n)
        },
        None => n == o,
    })
    &&& (key == Key::Char('w') ==> {
        &&& n.volume == clamp_volume(o.volume + VOLUME_STEP)
        &&& n.outbox@ == o.outbox@.push(SongAction::Volume(n.volume))
    &&& n == (App { volume: n.volume, outbox: n.outbox, ..o })
    })
    &&& (key == Key::Char('b') ==> {
        &&& n.volume == clamp_volume(o.volume - VOLUME_STEP)
        &&& n.outbox@ == o.outbox@.push(SongAction::Volume(n.volume))
    &&& n == (App { volume: n.volume, outbox: n.outbox, ..o })
    })
    &&& (key == Key::Char(' ') ==> if o.current_song_index < o.songs@.len() {
        &&& n.paused == !o.paused
        &&& n.outbox@ == o.outbox@.push(SongAction::TogglePause)
        &&& n == (App { paused: n.paused, outbox: n.outbox, ..o })
    } else {
        n == o
    })
    &&& (key == Key::Char('J') && o.songs@.len() > 0 ==> {
        &&& n.current_song_index == next_index(o.current_song_index, o.songs@.len())
        &&& queued_current(o, n)
    })
    &&& (key == Key::Char('K') && o.songs@.len() > 0 ==> {
        &&& n.current_song_index == (if o.current_song_index == 0 {
            0
        } else {
            (o.current_song_index - 1) as usize
        })
        &&& queued_current(o, n)
    })
    &&& (key == Key::Char('a') ==> if o.selected is Some {
        &&& n.mode == Mode::AddToPlaylist
        &&& n.finder_data.pending() == Some(Action::AppendToPlaylist)
        &&& n.finder_data.pool() == names_of(o.playlists@)
        &&& n.finder_data.query().len() == 0
    } else {
        n == o
    })
    &&& (key == Key::Char('p') ==> {
        &&& n.mode == Mode::PlayPlaylist
        &&& n.finder_data.pending() == Some(Action::PlayPlaylist)
        &&& n.finder_data.pool() == names_of(o.playlists@)
        &&& n.finder_data.query().len() == 0
    })
    &&& (key == Key::Char('m') ==> {
        &&& n.mode == Mode::FuzzyFind
        &&& n.finder_data.pending() == Some(Action::EditPlaylist)
        &&& n.finder_data.pool() == names_of(o.playlists@)
        &&& n.finder_data.query().len() == 0
    })
    &&& (key == Key::Char('n') ==> {
        &&& n.mode == Mode::TextPrompt
        &&& n.text_prompt_data.pending() == Some(Action::CreatePlaylist)
        &&& n.text_prompt_data.input_view().len() == 0
    })
    &&& (!is_main_binding(key) ==> n == o)
}

impl App {
    pub open spec fn wf(&self) -> bool {
        &&& 0 <= self.volume <= MAX_VOLUME
        &&& (self.songs@.len() == 0 || self.current_song_index < self.songs@.len())
        &&& (self.selected matches Some(i) ==> i < self.songs@.len())
        &&& self.playlists.wf()
        &&& self.finder_data.wf()
        &&& (self.confirmation_data.on_negative() matches Some(a) ==> closes(a))
        &&& (self.confirmation_data.on_positive() matches Some(a) ==> closes(a))
        &&& (self.mode == Mode::Confirmation ==> self.confirmation_data.on_positive() is Some
            && self.confirmation_data.on_negative() is Some)
        &&& (self.edit_info matches Some(e) ==> e.stateful_songs.wf())
        &&& (self.mode == Mode::ModifyPlaylist ==> self.edit_info is Some)
    }

    /// A session over `songs` and `playlists`, in the main mode, with the
    /// initial volume queued for the audio actor.
    pub fn new(songs: Vec<SongInfo>, playlists: PlaylistStore) -> (r: App)
        requires
            playlists.wf(),
        ensures
            r.wf(),
            r.songs == songs,
            r.playlists == playlists,
            r.mode == Mode::Main,
            r.progress == 0,
            r.volume == INITIAL_VOLUME,
            r.current_song_index == 0,
            r.selected is None,
            r.playlist_info is None,
            r.edit_info is None,
            !r.paused,
            !r.quit,
            !r.playlists_changed,
            r.outbox@ == seq![SongAction::Volume(INITIAL_VOLUME)],
    {
        let mut outbox: Vec<SongAction> = Vec::new();
        outbox.push(SongAction::Volume(INITIAL_VOLUME));
        App {
            progress: 0,
            volume: INITIAL_VOLUME,
            songs,
            debugger: crate::debug::Debug::new(),
            playlists,
            finder_data: fuzzy_finder::Data::new(),
            text_prompt_data: text_prompt::Data::new(),
            confirmation_data: confirmation::Data::new(),
            playlist_info: None,
            edit_info: None,
            selected: None,
            mode: Mode::Main,
            current_song_index: 0,
            paused: false,
            quit: false,
            outbox,
            playlists_changed: false,
        }
    }

    pub fn get_progress(&self) -> (r: u32)
        ensures
            r == self.progress,
    {
        self.progress
    }

    /// The index of the current track, which is the last one when the index
    /// ran past the catalog.
    pub fn get_current_song_index(&self) -> (r: usize)
        requires
            self.songs@.len() > 0,
        ensures
            r == (if self.current_song_index < self.songs@.len() {
                self.current_song_index
            } else {
                (self.songs@.len() - 1) as usize
            }),
    {
        if self.current_song_index < self.songs.len() {
            self.current_song_index
        } else {
            self.songs.len() - 1
        }
    }

    /// A copy of the current track, if the catalog has one.
    pub fn try_get_current_song_info(&self) -> (r: Option<SongInfo>)
        ensures
            r is Some <==> self.current_song_index < self.songs@.len(),
            r matches Some(s) ==> crate::song::same_song(s, self.songs@[self.current_song_index as int]),
    {
        if self.current_song_index >= self.songs.len() {
            return None;
        }
        Some(self.songs[self.current_song_index].duplicate())
    }

    /// Restarts the current track: the position goes to zero and a command to
    /// play it is queued. Nothing happens when the catalog has no such track.
    pub fn try_play_current_song(&mut self)
        requires
            old(self).wf(),
        ensures
            final(self).wf(),
            old(self).current_song_index < old(self).songs@.len() ==> queued_current(*old(self), *final(self)),
            old(self).current_song_index >= old(self).songs@.len() ==> *final(self) == *old(self),
            final(self).current_song_index == old(self).current_song_index,
            final(self).playlist_info == old(self).playlist_info,
            same_but_playback(*old(self), *final(self)),
    {
        let song_info = match self.try_get_current_song_info() {
            Some(r) => r,
            None => return,
        };
        let ghost before = self.outbox@;
        self.progress = 0;
        self.outbox.push(SongAction::AddSong(song_info));
        assert(self.outbox@.drop_last() =~= before);
    }

    /// Moves to the next catalog track, staying on the last, and plays it.
    pub fn try_play_next_song(&mut self)
        requires
            old(self).wf(),
            old(self).songs@.len() > 0,
        ensures
            final(self).wf(),
            final(self).current_song_index == next_index(old(self).current_song_index, old(self).songs@.len()),
            queued_current(*old(self), *final(self)),
            final(self).playlist_info == old(self).playlist_info,
            same_but_playback(*old(self), *final(self)),
    {
        if self.current_song_index < self.songs.len() - 1 {
            self.current_song_index = self.current_song_index + 1;
        } else {
            self.current_song_index = self.songs.len() - 1;
        }
        self.try_play_current_song();
    }

    /// Moves to the previous catalog track, staying on the first, and plays it.
    pub fn try_play_previous_song(&mut self)
        requires
            old(self).wf(),
            old(self).songs@.len() > 0,
        ensures
            final(self).wf(),
            final(self).current_song_index == (if old(self).current_song_index == 0 {
                0
            } else {
                (old(self).current_song_index - 1) as usize
            }),
            queued_current(*old(self), *final(self)),
            final(self).playlist_info == old(self).playlist_info,
            same_but_playback(*old(self), *final(self)),
    {
        if self.current_song_index != 0 {
            self.current_song_index = self.current_song_index - 1;
        }
        self.try_play_current_song();
    }

    /// The first catalog track called `name`.
    pub(crate) fn find_song(&self, name: &String) -> (r: Option<usize>)
        ensures
            match r {
                Some(k) => first_song_named(self.songs@, name@, k as int),
                None => !in_catalog(self.songs@, name@),
            },
    {
        let mut k: usize = 0;
        while k < self.songs.len()
            invariant
                k <= self.songs@.len(),
                forall|j: int| 0 <= j < k ==> self.songs@[j].name@ != name@,
            decreases self.songs.len() - k,
        {
            if self.songs[k].name == *name {
                return Some(k);
            }
            k = k + 1;
        }
        None
    }

    /// Follows a finished track with the next one: the next playlist entry
    /// while the playlist context lasts, the next catalog track otherwise.
    pub(crate) fn advance(&mut self)
        requires
            old(self).wf(),
            old(self).songs@.len() > 0,
        ensures
            final(self).wf(),
            advanced(*old(self), *final(self)),
    {
        let ghost o = *self;
        let ctx = self.playlist_info.take();
        match ctx {
            Some(p) => {
                if p.songs.len() > 0 && p.index < p.songs.len() - 1 {
                    match self.find_song(&p.songs[p.index + 1]) {
                        Some(k) => {
                            let q = PlaylistInfo {
                                playlist: p.playlist,
                                songs: p.songs,
                                index: p.index + 1,
                                stateful_songs: p.stateful_songs,
                            };
                            self.playlist_info = Some(q);
                            self.current_song_index = k;
                            self.try_play_current_song();
                            return;
                        },
                        None => {},
                    }
                }
            },
            None => {},
        }
        self.try_play_next_song();
    }

    /// One tick of the clock. Unless paused or without a current track, the
    /// position moves one second on; past the end of the track it goes back
    /// to zero and the next track follows.
    pub fn on_tick(&mut self)
        requires
            old(self).wf(),
        ensures
            final(self).wf(),
            (old(self).paused || old(self).current_song_index >= old(self).songs@.len()) ==> *final(self) == *old(self),
            !old(self).paused && old(self).current_song_index < old(self).songs@.len() ==> {
                let d = old(self).songs@[old(self).current_song_index as int].duration;
                &&& old(self).progress < d ==> *final(self) == (App { progress: (old(self).progress + 1) as u32, ..*old(self) })
                &&& old(self).progress >= d ==> advanced(*old(self), *final(self))
            },
    {
        if self.paused {
            return;
        }
        if self.current_song_index >= self.songs.len() {
            return;
        }
        if self.progress < self.songs[self.current_song_index].duration {
            self.progress = self.progress + 1;
        } else {
            self.progress = 0;
            self.advance();
        }
    }

    /// Returns to the main mode.
    pub fn main_controller(&mut self)
        requires
            old(self).wf(),
        ensures
            final(self).wf(),
            *final(self) == (App { mode: Mode::Main, ..*old(self) }),
    {
        self.mode = Mode::Main;
    }

    /// Changes the volume by `amount`, kept within 0 to 100, and queues the
    /// new level for the audio actor.
    pub fn change_volume(&mut self, amount: i32)
        requires
            old(self).wf(),
        ensures
            final(self).wf(),
            final(self).volume == clamp_volume(old(self).volume + amount),
            final(self).outbox@ == old(self).outbox@.push(SongAction::Volume(final(self).volume)),
            *final(self) == (App { volume: final(self).volume, outbox: final(self).outbox, ..*old(self) }),
    {
        let v: i64 = self.volume as i64 + amount as i64;
        let clamped: i32 = if v < 0 { 0 } else if v > MAX_VOLUME as i64 { MAX_VOLUME } else { v as i32 };
        self.volume = clamped;
        self.outbox.push(SongAction::Volume(clamped));
    }

    /// Flips between paused and playing and tells the audio actor; nothing
    /// happens without a current track.
    pub fn toggle_pause_song(&mut self)
        requires
            old(self).wf(),
        ensures
            final(self).wf(),
            old(self).current_song_index >= old(self).songs@.len() ==> *final(self) == *old(self),
            old(self).current_song_index < old(self).songs@.len() ==> {
                &&& final(self).paused == !old(self).paused
                &&& final(self).outbox@ == old(self).outbox@.push(SongAction::TogglePause)
                &&& *final(self) == (App { paused: final(self).paused, outbox: final(self).outbox, ..*old(self) })
            },
    {
        if self.current_song_index >= self.songs.len() {
            return;
        }
        self.paused = !self.paused;
        self.outbox.push(SongAction::TogglePause);
    }

    /// Hands over the queued commands, oldest first, and empties the queue.
    pub fn take_commands(&mut self) -> (r: Vec<SongAction>)
        requires
            old(self).wf(),
        ensures
            final(self).wf(),
            r@ == old(self).outbox@,
            final(self).outbox@.len() == 0,
            *final(self) == (App { outbox: final(self).outbox, ..*old(self) }),
    {
        let mut out: Vec<SongAction> = Vec::new();
        std::mem::swap(&mut out, &mut self.outbox);
        out
    }

    /// Whether the store changed since the last call; clears the mark.
    pub fn take_playlists_changed(&mut self) -> (r: bool)
        requires
            old(self).wf(),
        ensures
            final(self).wf(),
            r == old(self).playlists_changed,
            *final(self) == (App { playlists_changed: false, ..*old(self) }),
    {
        let r = self.playlists_changed;
        self.playlists_changed = false;
        r
    }

    /// Opens the fuzzy search over the playlist names in mode `mode`, with
    /// `action` pending.
    pub(crate) fn open_finder(&mut self, title: &str, mode: Mode, action: Action)
        requires
            old(self).wf(),
            is_search(mode),
        ensures
            final(self).wf(),
            final(self).mode == mode,
            final(self).finder_data.pool() == names_of(old(self).playlists@),
            final(self).finder_data.shown() == ranked(Seq::empty(), names_of(old(self).playlists@)),
            final(self).finder_data.query().len() == 0,
            final(self).finder_data.cursor() == (if final(self).finder_data.shown().len() == 0 {
                None
            } else {
                Some(0usize)
            }),
            final(self).finder_data.pending() == Some(action),
            final(self).playlists == old(self).playlists,
            final(self).songs == old(self).songs,
            final(self).selected == old(self).selected,
            final(self).edit_info == old(self).edit_info,
    {
        let names = self.playlists.names();
        self.finder_data.reset(title.to_owned(), names, action);
        self.mode = mode;
    }

    /// Appends the selected catalog track to the playlist chosen in the
    /// search, then returns to the main mode.
    pub(crate) fn append_selected(&mut self)
        requires
            old(self).wf(),
        ensures
            final(self).wf(),
            keeps_dialogs(*old(self), *final(self)),
            final(self).mode == Mode::Main,
            final(self).songs == old(self).songs,
            ({
                let name = old(self).finder_data.output_view();
                if old(self).selected is Some && has_name(old(self).playlists@, name) {
                    &&& final(self).playlists@ == with_tracks(old(self).playlists@, name,
                        tracks_of(old(self).playlists@, name).push(old(self).songs@[old(self).selected->Some_0 as int].name@))
                    &&& final(self).playlists_changed
                } else {
                    final(self).playlists@ == old(self).playlists@
                }
            }),
    {
        match self.selected {
            Some(i) => {
                let name = self.finder_data.output().clone();
                let track = self.songs[i].name.clone();
                match self.playlists.append(&name, track) {
                    Ok(()) => {
                        self.playlists_changed = true;
                    },
                    Err(_) => {
                        self.debugger.print("No playlist of that name.");
                    },
                }
            },
            None => {
                self.debugger.print("No track is selected.");
            },
        }
        self.mode = Mode::Main;
    }

    /// Makes the playlist chosen in the search the playlist context and plays
    /// its first track, then returns to the main mode. A playlist that is
    /// unknown, empty, or starts with a track missing from the catalog leaves
    /// playback as it was.
    pub(crate) fn play_playlist(&mut self)
        requires
            old(self).wf(),
        ensures
            final(self).wf(),
            keeps_dialogs(*old(self), *final(self)),
            final(self).mode == Mode::Main,
            final(self).playlists == old(self).playlists,
            final(self).songs == old(self).songs,
            ({
                let name = old(self).finder_data.output_view();
                let t = tracks_of(old(self).playlists@, name);
                if has_name(old(self).playlists@, name) && t.len() > 0 && in_catalog(old(self).songs@, t[0]) {
                    &&& first_song_named(old(self).songs@, t[0], final(self).current_song_index as int)
                    &&& queued_current(*old(self), *final(self))
                    &&& final(self).playlist_info matches Some(p) && p.playlist@ == name
                        && views(p.songs@) == t && p.index == 0
                } else {
                    &&& final(self).playlist_info == old(self).playlist_info
                    &&& final(self).outbox == old(self).outbox
                    &&& final(self).current_song_index == old(self).current_song_index
                }
            }),
    {
        let name = self.finder_data.output().clone();
        match self.playlists.tracks(&name) {
            Some(tracks) => {
                if tracks.len() > 0 {
                    match self.find_song(&tracks[0]) {
                        Some(k) => {
                            self.playlist_info = Some(PlaylistInfo::with_songs(name, tracks));
                            self.current_song_index = k;
                            self.try_play_current_song();
                        },
                        None => {
                            self.debugger.print("The playlist starts with a track missing from the catalog.");
                        },
                    }
                } else {
                    self.debugger.print("The playlist is empty.");
                }
            },
            None => {
                self.debugger.print("No playlist of that name.");
            },
        }
        self.mode = Mode::Main;
    }

    /// Opens the playlist chosen in the search for editing.
    pub(crate) fn edit_playlist(&mut self)
        requires
            old(self).wf(),
        ensures
            final(self).wf(),
            keeps_dialogs(*old(self), *final(self)),
            final(self).playlists == old(self).playlists,
            ({
                let name = old(self).finder_data.output_view();
                if has_name(old(self).playlists@, name) {
                    &&& final(self).mode == Mode::ModifyPlaylist
                    &&& final(self).edit_info matches Some(e) && e.playlist@ == name
                        && views(e.stateful_songs.items_view()) == tracks_of(old(self).playlists@, name)
                } else {
                    &&& final(self).mode == Mode::Main
                    &&& final(self).edit_info == old(self).edit_info
                }
            }),
    {
        let name = self.finder_data.output().clone();
        match self.playlists.tracks(&name) {
            Some(tracks) => {
                self.edit_info = Some(PlaylistInfo::with_songs(name, tracks));
                self.mode = Mode::ModifyPlaylist;
            },
            None => {
                self.debugger.print("No playlist of that name.");
                self.mode = Mode::Main;
            },
        }
    }

    /// Creates an empty playlist under the name entered in the prompt. When
    /// the name is taken, asks first whether to reset that playlist.
    pub fn add_playlist(&mut self)
        requires
            old(self).wf(),
        ensures
            final(self).wf(),
            keeps_dialogs(*old(self), *final(self)),
            ({
                let name = old(self).text_prompt_data.output_view();
                if has_name(old(self).playlists@, name) {
                    &&& final(self).mode == Mode::Confirmation
                    &&& final(self).confirmation_data.message_view() == "Playlist already exists, reset it?"@
                    &&& final(self).confirmation_data.title_view() == "Reset Playlist"@
                    &&& final(self).confirmation_data.positive()
                    &&& final(self).confirmation_data.on_positive() == Some(Action::ResetPlaylist)
                    &&& final(self).confirmation_data.on_negative() == Some(Action::Dismiss)
                    &&& final(self).playlists == old(self).playlists
                } else {
                    &&& final(self).mode == Mode::Main
                    &&& final(self).playlists@ == old(self).playlists@.push((name, Seq::empty()))
                    &&& final(self).playlists_changed
                }
            }),
    {
        let name = self.text_prompt_data.output().clone();
        if self.playlists.contains(&name) {
            self.confirmation_data.reset(
                "Playlist already exists, reset it?".to_owned(),
                "Reset Playlist".to_owned(),
                Action::ResetPlaylist,
                Action::Dismiss,
            );
            self.mode = Mode::Confirmation;
        } else {
            self.pos_add_playlist();
        }
    }

    /// Creates, or resets to empty, the playlist named in the prompt, then
    /// returns to the main mode.
    pub fn pos_add_playlist(&mut self)
        requires
            old(self).wf(),
        ensures
            final(self).wf(),
            keeps_dialogs(*old(self), *final(self)),
            final(self).mode == Mode::Main,
            final(self).playlists_changed,
            ({
                let name = old(self).text_prompt_data.output_view();
                if has_name(old(self).playlists@, name) {
                    final(self).playlists@ == with_tracks(old(self).playlists@, name, Seq::empty())
                } else {
                    final(self).playlists@ == old(self).playlists@.push((name, Seq::empty()))
                }
            }),
    {
        let name = self.text_prompt_data.output().clone();
        let _ = self.playlists.create(name, true);
        self.playlists_changed = true;
        self.mode = Mode::Main;
    }

    /// Leaves the playlists as they are and returns to the main mode.
    pub fn neg_add_playlist(&mut self)
        requires
            old(self).wf(),
        ensures
            final(self).wf(),
            *final(self) == (App { mode: Mode::Main, ..*old(self) }),
    {
        self.main_controller();
    }

    /// Stores the edited playlist, closes the edit and returns to the main mode.
    pub fn pos_modify_playlist(&mut self)
        requires
            old(self).wf(),
        ensures
            final(self).wf(),
            keeps_dialogs(*old(self), *final(self)),
            final(self).mode == Mode::Main,
            final(self).edit_info is None,
            match old(self).edit_info {
                Some(e) => if has_name(old(self).playlists@, e.playlist@) {
                    &&& final(self).playlists@ == with_tracks(old(self).playlists@, e.playlist@,
                        views(e.stateful_songs.items_view()))
                    &&& final(self).playlists_changed
                } else {
                    final(self).playlists@ == old(self).playlists@
                },
                None => final(self).playlists == old(self).playlists,
            },
    {
        let edit = self.edit_info.take();
        match edit {
            Some(e) => {
                let tracks = e.stateful_songs.items().clone();
                assert(views(tracks@) =~= views(e.stateful_songs.items_view()));
                match self.playlists.overwrite(&e.playlist, tracks) {
                    Ok(()) => {
                        self.playlists_changed = true;
                    },
                    Err(_) => {
                        self.debugger.print("No playlist of that name.");
                    },
                }
            },
            None => {},
        }
        self.mode = Mode::Main;
    }

    /// Drops the edit and returns to the main mode.
    pub fn neg_modify_playlist(&mut self)
        requires
            old(self).wf(),
        ensures
            final(self).wf(),
            *final(self) == (App { mode: Mode::Main, edit_info: None, ..*old(self) }),
    {
        self.edit_info = None;
        self.mode = Mode::Main;
    }

    /// Leaves the playlist edit: asks for confirmation when the track count
    /// changed, and drops the edit otherwise.
    pub(crate) fn exit_edit(&mut self)
        requires
            old(self).wf(),
        ensures
            final(self).wf(),
            keeps_dialogs(*old(self), *final(self)),
            final(self).mode == escape_mode(Mode::ModifyPlaylist, edit_changed(*old(self))),
            final(self).playlists == old(self).playlists,
            edit_changed(*old(self)) ==> {
                &&& final(self).confirmation_data.message_view() == "Apply changes to playlist?"@
                &&& final(self).confirmation_data.title_view() == "Confirmation"@
                &&& final(self).confirmation_data.positive()
                &&& final(self).confirmation_data.on_positive() == Some(Action::ApplyEdit)
                &&& final(self).confirmation_data.on_negative() == Some(Action::DiscardEdit)
                &&& final(self).edit_info == old(self).edit_info
            },
            !edit_changed(*old(self)) ==> final(self).edit_info is None,
    {
        let changed = match &self.edit_info {
            Some(e) => match self.playlists.tracks(&e.playlist) {
                Some(previous) => previous.len() != e.stateful_songs.len(),
                None => false,
            },
            None => false,
        };
        if changed {
            self.confirmation_data.reset(
                "Apply changes to playlist?".to_owned(),
                "Confirmation".to_owned(),
                Action::ApplyEdit,
                Action::DiscardEdit,
            );
            self.mode = Mode::Confirmation;
        } else {
            self.neg_modify_playlist();
        }
    }

    /// Runs a dialog's pending action.
    pub(crate) fn run_action(&mut self, action: Action)
        requires
            old(self).wf(),
        ensures
            final(self).wf(),
            action_step(*old(self), *final(self), action),
    {
        match action {
            Action::AppendToPlaylist => self.append_selected(),
            Action::PlayPlaylist => self.play_playlist(),
            Action::EditPlaylist => self.edit_playlist(),
            Action::CreatePlaylist => self.add_playlist(),
            Action::ApplyEdit => self.pos_modify_playlist(),
            Action::DiscardEdit => self.neg_modify_playlist(),
            Action::ResetPlaylist => self.pos_add_playlist(),
            Action::Dismiss => self.neg_add_playlist(),
        }
    }

    /// Handles a key in the main mode.
    pub fn main_key(&mut self, key: Key)
        requires
            old(self).wf(),
            old(self).mode == Mode::Main,
        ensures
            final(self).wf(),
            main_step(*old(self), *final(self), key),
    {
        match key {
            Key::Char('q') => {
                self.quit = true;
            },
            Key::Char('j') => {
                self.selected = if self.songs.len() == 0 {
                    self.selected
                } else {
                    match self.selected {
                        Some(i) => if i + 1 < self.songs.len() { Some(i + 1) } else { Some(0) },
                        None => Some(0),
                    }
                };
            },
            Key::Char('k') => {
                self.selected = if self.songs.len() == 0 {
                    self.selected
                } else {
                    match self.selected {
                        Some(i) => if i == 0 || i >= self.songs.len() {
                            Some(self.songs.len() - 1)
                        } else {
                            Some(i - 1)
                        },
                        None => Some(0),
                    }
                };
            },
            Key::Char('h') => {
                self.selected = None;
            },
            Key::Enter => {
                match self.selected {
                    Some(i) => {
                        self.current_song_index = i;
                        self.playlist_info = None;
                        self.try_play_current_song();
                    },
                    None => {},
                }
            },
            Key::Char('w') => self.change_volume(VOLUME_STEP),
            Key::Char('b') => self.change_volume(-VOLUME_STEP),
            Key::Char(' ') => self.toggle_pause_song(),
            Key::Char('J') => {
                if self.songs.len() > 0 {
                    self.try_play_next_song();
                }
            },
            Key::Char('K') => {
                if self.songs.len() > 0 {
                    self.try_play_previous_song();
                }
            },
            Key::Char('a') => {
                if self.selected.is_some() {
                    self.open_finder("Add to playlist", Mode::AddToPlaylist, Action::AppendToPlaylist);
                }
            },
            Key::Char('p') => self.open_finder("Play playlist", Mode::PlayPlaylist, Action::PlayPlaylist),
            Key::Char('m') => self.open_finder("Modify playlist", Mode::FuzzyFind, Action::EditPlaylist),
            Key::Char('n') => {
                self.text_prompt_data.reset("New playlist", "Name of the new playlist:", Action::CreatePlaylist);
                self.mode = Mode::TextPrompt;
            },
            _ => {},
        }
    }

    /// Handles a key in whatever mode is active.
    pub fn handle_key(&mut self, key: Key)
        requires
            old(self).wf(),
        ensures
            final(self).wf(),
            key == Key::Esc ==> final(self).mode == escape_mode(old(self).mode, edit_changed(*old(self))),
            old(self).mode == Mode::Main && key == Key::Char('q') ==> final(self).quit,
            !is_bound(old(self).mode, key) ==> *final(self) == *old(self),
            old(self).mode == Mode::Main ==> main_step(*old(self), *final(self), key),
            is_search(old(self).mode) ==> search_step(*old(self), *final(self), key),
            old(self).mode == Mode::TextPrompt ==> prompt_step(*old(self), *final(self), key),
            old(self).mode == Mode::Confirmation ==> confirmation_step(*old(self), *final(self), key),
            old(self).mode == Mode::ModifyPlaylist ==> edit_step(*old(self), *final(self), key),
    {
        match self.mode {
            Mode::Main => self.main_key(key),
            Mode::TextPrompt => crate::text_prompt::controller(self, key),
            Mode::Confirmation => crate::confirmation::controller(self, key),
            Mode::ModifyPlaylist => crate::playlist::controller_modify_playlist(self, key),
            Mode::FuzzyFind | Mode::AddToPlaylist | Mode::PlayPlaylist => crate::fuzzy_finder::controller(self, key),
        }
    }
}

/// A key that mode `m` acts on; every other key leaves the session as it is.
pub open spec fn is_bound(m: Mode, key: Key) -> bool {
    match m {
        Mode::Main => is_main_binding(key),
        Mode::TextPrompt => key is Char || key == Key::Backspace || key == Key::Enter || key == Key::Esc,
        Mode::Confirmation => key == Key::Char('h') || key == Key::Char('l') || key == Key::Char('q')
            || key == Key::Left || key == Key::Right || key == Key::Tab || key == Key::Enter || key == Key::Esc,
        Mode::ModifyPlaylist => key == Key::Char('j') || key == Key::Char('k') || key == Key::Char('h')
            || key == Key::Char('l') || key == Key::Char('d') || key == Key::Char('q') || key == Key::Esc,
        _ => key is Char || key == Key::Backspace || key == Key::Tab || key == Key::BackTab
            || key == Key::Enter || key == Key::Esc,
    }
}

/// A key that the main mode acts on.
pub open spec fn is_main_binding(key: Key) -> bool {
    match key {
        Key::Enter => true,
        Key::Char(c) => c == 'q' || c == 'j' || c == 'k' || c == 'h' || c == 'w' || c == 'b' || c == ' '
            || c == 'J' || c == 'K' || c == 'a' || c == 'p' || c == 'm' || c == 'n',
        _ => false,
    }
}

/// From every mode, escape leads back to the main mode within two presses:
/// with one press, unless an edit that changed a playlist's track count asks
/// for confirmation first, which the second press declines.
pub proof fn lemma_escape_reaches_main(m: Mode, changed: bool, changed_after: bool)
    ensures
        escape_mode(escape_mode(m, changed), changed_after) == Mode::Main,
        m != Mode::ModifyPlaylist || !changed ==> escape_mode(m, changed) == Mode::Main,
        escape_mode(m, changed) == Mode::Main || escape_mode(m, changed) == Mode::Confirmation,
{
}

} // verus!
