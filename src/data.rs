use vstd::prelude::*;

use std::collections::BTreeMap;

use crate::fuzzy_finder::views;

verus! {

/// A playlist as plain text: its name and its ordered track names.
pub type EntryView = (Seq<char>, Seq<Seq<char>>);

/// Why an operation on the playlist store was refused.
#[derive(Clone, Copy, Debug, PartialEq, Eq, Structural)]
pub enum StoreError {
    /// No playlist has the given name.
    UnknownPlaylist,
    /// A playlist of that name exists and overwriting it was not confirmed.
    AlreadyExists,
    /// Two entries carry the same name.
    DuplicateName,
    /// The stored text is not a JSON object of string arrays.
    Malformed,
}

#[verifier::external_type_specification]
#[verifier::external_body]
pub struct ExJsonError(serde_json::Error);

/// The text of each entry.
pub open spec fn entry_views(e: Seq<(String, Vec<String>)>) -> Seq<EntryView> {
    e.map_values(|p: (String, Vec<String>)| (p.0@, views(p.1@)))
}

/// The names of the entries, in order.
pub open spec fn names_of(m: Seq<EntryView>) -> Seq<Seq<char>> {
    m.map_values(|p: EntryView| p.0)
}

pub open spec fn has_name(m: Seq<EntryView>, name: Seq<char>) -> bool {
    exists|i: int| 0 <= i < m.len() && #[trigger] m[i].0 == name
}

/// The position of the entry called `name`, in a mapping with that name.
pub open spec fn index_of_name(m: Seq<EntryView>, name: Seq<char>) -> int {
    choose|i: int| 0 <= i < m.len() && #[trigger] m[i].0 == name
}

/// The tracks of the playlist called `name`.
pub open spec fn tracks_of(m: Seq<EntryView>, name: Seq<char>) -> Seq<Seq<char>> {
    m[index_of_name(m, name)].1
}

/// The mapping with the tracks of `name` replaced by `tracks`.
pub open spec fn with_tracks(m: Seq<EntryView>, name: Seq<char>, tracks: Seq<Seq<char>>) -> Seq<EntryView> {
    m.update(index_of_name(m, name), (name, tracks))
}

/// The text of a JSON object mapping each name to its array of tracks.
pub uninterp spec fn playlist_json(entries: Seq<EntryView>) -> Seq<char>;

/// The mapping a JSON text holds, when it is an object of string arrays.
pub uninterp spec fn parsed_playlists(text: Seq<char>) -> Option<Seq<EntryView>>;

/// Relies on `serde_json::to_string_pretty` over a `BTreeMap` of the entries:
/// the pretty-printed JSON object. It fails only when a `Serialize` impl fails
/// or a map key is not a string, neither of which a map of strings to string
/// lists can give.
#[verifier::external_body]
fn encode_playlists(entries: &Vec<(String, Vec<String>)>) -> (r: Result<String, serde_json::Error>)
    ensures
        r is Ok,
        r matches Ok(s) ==> s@ == playlist_json(entry_views(entries@)),
{
    let map: BTreeMap<String, Vec<String>> = entries.iter().cloned().collect();
    serde_json::to_string_pretty(&map)
}

/// Relies on `serde_json::from_str` into a `BTreeMap` of names to track lists:
/// the entries parsed from the text, or the parse error.
#[verifier::external_body]
fn decode_playlists(text: &str) -> (r: Result<Vec<(String, Vec<String>)>, serde_json::Error>)
    ensures
        match r {
            Ok(e) => parsed_playlists(text@) == Some(entry_views(e@)),
            Err(_) => parsed_playlists(text@) is None,
        },
{
    let map: BTreeMap<String, Vec<String>> = serde_json::from_str(text)?;
    Ok(map.into_iter().collect())
}

fn clone_entry(e: &(String, Vec<String>)) -> (r: (String, Vec<String>))
    ensures
        r.0@ == e.0@,
        views(r.1@) == views(e.1@),
{
    let tracks = e.1.clone();
    assert(views(tracks@) =~= views(e.1@));
    (e.0.clone(), tracks)
}

/// Named playlists, each an ordered list of track names; names are unique.
pub struct PlaylistStore {
    entries: Vec<(String, Vec<String>)>,
}

proof fn lemma_index_of_name(m: Seq<EntryView>, i: int)
    requires
        names_of(m).no_duplicates(),
        0 <= i < m.len(),
    ensures
        index_of_name(m, m[i].0) == i,
{
    let name = m[i].0;
    assert(has_name(m, name));
    let j = index_of_name(m, name);
    assert(names_of(m)[i] == name && names_of(m)[j] == name);
}

proof fn lemma_update_keeps_names(m: Seq<EntryView>, i: int, tracks: Seq<Seq<char>>)
    requires
        names_of(m).no_duplicates(),
        0 <= i < m.len(),
    ensures
        names_of(m.update(i, (m[i].0, tracks))) == names_of(m),
{
    assert(names_of(m.update(i, (m[i].0, tracks))) =~= names_of(m));
}

impl PlaylistStore {
    /// The playlists, in store order.
    pub closed spec fn view(&self) -> Seq<EntryView> {
        entry_views(self.entries@)
    }

    pub open spec fn wf(&self) -> bool {
        names_of(self@).no_duplicates()
    }

    /// A store with no playlists.
    pub fn new() -> (r: PlaylistStore)
        ensures
            r.wf(),
            r@.len() == 0,
    {
        let r = PlaylistStore { entries: Vec::new() };
        assert(names_of(r@) =~= Seq::empty());
        r
    }

    /// Finds the position of the playlist called `name`.
    fn find(&self, name: &String) -> (r: Option<usize>)
        requires
            self.wf(),
        ensures
            match r {
                Some(i) => i < self@.len() && self@[i as int].0 == name@
                    && index_of_name(self@, name@) == i,
                None => !has_name(self@, name@),
            },
    {
        let mut i: usize = 0;
        while i < self.entries.len()
            invariant
                i <= self.entries@.len(),
                self.wf(),
                self@.len() == self.entries@.len(),
                forall|j: int| 0 <= j < i ==> self@[j].0 != name@,
            decreases self.entries.len() - i,
        {
            assert(self@[i as int].0 == self.entries@[i as int].0@);
            if self.entries[i].0 == *name {
                proof {
                    lemma_index_of_name(self@, i as int);
                }
                return Some(i);
            }
            i = i + 1;
        }
        None
    }

    /// The names of all playlists, in store order.
    pub fn names(&self) -> (r: Vec<String>)
        ensures
            views(r@) == names_of(self@),
    {
        let mut r: Vec<String> = Vec::new();
        let mut i: usize = 0;
        while i < self.entries.len()
            invariant
                i <= self.entries@.len(),
                self@.len() == self.entries@.len(),
                views(r@) == names_of(self@).take(i as int),
            decreases self.entries.len() - i,
        {
            let ghost before = r@;
            let n = self.entries[i].0.clone();
            assert(n@ == names_of(self@)[i as int]);
            r.push(n);
            assert(views(r@) =~= views(before).push(n@));
            assert(views(r@) =~= names_of(self@).take(i as int + 1));
            i = i + 1;
        }
        assert(names_of(self@).take(i as int) =~= names_of(self@));
        r
    }

    /// Whether a playlist called `name` exists.
    pub fn contains(&self, name: &String) -> (r: bool)
        requires
            self.wf(),
        ensures
            r == has_name(self@, name@),
    {
        self.find(name).is_some()
    }

    /// The tracks of the playlist called `name`, or `None` when there is none.
    pub fn tracks(&self, name: &String) -> (r: Option<Vec<String>>)
        requires
            self.wf(),
        ensures
            r is Some <==> has_name(self@, name@),
            r matches Some(t) ==> views(t@) == tracks_of(self@, name@),
    {
        match self.find(name) {
            Some(i) => Some(self.entries[i].1.clone()),
            None => None,
        }
    }

    /// Appends one track to the playlist called `name`; the other entries and
    /// the earlier tracks stay as they were.
    pub fn append(&mut self, name: &String, track: String) -> (r: Result<(), StoreError>)
        requires
            old(self).wf(),
        ensures
            final(self).wf(),
            r is Err <==> !has_name(old(self)@, name@),
            r matches Err(e) ==> e == StoreError::UnknownPlaylist && final(self)@ == old(self)@,
            r is Ok ==> final(self)@ == with_tracks(old(self)@, name@, tracks_of(old(self)@, name@).push(track@)),
    {
        match self.find(name) {
            None => Err(StoreError::UnknownPlaylist),
            Some(i) => {
                let ghost m = self@;
                let mut entry = self.entries.remove(i);
                entry.1.push(track);
                self.entries.insert(i, entry);
                proof {
                    assert(views(entry.1@) =~= m[i as int].1.push(track@));
                    assert(self@ =~= m.update(i as int, (m[i as int].0, m[i as int].1.push(track@))));
                    lemma_update_keeps_names(m, i as int, m[i as int].1.push(track@));
                }
                Ok(())
            },
        }
    }

    /// Replaces the tracks of the playlist called `name` as a whole.
    pub fn overwrite(&mut self, name: &String, tracks: Vec<String>) -> (r: Result<(), StoreError>)
        requires
            old(self).wf(),
        ensures
            final(self).wf(),
            r is Err <==> !has_name(old(self)@, name@),
            r matches Err(e) ==> e == StoreError::UnknownPlaylist && final(self)@ == old(self)@,
            r is Ok ==> final(self)@ == with_tracks(old(self)@, name@, views(tracks@)),
    {
        match self.find(name) {
            None => Err(StoreError::UnknownPlaylist),
            Some(i) => {
                let ghost m = self@;
                let mut entry = self.entries.remove(i);
                entry.1 = tracks;
                self.entries.insert(i, entry);
                proof {
                    assert(self@ =~= m.update(i as int, (m[i as int].0, views(tracks@))));
                    lemma_update_keeps_names(m, i as int, views(tracks@));
                }
                Ok(())
            },
        }
    }

    /// Creates an empty playlist called `name` at the end of the store. An
    /// existing one is emptied in place when `overwrite` is set, and refused
    /// otherwise.
    pub fn create(&mut self, name: String, overwrite: bool) -> (r: Result<(), StoreError>)
        requires
            old(self).wf(),
        ensures
            final(self).wf(),
            r is Err <==> (has_name(old(self)@, name@) && !overwrite),
            r matches Err(e) ==> e == StoreError::AlreadyExists && final(self)@ == old(self)@,
            r is Ok && has_name(old(self)@, name@) ==> final(self)@ == with_tracks(old(self)@, name@, Seq::empty()),
            r is Ok && !has_name(old(self)@, name@) ==> final(self)@ == old(self)@.push((name@, Seq::empty())),
    {
        match self.find(&name) {
            Some(i) => {
                if !overwrite {
                    return Err(StoreError::AlreadyExists);
                }
                let r = self.overwrite(&name, Vec::new());
                assert(views(Seq::<String>::empty()) =~= Seq::empty());
                r
            },
            None => {
                let ghost m = self@;
                self.entries.push((name, Vec::new()));
                proof {
                    assert(views(Seq::<String>::empty()) =~= Seq::empty());
                    assert(self@ =~= m.push((name@, Seq::empty())));
                    assert(names_of(self@) =~= names_of(m).push(name@));
                    assert forall|a: int, b: int| 0 <= a < b < names_of(self@).len() implies
                        names_of(self@)[a] != names_of(self@)[b] by {
                        if b == m.len() {
                            if names_of(self@)[a] == name@ {
                                assert(m[a].0 == name@);
                            }
                        }
                    }
                }
                Ok(())
            },
        }
    }

    /// The store holding exactly `entries`, refused when two share a name.
    pub fn from_entries(entries: Vec<(String, Vec<String>)>) -> (r: Result<PlaylistStore, StoreError>)
        ensures
            r is Ok <==> names_of(entry_views(entries@)).no_duplicates(),
            r matches Ok(s) ==> s.wf() && s@ == entry_views(entries@),
            r matches Err(e) ==> e == StoreError::DuplicateName,
    {
        let mut store = PlaylistStore::new();
        let ghost target = entry_views(entries@);
        let mut i: usize = 0;
        while i < entries.len()
            invariant
                i <= entries@.len(),
                target == entry_views(entries@),
                store.wf(),
                store@ == target.take(i as int),
            decreases entries.len() - i,
        {
            let name = entries[i].0.clone();
            if store.contains(&name) {
                proof {
                    let j = choose|j: int| 0 <= j < store@.len() && #[trigger] store@[j].0 == name@;
                    assert(names_of(target)[j] == names_of(target)[i as int]);
                }
                return Err(StoreError::DuplicateName);
            }
            let ghost m = store@;
            let e = clone_entry(&entries[i]);
            assert((e.0@, views(e.1@)) == target[i as int]);
            store.entries.push(e);
            proof {
                assert(store@ =~= m.push(target[i as int]));
                assert(store@ =~= target.take(i as int + 1));
                assert(names_of(store@) =~= names_of(m).push(name@));
                assert forall|a: int, b: int| 0 <= a < b < names_of(store@).len() implies
                    names_of(store@)[a] != names_of(store@)[b] by {
                    if b == m.len() {
                        if names_of(store@)[a] == name@ {
                            assert(m[a].0 == name@);
                        }
                    }
                }
            }
            i = i + 1;
        }
        assert(target.take(i as int) =~= target);
        Ok(store)
    }

    /// The playlists as (name, tracks) pairs, in store order.
    pub fn entries(&self) -> (r: Vec<(String, Vec<String>)>)
        ensures
            entry_views(r@) == self@,
    {
        let mut r: Vec<(String, Vec<String>)> = Vec::new();
        let mut i: usize = 0;
        while i < self.entries.len()
            invariant
                i <= self.entries@.len(),
                self@.len() == self.entries@.len(),
                entry_views(r@) == self@.take(i as int),
            decreases self.entries.len() - i,
        {
            let ghost before = r@;
            let e = clone_entry(&self.entries[i]);
            assert((e.0@, views(e.1@)) == self@[i as int]);
            r.push(e);
            assert(entry_views(r@) =~= entry_views(before).push(self@[i as int]));
            assert(entry_views(r@) =~= self@.take(i as int + 1));
            i = i + 1;
        }
        assert(self@.take(i as int) =~= self@);
        r
    }

    /// The store as pretty-printed JSON text.
    pub fn to_json(&self) -> (r: String)
        ensures
            r@ == playlist_json(self@),
    {
        encode_playlists(&self.entries).unwrap()
    }

    /// Reads a store from JSON text: `Malformed` unless the text is an object
    /// of string arrays.
    pub fn from_json(text: &str) -> (r: Result<PlaylistStore, StoreError>)
        ensures
            parsed_playlists(text@) is None ==> r == Err::<PlaylistStore, StoreError>(StoreError::Malformed),
            parsed_playlists(text@) matches Some(m) ==> (r is Ok <==> names_of(m).no_duplicates()),
            parsed_playlists(text@) matches Some(m) ==> (r matches Ok(s) ==> s.wf() && s@ == m),
            r matches Err(e) ==> (e == StoreError::Malformed || e == StoreError::DuplicateName),
    {
        match decode_playlists(text) {
            Ok(entries) => PlaylistStore::from_entries(entries),
            Err(_) => Err(StoreError::Malformed),
        }
    }
}

/// Reading a playlist after overwriting it gives back exactly the tracks
/// written, in their order; the names, and the other playlists, read as before.
pub proof fn lemma_overwrite_then_read(m: Seq<EntryView>, name: Seq<char>, tracks: Seq<Seq<char>>)
    requires
        names_of(m).no_duplicates(),
        has_name(m, name),
    ensures
        has_name(with_tracks(m, name, tracks), name),
        tracks_of(with_tracks(m, name, tracks), name) == tracks,
        names_of(with_tracks(m, name, tracks)) == names_of(m),
        forall|other: Seq<char>| other != name && has_name(m, other) ==>
            has_name(with_tracks(m, name, tracks), other)
            && tracks_of(with_tracks(m, name, tracks), other) == tracks_of(m, other),
{
    let i = index_of_name(m, name);
    lemma_update_keeps_names(m, i, tracks);
    let m2 = with_tracks(m, name, tracks);
    assert(m2[i].0 == name);
    lemma_index_of_name(m2, i);
    assert forall|other: Seq<char>| other != name && has_name(m, other) implies
        has_name(m2, other) && tracks_of(m2, other) == tracks_of(m, other) by {
        let j = index_of_name(m, other);
        lemma_index_of_name(m, j);
        assert(m2[j].0 == other);
        lemma_index_of_name(m2, j);
    }
}

/// Appending a track to a stored playlist and reading it back gives its
/// earlier tracks, in their order, followed by exactly that one track; the
/// other playlists read as before.
pub proof fn lemma_append_then_read(m: Seq<EntryView>, name: Seq<char>, track: Seq<char>)
    requires
        names_of(m).no_duplicates(),
        has_name(m, name),
    ensures
        ({
            let m2 = with_tracks(m, name, tracks_of(m, name).push(track));
            &&& has_name(m2, name)
            &&& tracks_of(m2, name).len() == tracks_of(m, name).len() + 1
            &&& tracks_of(m2, name).drop_last() == tracks_of(m, name)
            &&& tracks_of(m2, name).last() == track
            &&& names_of(m2) == names_of(m)
            &&& forall|other: Seq<char>| other != name && has_name(m, other) ==>
                has_name(m2, other) && tracks_of(m2, other) == tracks_of(m, other)
        }),
{
    let t = tracks_of(m, name).push(track);
    lemma_overwrite_then_read(m, name, t);
    assert(t.drop_last() =~= tracks_of(m, name));
}

} // verus!
