use mupl::data::PlaylistStore;
use mupl::data::StoreError;

fn s(x: &str) -> String {
    x.to_string()
}

fn sample() -> PlaylistStore {
    PlaylistStore::from_entries(vec![
        (s("rock"), vec![s("a.mp3"), s("b.mp3")]),
        (s("jazz"), vec![]),
    ])
    .unwrap()
}

#[test]
fn names_and_tracks() {
    let st = sample();
    assert_eq!(st.names(), vec![s("rock"), s("jazz")]);
    assert_eq!(st.tracks(&s("rock")), Some(vec![s("a.mp3"), s("b.mp3")]));
    assert_eq!(st.tracks(&s("jazz")), Some(vec![]));
    assert_eq!(st.tracks(&s("pop")), None);
    assert!(PlaylistStore::new().names().is_empty());
}

#[test]
fn append_to_unknown_playlist_fails() {
    let mut st = sample();
    assert_eq!(st.append(&s("pop"), s("c.mp3")), Err(StoreError::UnknownPlaylist));
    assert_eq!(st.names(), vec![s("rock"), s("jazz")]);
}

#[test]
fn append_adds_exactly_one_entry_at_the_end() {
    let mut st = sample();
    assert_eq!(st.append(&s("rock"), s("c.mp3")), Ok(()));
    assert_eq!(st.tracks(&s("rock")), Some(vec![s("a.mp3"), s("b.mp3"), s("c.mp3")]));
    assert_eq!(st.tracks(&s("jazz")), Some(vec![]));
}

#[test]
fn create_refuses_existing_unless_confirmed() {
    let mut st = sample();
    assert_eq!(st.create(s("rock"), false), Err(StoreError::AlreadyExists));
    assert_eq!(st.tracks(&s("rock")).unwrap().len(), 2);
    assert_eq!(st.create(s("rock"), true), Ok(()));
    assert_eq!(st.tracks(&s("rock")), Some(vec![]));
    assert_eq!(st.create(s("pop"), false), Ok(()));
    assert_eq!(st.names(), vec![s("rock"), s("jazz"), s("pop")]);
}

#[test]
fn overwrite_replaces_the_list() {
    let mut st = sample();
    assert_eq!(st.overwrite(&s("rock"), vec![s("z.mp3")]), Ok(()));
    assert_eq!(st.tracks(&s("rock")), Some(vec![s("z.mp3")]));
    assert_eq!(st.overwrite(&s("none"), vec![]), Err(StoreError::UnknownPlaylist));
}

#[test]
fn duplicate_names_are_refused() {
    let r = PlaylistStore::from_entries(vec![(s("a"), vec![]), (s("a"), vec![s("x")])]);
    assert_eq!(r.err(), Some(StoreError::DuplicateName));
}

#[test]
fn json_round_trip_keeps_names_and_order() {
    let st = sample();
    let text = st.to_json();
    let back = PlaylistStore::from_json(&text).unwrap();
    assert_eq!(back.tracks(&s("rock")), Some(vec![s("a.mp3"), s("b.mp3")]));
    assert_eq!(back.tracks(&s("jazz")), Some(vec![]));
    let mut names = back.names();
    names.sort();
    assert_eq!(names, vec![s("jazz"), s("rock")]);
    assert!(text.contains("\"rock\""));
}

#[test]
fn json_reads_an_empty_object() {
    let st = PlaylistStore::from_json("{\n}").unwrap();
    assert!(st.names().is_empty());
    assert_eq!(PlaylistStore::new().to_json(), "{}");
}

#[test]
fn malformed_json_is_refused() {
    assert_eq!(PlaylistStore::from_json("[1, 2]").err(), Some(StoreError::Malformed));
    assert_eq!(PlaylistStore::from_json("{\"a\": [1]}").err(), Some(StoreError::Malformed));
    assert_eq!(PlaylistStore::from_json("not json").err(), Some(StoreError::Malformed));
}
