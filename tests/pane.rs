use albums_pane::{
    find_songs, list_titles, Action, AlbumsPane, Command, Correlator, Filter, Item, LookupError, Note,
    Payload, Preview, Query, QueryId, QueryResult, QueuePosition, Slot, Song, Tag, UiEvent, Work,
};

fn song(file: &str, rank: u64) -> Song {
    Song { file: file.to_string(), album: "A".to_string(), rank }
}

fn names(items: &[Item]) -> Vec<String> {
    items.iter().map(|i| i.dir_name_or_file_name()).collect()
}

fn filter_pairs(f: &[Filter]) -> Vec<(Tag, String)> {
    f.iter().map(|x| (x.tag, x.value.clone())).collect()
}

fn take_query(a: Action) -> Query {
    match a {
        Action::Submit(q) => q,
        other => panic!("expected a query, got {:?}", other),
    }
}

/// A pane whose root lists albums A and B, with the preview query for A still out.
fn pane_at_root() -> (AlbumsPane, Query) {
    let mut pane = AlbumsPane::new();
    let mut acts = pane.before_show();
    assert_eq!(acts.len(), 1);
    let init = take_query(acts.remove(0));
    assert_eq!(init.id, QueryId::Init);
    assert!(matches!(init.work, Work::ListAlbums));
    let res = QueryResult::albums(init, vec!["A".to_string(), "B".to_string()]);
    let mut acts = pane.on_query_finished(res);
    assert_eq!(acts.len(), 2);
    assert!(matches!(acts[1], Action::Render));
    let preview = take_query(acts.remove(0));
    (pane, preview)
}

/// Drills into A and applies its three songs, given out of order.
fn pane_at_album() -> (AlbumsPane, Query) {
    let (mut pane, _) = pane_at_root();
    let mut acts = pane.next(0);
    assert_eq!(acts.len(), 2);
    let q = take_query(acts.remove(0));
    let found = vec![song("e3", 2), song("e1", 0), song("e2", 1)];
    let res = QueryResult::from_lookup(q, &found).unwrap();
    let mut acts = pane.on_query_finished(res);
    assert_eq!(acts.len(), 2);
    let preview = take_query(acts.remove(0));
    (pane, preview)
}

#[test]
fn drill_into_album_lists_sorted_songs() {
    let (pane, _) = pane_at_root();
    assert_eq!(names(pane.stack().current().items()), vec!["A", "B"]);
    assert!(pane.stack().path().is_empty());

    let (mut pane, _) = pane_at_root();
    let mut acts = pane.next(0);
    let q = take_query(acts.remove(0));
    assert_eq!(q.id, QueryId::OpenOrPlay);
    assert_eq!(q.slot, Slot::OpenOrPlay);
    assert_eq!(q.origin_path, Some(vec!["A".to_string()]));
    assert_eq!(filter_pairs(&q.work.filters()), vec![(Tag::Album, "A".to_string())]);
    assert!(matches!(acts[0], Action::Render));
    assert_eq!(pane.stack().path(), &vec!["A".to_string()]);
    assert!(pane.stack().current().items().is_empty());

    let found = vec![song("e3", 2), song("e1", 0), song("e2", 1)];
    let res = QueryResult::from_lookup(q, &found).unwrap();
    pane.on_query_finished(res);
    assert_eq!(names(pane.stack().current().items()), vec!["e1", "e2", "e3"]);
    assert_eq!(pane.stack().path(), &vec!["A".to_string()]);
}

#[test]
fn open_with_autoplay_adds_then_plays_at_prior_length() {
    let (mut pane, _) = pane_at_album();
    pane.select(1);
    let acts = pane.open(7);
    assert_eq!(acts.len(), 2);
    match &acts[0] {
        Action::Run(Command::FindAdd { filters, position, note }) => {
            assert_eq!(
                filter_pairs(filters),
                vec![(Tag::File, "e2".to_string()), (Tag::Album, "A".to_string())]
            );
            assert_eq!(*position, None);
            assert!(matches!(note, Note::SongAdded(n) if n == "e2"));
        }
        other => panic!("unexpected {:?}", other),
    }
    assert!(matches!(acts[1], Action::Run(Command::PlayAt { index: 7 })));
    assert_eq!(pane.stack().path(), &vec!["A".to_string()]);
}

#[test]
fn open_without_autoplay_only_adds() {
    let (mut pane, _) = pane_at_album();
    let acts = pane.next(3);
    assert_eq!(acts.len(), 1);
    assert!(matches!(acts[0], Action::Run(Command::FindAdd { .. })));
}

#[test]
fn add_all_at_root_and_at_album() {
    let (pane, _) = pane_at_root();
    let acts = pane.add_all(None);
    assert_eq!(acts.len(), 1);
    assert!(matches!(acts[0], Action::Run(Command::AddEverything { position: None })));

    let (pane, _) = pane_at_album();
    let acts = pane.add_all(Some(QueuePosition::Absolute(2)));
    assert_eq!(acts.len(), 1);
    match &acts[0] {
        Action::Run(Command::FindAdd { filters, position, note }) => {
            assert_eq!(filter_pairs(filters), vec![(Tag::Album, "A".to_string())]);
            assert_eq!(*position, Some(QueuePosition::Absolute(2)));
            assert!(matches!(note, Note::AlbumAdded(n) if n == "A"));
        }
        other => panic!("unexpected {:?}", other),
    }
}

#[test]
fn add_item_at_root_adds_album() {
    let (pane, _) = pane_at_root();
    let item = Item::name_only("B".to_string());
    let acts = pane.add(&item, None);
    match &acts[0] {
        Action::Run(Command::FindAdd { filters, note, .. }) => {
            assert_eq!(filter_pairs(filters), vec![(Tag::Album, "B".to_string())]);
            assert!(matches!(note, Note::AlbumAdded(n) if n == "B"));
        }
        other => panic!("unexpected {:?}", other),
    }
}

#[test]
fn stale_preview_after_going_back_is_dropped() {
    let (mut pane, preview) = pane_at_album();
    assert_eq!(preview.origin_path, Some(vec!["A".to_string()]));
    let acts = pane.back();
    assert!(pane.stack().path().is_empty());
    assert_eq!(acts.len(), 1);
    let res = QueryResult::from_lookup(preview, &vec![song("e1", 0)]).unwrap();
    let acts = pane.on_query_finished(res);
    assert!(acts.is_empty());
    assert!(pane.stack().preview().is_none());
}

#[test]
fn result_for_another_path_is_dropped_even_when_awaited() {
    let (mut pane, _) = pane_at_album();
    let mut acts = pane.back();
    let current = take_query(acts.remove(0));
    let res = QueryResult {
        id: QueryId::Preview,
        slot: Slot::AlbumsPreview,
        ticket: current.ticket,
        origin_path: Some(vec!["A".to_string()]),
        payload: Payload::Preview(Some(Preview::Song(song("e1", 0)))),
    };
    assert!(pane.on_query_finished(res).is_empty());
    assert!(pane.stack().preview().is_none());
}

#[test]
fn matching_preview_is_applied() {
    let (mut pane, preview) = pane_at_album();
    match &preview.work {
        Work::PreviewSong { album, file } => {
            assert_eq!(album, "A");
            assert_eq!(file, "e1");
        }
        other => panic!("unexpected {:?}", other),
    }
    let res = QueryResult::from_lookup(preview, &vec![song("e1", 0)]).unwrap();
    let acts = pane.on_query_finished(res);
    assert_eq!(acts.len(), 1);
    assert!(matches!(pane.stack().preview(), Some(Preview::Song(s)) if s.file == "e1"));
}

#[test]
fn root_preview_lists_group_songs() {
    let (mut pane, preview) = pane_at_root();
    assert!(matches!(&preview.work, Work::PreviewGroup { album } if album == "A"));
    let res = QueryResult::from_lookup(preview, &vec![song("y", 5), song("x", 1)]).unwrap();
    pane.on_query_finished(res);
    match pane.stack().preview() {
        Some(Preview::Group(rows)) => assert_eq!(names(rows), vec!["x", "y"]),
        other => panic!("unexpected {:?}", other),
    }
}

#[test]
fn preview_lookup_with_no_match_is_not_found() {
    let r = find_songs(&"A".to_string(), &"missing.flac".to_string(), &Vec::new());
    match r {
        Err(LookupError::NotFound { album, file }) => {
            assert_eq!(album, "A");
            assert_eq!(file, "missing.flac");
        }
        Ok(s) => panic!("unexpected {:?}", s),
    }
    let (_, preview) = pane_at_album();
    assert!(matches!(
        QueryResult::from_lookup(preview, &Vec::new()),
        Err(LookupError::NotFound { album, file }) if album == "A" && file == "e1"
    ));
}

#[test]
fn find_songs_takes_first_in_sort_order() {
    let found = vec![song("b", 3), song("a", 1), song("c", 1)];
    let s = find_songs(&"A".to_string(), &"a".to_string(), &found).unwrap();
    assert_eq!(s.file, "a");
}

#[test]
fn list_titles_is_stable_for_equal_ranks() {
    let found = vec![song("p", 2), song("q", 1), song("r", 2), song("s", 0)];
    assert_eq!(names(&list_titles(&found)), vec!["s", "q", "p", "r"]);
    assert!(list_titles(&Vec::new()).is_empty());
}

#[test]
fn later_submission_in_a_slot_wins() {
    let mut c = Correlator::new();
    let t1 = c.submit(Slot::OpenOrPlay);
    let t2 = c.submit(Slot::OpenOrPlay);
    assert_ne!(t1, t2);
    assert!(!c.finish(Slot::OpenOrPlay, t1));
    assert!(c.finish(Slot::OpenOrPlay, t2));
    assert!(!c.finish(Slot::OpenOrPlay, t2));
}

#[test]
fn superseded_rows_are_not_applied() {
    let (mut pane, _) = pane_at_root();
    let mut acts = pane.next(0);
    let first = take_query(acts.remove(0));
    pane.back();
    let mut acts = pane.next(0);
    let second = take_query(acts.remove(0));
    let stale = QueryResult::from_lookup(first, &vec![song("old", 0)]).unwrap();
    assert!(pane.on_query_finished(stale).is_empty());
    assert!(pane.stack().current().items().is_empty());
    let fresh = QueryResult::from_lookup(second, &vec![song("new", 0)]).unwrap();
    pane.on_query_finished(fresh);
    assert_eq!(names(pane.stack().current().items()), vec!["new"]);
}

#[test]
fn events_request_album_list() {
    let mut pane = AlbumsPane::new();
    assert_eq!(pane.before_show().len(), 1);
    assert!(pane.before_show().is_empty());
    assert!(pane.on_event(UiEvent::Other).is_empty());
    let mut acts = pane.on_event(UiEvent::Database);
    assert_eq!(take_query(acts.remove(0)).id, QueryId::Init);
    let mut acts = pane.on_event(UiEvent::Reconnected);
    assert_eq!(take_query(acts.remove(0)).slot, Slot::Init);
}

#[test]
fn selection_is_clamped() {
    let (mut pane, _) = pane_at_root();
    pane.select(9);
    assert_eq!(pane.stack().current().selected_index(), 1);
    pane.set_filter_input_mode_active(true);
    assert!(pane.is_filter_input_mode_active());
}

#[test]
fn songs_in_item() {
    let pane = AlbumsPane::new();
    match pane.list_songs_in_item(Item::name_only("A".to_string())) {
        albums_pane::SongSource::Find(f) => assert_eq!(filter_pairs(&f), vec![(Tag::Album, "A".to_string())]),
        other => panic!("unexpected {:?}", other),
    }
    match pane.list_songs_in_item(Item::Song(song("x", 0))) {
        albums_pane::SongSource::Given(v) => assert_eq!(v[0].file, "x"),
        other => panic!("unexpected {:?}", other),
    }
}
