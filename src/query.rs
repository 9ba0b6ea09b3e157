use vstd::prelude::*;
use crate::item::{find_songs, list_titles, rows_of, Item, LookupError, Song};
use crate::stack::{names_view, Preview};

verus! {

/// What a query is for.
#[derive(Debug, PartialEq, Eq, Structural, Clone, Copy)]
pub enum QueryId {
    Init,
    OpenOrPlay,
    Preview,
}

/// A supersession slot: a newer query in a slot makes older ones there stale.
#[derive(Debug, PartialEq, Eq, Structural, Clone, Copy)]
pub enum Slot {
    Init,
    OpenOrPlay,
    AlbumsPreview,
}

/// The pane a query's result is routed to.
#[derive(Debug, PartialEq, Eq, Structural, Clone, Copy)]
pub enum PaneType {
    Albums,
}

/// Attribute that a catalog filter matches on.
#[derive(Debug, PartialEq, Eq, Structural, Clone, Copy)]
pub enum Tag {
    File,
    Album,
}

/// Exact match of one attribute.
#[derive(Debug)]
pub struct Filter {
    pub tag: Tag,
    pub value: String,
}

/// The remote work a query stands for.
#[derive(Debug)]
pub enum Work {
    /// List every album name.
    ListAlbums,
    /// Fetch the songs of an album as the rows of a new level.
    ListTitles { album: String },
    /// Fetch the songs of an album as a group preview.
    PreviewGroup { album: String },
    /// Fetch the one song with this file in this album as a song preview.
    PreviewSong { album: String, file: String },
}

/// A query as handed to the worker: a snapshot of everything it needs.
#[derive(Debug)]
pub struct Query {
    pub id: QueryId,
    pub slot: Slot,
    pub target: PaneType,
    pub ticket: u64,
    pub origin_path: Option<Vec<String>>,
    pub work: Work,
}

/// What a completed query carries back.
#[derive(Debug)]
pub enum Payload {
    Albums(Vec<String>),
    Rows(Vec<Item>),
    Preview(Option<Preview>),
}

#[derive(Debug)]
pub struct QueryResult {
    pub id: QueryId,
    pub slot: Slot,
    pub ticket: u64,
    pub origin_path: Option<Vec<String>>,
    pub payload: Payload,
}

pub open spec fn find_filters_view(work: Work) -> Seq<(Tag, Seq<char>)> {
    match work {
        Work::ListAlbums => seq![],
        Work::ListTitles { album } => seq![(Tag::Album, album@)],
        Work::PreviewGroup { album } => seq![(Tag::Album, album@)],
        Work::PreviewSong { album, file } => seq![(Tag::File, file@), (Tag::Album, album@)],
    }
}

pub open spec fn filters_view(f: Seq<Filter>) -> Seq<(Tag, Seq<char>)> {
    f.map_values(|x: Filter| (x.tag, x.value@))
}

impl Work {
    /// The filters of the catalog lookup that this work makes (none for the
    /// album listing, which is no lookup).
    pub fn filters(&self) -> (r: Vec<Filter>)
        ensures
            filters_view(r@) == find_filters_view(*self),
    {
        let mut r: Vec<Filter> = Vec::new();
        match self {
            Work::ListAlbums => {},
            Work::ListTitles { album } => {
                r.push(Filter { tag: Tag::Album, value: album.clone() });
            },
            Work::PreviewGroup { album } => {
                r.push(Filter { tag: Tag::Album, value: album.clone() });
            },
            Work::PreviewSong { album, file } => {
                r.push(Filter { tag: Tag::File, value: file.clone() });
                r.push(Filter { tag: Tag::Album, value: album.clone() });
            },
        }
        proof {
            assert(filters_view(r@) =~= find_filters_view(*self));
        }
        r
    }
}

/// The payload that a catalog lookup's songs make for `work`.
pub open spec fn lookup_payload_ok(work: Work, found: Seq<Song>, p: Payload) -> bool {
    match work {
        Work::ListAlbums => false,
        Work::ListTitles { .. } => p matches Payload::Rows(rows)
            && rows_of(rows@, found),
        Work::PreviewGroup { .. } => p matches Payload::Preview(Some(Preview::Group(rows)))
            && rows_of(rows@, found),
        Work::PreviewSong { .. } => p matches Payload::Preview(Some(Preview::Song(s)))
            && exists|k: int| 0 <= k < found.len() && s == found[k]
            && forall|j: int| 0 <= j < found.len() ==> found[k].rank < (#[trigger] found[j]).rank
                || (found[k].rank == found[j].rank && k <= j),
    }
}

impl QueryResult {
    /// The result of the album listing for `query`.
    pub fn albums(query: Query, names: Vec<String>) -> (r: QueryResult)
        ensures
            r.id == query.id,
            r.slot == query.slot,
            r.ticket == query.ticket,
            r.origin_path == query.origin_path,
            r.payload == Payload::Albums(names),
    {
        QueryResult { id: query.id, slot: query.slot, ticket: query.ticket, origin_path: query.origin_path, payload: Payload::Albums(names) }
    }

    /// The result of a catalog lookup for `query`, from the songs it found.
    /// Only a song preview can fail: when nothing was found.
    pub fn from_lookup(query: Query, found: &Vec<Song>) -> (r: Result<QueryResult, LookupError>)
        requires
            !(query.work is ListAlbums),
        ensures
            r is Err <==> (query.work is PreviewSong && found@.len() == 0),
            r matches Err(LookupError::NotFound { album: a, file: f }) ==> (query.work matches Work::PreviewSong { album, file }
                && a@ == album@ && f@ == file@),
            r matches Ok(res) ==> res.id == query.id && res.slot == query.slot
                && res.ticket == query.ticket && res.origin_path == query.origin_path
                && lookup_payload_ok(query.work, found@, res.payload),
    {
        let payload = match &query.work {
            Work::ListAlbums => Payload::Albums(Vec::new()),
            Work::ListTitles { .. } => {
                let rows = list_titles(found);
                Payload::Rows(rows)
            },
            Work::PreviewGroup { .. } => {
                let rows = list_titles(found);
                Payload::Preview(Some(Preview::Group(rows)))
            },
            Work::PreviewSong { album, file } => match find_songs(album, file, found) {
                Ok(s) => {
                    assert(lookup_payload_ok(query.work, found@, Payload::Preview(Some(Preview::Song(s)))));
                    Payload::Preview(Some(Preview::Song(s)))
                },
                Err(e) => {
                    return Err(e);
                },
            },
        };
        Ok(QueryResult { id: query.id, slot: query.slot, ticket: query.ticket, origin_path: query.origin_path, payload })
    }
}

/// Tickets of the latest query in each slot, while its result is awaited.
#[derive(Debug)]
pub struct Correlator {
    pub next_ticket: u64,
    pub init: Option<u64>,
    pub open_or_play: Option<u64>,
    pub preview: Option<u64>,
}

pub open spec fn awaited(c: Correlator, slot: Slot) -> Option<u64> {
    match slot {
        Slot::Init => c.init,
        Slot::OpenOrPlay => c.open_or_play,
        Slot::AlbumsPreview => c.preview,
    }
}

pub open spec fn with_awaited(c: Correlator, slot: Slot, t: Option<u64>) -> Correlator {
    match slot {
        Slot::Init => Correlator { init: t, ..c },
        Slot::OpenOrPlay => Correlator { open_or_play: t, ..c },
        Slot::AlbumsPreview => Correlator { preview: t, ..c },
    }
}

/// Submitting in `slot`: the next ticket is issued and replaces whatever the
/// slot awaited.
pub open spec fn submitted(c: Correlator, slot: Slot) -> (Correlator, u64) {
    (with_awaited(Correlator { next_ticket: (c.next_ticket + 1) as u64, ..c }, slot, Some(c.next_ticket)), c.next_ticket)
}

/// A result with `ticket` arrives in `slot`: it is honoured iff it is the one
/// the slot awaits, and then the slot awaits nothing more.
pub open spec fn finished(c: Correlator, slot: Slot, ticket: u64) -> (Correlator, bool) {
    if awaited(c, slot) == Some(ticket) {
        (with_awaited(c, slot, None), true)
    } else {
        (c, false)
    }
}

/// Every awaited ticket was issued before the counter.
pub open spec fn tickets_wf(c: Correlator) -> bool {
    &&& (c.init matches Some(t) ==> t < c.next_ticket)
    &&& (c.open_or_play matches Some(t) ==> t < c.next_ticket)
    &&& (c.preview matches Some(t) ==> t < c.next_ticket)
}

impl Correlator {
    pub fn new() -> (r: Correlator)
        ensures
            r.next_ticket == 0,
            awaited(r, Slot::Init) is None,
            awaited(r, Slot::OpenOrPlay) is None,
            awaited(r, Slot::AlbumsPreview) is None,
    {
        Correlator { next_ticket: 0, init: None, open_or_play: None, preview: None }
    }

    pub fn awaiting(&self, slot: Slot) -> (r: Option<u64>)
        ensures
            r == awaited(*self, slot),
    {
        match slot {
            Slot::Init => self.init,
            Slot::OpenOrPlay => self.open_or_play,
            Slot::AlbumsPreview => self.preview,
        }
    }

    pub fn submit(&mut self, slot: Slot) -> (r: u64)
        requires
            old(self).next_ticket < u64::MAX,
        ensures
            (*final(self), r) == submitted(*old(self), slot),
    {
        let t = self.next_ticket;
        self.next_ticket = t + 1;
        match slot {
            Slot::Init => self.init = Some(t),
            Slot::OpenOrPlay => self.open_or_play = Some(t),
            Slot::AlbumsPreview => self.preview = Some(t),
        }
        t
    }

    pub fn finish(&mut self, slot: Slot, ticket: u64) -> (r: bool)
        ensures
            (*final(self), r) == finished(*old(self), slot, ticket),
    {
        if self.awaiting(slot) == Some(ticket) {
            match slot {
                Slot::Init => self.init = None,
                Slot::OpenOrPlay => self.open_or_play = None,
                Slot::AlbumsPreview => self.preview = None,
            }
            true
        } else {
            false
        }
    }
}

/// Two submissions in one slot, before either result arrives: the earlier
/// result is never honoured, the later one is honoured whenever it arrives,
/// and in either order of arrival at most one of them is.
pub proof fn lemma_later_submission_wins(c: Correlator, slot: Slot)
    requires
        tickets_wf(c),
        c.next_ticket + 2 <= u64::MAX,
    ensures
        ({
            let (c1, t1) = submitted(c, slot);
            let (c2, t2) = submitted(c1, slot);
            &&& t1 != t2
            &&& !finished(c2, slot, t1).1
            &&& finished(c2, slot, t2).1
            &&& !finished(finished(c2, slot, t2).0, slot, t1).1
            &&& !finished(finished(c2, slot, t2).0, slot, t2).1
            &&& finished(finished(c2, slot, t1).0, slot, t2).1
        }),
{
}

} // verus!
