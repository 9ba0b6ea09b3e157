use vstd::prelude::*;
use crate::item::{Item, Song};
use crate::query::{
    awaited, find_filters_view, finished, submitted, tickets_wf, Correlator, Filter, PaneType,
    Payload, Query, QueryId, QueryResult, Slot, Tag, Work,
};
use crate::stack::{names_view, same_path, DirStack};

verus! {

/// Where in the play queue added songs go.
#[derive(Debug, PartialEq, Eq, Structural, Clone, Copy)]
pub enum QueuePosition {
    Absolute(u32),
    RelativeAdd(u32),
    RelativeSub(u32),
}

/// The status line shown once an add succeeded.
#[derive(Debug)]
pub enum Note {
    SongAdded(String),
    AlbumAdded(String),
}

/// A play-queue mutation for the remote player.
#[derive(Debug)]
pub enum Command {
    /// Add every song that matches all filters.
    FindAdd { filters: Vec<Filter>, position: Option<QueuePosition>, note: Note },
    /// Add the whole catalog.
    AddEverything { position: Option<QueuePosition> },
    /// Start playback at this queue index.
    PlayAt { index: usize },
}

/// What the pane asks of its surroundings, in order.
#[derive(Debug)]
pub enum Action {
    Submit(Query),
    Run(Command),
    Render,
}

/// Notifications from the rest of the application.
#[derive(Debug, PartialEq, Eq, Structural, Clone, Copy)]
pub enum UiEvent {
    Database,
    Reconnected,
    Other,
}

/// How to get the songs an item stands for.
#[derive(Debug)]
pub enum SongSource {
    Find(Vec<Filter>),
    Given(Vec<Song>),
}

pub open spec fn filters_view(f: Seq<Filter>) -> Seq<(Tag, Seq<char>)> {
    crate::query::filters_view(f)
}

pub open spec fn origin_is(q: Query, path: Seq<Seq<char>>) -> bool {
    q.origin_path matches Some(p) && names_view(p@) == path
}

/// `q` is the preview query for the selection of `stack`, issued with `ticket`.
pub open spec fn preview_query(q: Query, stack: DirStack, ticket: u64) -> bool {
    &&& q.id == QueryId::Preview
    &&& q.slot == Slot::AlbumsPreview
    &&& q.target == PaneType::Albums
    &&& q.ticket == ticket
    &&& origin_is(q, stack.path_view())
    &&& match stack.top().selection() {
        Some(x) => if stack.depth() == 0 {
            q.work is PreviewGroup && find_filters_view(q.work) == seq![(Tag::Album, x.name_view())]
        } else {
            q.work is PreviewSong && find_filters_view(q.work) == seq![
                (Tag::File, x.name_view()),
                (Tag::Album, stack.path_view()[0]),
            ]
        },
        None => false,
    }
}

/// After a move, the preview of the new selection was requested, if the
/// depth has one, and nothing else.
pub open spec fn preview_requested(before: AlbumsPane, after: AlbumsPane, r: Seq<Action>) -> bool {
    if after.stack.top().selection() is Some && after.stack.depth() <= 1 {
        r.len() == 1 && after.correlator == submitted(before.correlator, Slot::AlbumsPreview).0
            && (r[0] matches Action::Submit(q) && preview_query(q, after.stack, before.correlator.next_ticket))
    } else {
        r.len() == 0 && after.correlator == before.correlator
    }
}

/// `q` lists every album, issued with `ticket`.
pub open spec fn init_query(q: Query, ticket: u64) -> bool {
    &&& q.id == QueryId::Init
    &&& q.slot == Slot::Init
    &&& q.target == PaneType::Albums
    &&& q.ticket == ticket
    &&& q.origin_path is None
    &&& q.work is ListAlbums
}

/// The command that adds `item` while standing at `path`, if any.
pub open spec fn add_command(c: Command, item: Item, path: Seq<Seq<char>>, position: Option<QueuePosition>) -> bool {
    if path.len() == 1 {
        c matches Command::FindAdd { filters, position: p, note: Note::SongAdded(n) }
            && p == position && n@ == item.name_view()
            && filters_view(filters@) == seq![(Tag::File, item.name_view()), (Tag::Album, path[0])]
    } else {
        c matches Command::FindAdd { filters, position: p, note: Note::AlbumAdded(n) }
            && p == position && n@ == item.name_view()
            && filters_view(filters@) == seq![(Tag::Album, item.name_view())]
    }
}

/// The album pane: a navigation stack over albums and their songs, the
/// filter-input flag, whether the album list was requested, and the slots
/// of outstanding queries.
#[derive(Debug)]
pub struct AlbumsPane {
    pub stack: DirStack,
    pub filter_input_mode: bool,
    pub initialized: bool,
    pub correlator: Correlator,
}

fn album_filter(album: String) -> (r: Vec<Filter>)
    ensures
        filters_view(r@) == seq![(Tag::Album, album@)],
{
    let mut r: Vec<Filter> = Vec::new();
    r.push(Filter { tag: Tag::Album, value: album });
    proof {
        assert(filters_view(r@) =~= seq![(Tag::Album, album@)]);
    }
    r
}

fn file_album_filter(file: String, album: String) -> (r: Vec<Filter>)
    ensures
        filters_view(r@) == seq![(Tag::File, file@), (Tag::Album, album@)],
{
    let mut r: Vec<Filter> = Vec::new();
    r.push(Filter { tag: Tag::File, value: file });
    r.push(Filter { tag: Tag::Album, value: album });
    proof {
        assert(filters_view(r@) =~= seq![(Tag::File, file@), (Tag::Album, album@)]);
    }
    r
}

impl AlbumsPane {
    pub open spec fn wf(&self) -> bool {
        self.stack.wf() && tickets_wf(self.correlator)
    }

    /// Tickets are left for another query.
    pub open spec fn can_submit(&self) -> bool {
        self.correlator.next_ticket < u64::MAX
    }

    pub fn new() -> (r: AlbumsPane)
        ensures
            r.wf(),
            r.stack.depth() == 0,
            r.stack.top().rows().len() == 0,
            r.stack.preview_view() is None,
            !r.filter_input_mode,
            !r.initialized,
            r.correlator.next_ticket == 0,
    {
        let c = Correlator::new();
        AlbumsPane { stack: DirStack::new(Vec::new()), filter_input_mode: false, initialized: false, correlator: c }
    }

    pub fn stack(&self) -> (r: &DirStack)
        ensures
            *r == self.stack,
    {
        &self.stack
    }

    pub fn set_filter_input_mode_active(&mut self, active: bool)
        ensures
            final(self).filter_input_mode == active,
            final(self).stack == old(self).stack,
            final(self).correlator == old(self).correlator,
            final(self).initialized == old(self).initialized,
    {
        self.filter_input_mode = active;
    }

    pub fn is_filter_input_mode_active(&self) -> (r: bool)
        ensures
            r == self.filter_input_mode,
    {
        self.filter_input_mode
    }

    fn submit(&mut self, id: QueryId, slot: Slot, origin_path: Option<Vec<String>>, work: Work) -> (r: Query)
        requires
            old(self).can_submit(),
            tickets_wf(old(self).correlator),
        ensures
            (final(self).correlator, r.ticket) == submitted(old(self).correlator, slot),
            tickets_wf(final(self).correlator),
            final(self).stack == old(self).stack,
            final(self).filter_input_mode == old(self).filter_input_mode,
            final(self).initialized == old(self).initialized,
            r.id == id,
            r.slot == slot,
            r.target == PaneType::Albums,
            r.origin_path == origin_path,
            r.work == work,
    {
        let ticket = self.correlator.submit(slot);
        Query { id, slot, target: PaneType::Albums, ticket, origin_path, work }
    }

    /// Asks for the album list, superseding any earlier such request.
    fn request_albums(&mut self) -> (r: Query)
        requires
            old(self).can_submit(),
            tickets_wf(old(self).correlator),
        ensures
            final(self).correlator == submitted(old(self).correlator, Slot::Init).0,
            tickets_wf(final(self).correlator),
            init_query(r, old(self).correlator.next_ticket),
            final(self).stack == old(self).stack,
            final(self).filter_input_mode == old(self).filter_input_mode,
            final(self).initialized == old(self).initialized,
    {
        self.submit(QueryId::Init, Slot::Init, None, Work::ListAlbums)
    }
}

impl AlbumsPane {
    /// Adds `item` to the play queue: at an album, the song with that file in
    /// that album; at the root, the whole album of that name.
    pub fn add(&self, item: &Item, position: Option<QueuePosition>) -> (r: Vec<Action>)
        requires
            self.wf(),
        ensures
            self.stack.depth() <= 1 ==> r@.len() == 1 && (r@[0] matches Action::Run(c)
                && add_command(c, *item, self.stack.path_view(), position)),
            self.stack.depth() > 1 ==> r@.len() == 0,
    {
        let mut r: Vec<Action> = Vec::new();
        let depth = self.stack.path().len();
        let name = item.dir_name_or_file_name();
        if depth == 1 {
            let album = self.stack.path()[0].clone();
            let filters = file_album_filter(item.dir_name_or_file_name(), album);
            r.push(Action::Run(Command::FindAdd { filters, position, note: Note::SongAdded(name) }));
        } else if depth == 0 {
            let filters = album_filter(item.dir_name_or_file_name());
            r.push(Action::Run(Command::FindAdd { filters, position, note: Note::AlbumAdded(name) }));
        }
        r
    }

    /// Adds everything shown: at an album, that album; at the root, the whole catalog.
    pub fn add_all(&self, position: Option<QueuePosition>) -> (r: Vec<Action>)
        requires
            self.wf(),
        ensures
            self.stack.depth() == 0 ==> r@.len() == 1 && (r@[0] matches Action::Run(Command::AddEverything { position: p })
                && p == position),
            self.stack.depth() == 1 ==> r@.len() == 1 && (r@[0] matches Action::Run(Command::FindAdd { filters, position: p, note: Note::AlbumAdded(n) })
                && p == position && n@ == self.stack.path_view()[0]
                && filters_view(filters@) == seq![(Tag::Album, self.stack.path_view()[0])]),
            self.stack.depth() > 1 ==> r@.len() == 0,
    {
        let mut r: Vec<Action> = Vec::new();
        let depth = self.stack.path().len();
        if depth == 1 {
            let album = self.stack.path()[0].clone();
            let filters = album_filter(album.clone());
            r.push(Action::Run(Command::FindAdd { filters, position, note: Note::AlbumAdded(album) }));
        } else if depth == 0 {
            r.push(Action::Run(Command::AddEverything { position }));
        }
        r
    }

    /// Clears the preview and asks for the one of the current selection: the
    /// songs of the hovered album at the root, the hovered song at an album.
    pub fn prepare_preview(&mut self) -> (r: Vec<Action>)
        requires
            old(self).wf(),
            old(self).can_submit(),
        ensures
            final(self).wf(),
            final(self).filter_input_mode == old(self).filter_input_mode,
            final(self).initialized == old(self).initialized,
            old(self).stack.top().selection() is None ==> r@.len() == 0 && final(self).stack == old(self).stack
                && final(self).correlator == old(self).correlator,
            old(self).stack.top().selection() is Some ==> final(self).stack.levels@ == old(self).stack.levels@
                && final(self).stack.path == old(self).stack.path && final(self).stack.preview_view() is None,
            old(self).stack.top().selection() is Some && old(self).stack.depth() > 1 ==> r@.len() == 0
                && final(self).correlator == old(self).correlator,
            old(self).stack.top().selection() is Some && old(self).stack.depth() <= 1 ==> r@.len() == 1
                && final(self).correlator == submitted(old(self).correlator, Slot::AlbumsPreview).0
                && (r@[0] matches Action::Submit(q) && preview_query(q, old(self).stack, old(self).correlator.next_ticket)),
    {
        let mut r: Vec<Action> = Vec::new();
        let current = match self.stack.current().selected() {
            Some(x) => x.dir_name_or_file_name(),
            None => {
                return r;
            },
        };
        let origin_path = Some(crate::stack::copy_path(self.stack.path()));
        self.stack.clear_preview();
        let depth = self.stack.path().len();
        if depth == 1 {
            let album = self.stack.path()[0].clone();
            let q = self.submit(QueryId::Preview, Slot::AlbumsPreview, origin_path, Work::PreviewSong { album, file: current });
            r.push(Action::Submit(q));
        } else if depth == 0 {
            let q = self.submit(QueryId::Preview, Slot::AlbumsPreview, origin_path, Work::PreviewGroup { album: current });
            r.push(Action::Submit(q));
        }
        proof {
            assert forall|i: int| 0 <= i < self.stack.levels@.len() implies (#[trigger] self.stack.levels@[i]).wf() by {
                assert(self.stack.levels@[i] == old(self).stack.levels@[i]);
            }
        }
        r
    }
}

/// What opening the selection does: nothing without a selection; at an album,
/// the add command for the selected song, then with `autoplay` playback from
/// `queue_len`; at the root, an empty level pushed for the selected album, its
/// songs requested for the new path, and a redraw; deeper, a redraw only.
pub open spec fn open_outcome(before: AlbumsPane, after: AlbumsPane, autoplay: bool, queue_len: usize, r: Seq<Action>) -> bool {
    match before.stack.top().selection() {
        None => r.len() == 0 && after == before,
        Some(x) => if before.stack.depth() == 1 {
            &&& after == before
            &&& r.len() == (if autoplay { 2int } else { 1int })
            &&& r[0] matches Action::Run(c) && add_command(c, x, before.stack.path_view(), None)
            &&& autoplay ==> (r[1] matches Action::Run(Command::PlayAt { index }) && index == queue_len)
        } else if before.stack.depth() == 0 {
            &&& r.len() == 2
            &&& after.stack.path_view() == before.stack.path_view().push(x.name_view())
            &&& after.stack.levels_view().drop_last() == before.stack.levels_view()
            &&& after.stack.top().rows().len() == 0
            &&& after.stack.preview_view() is None
            &&& after.correlator == submitted(before.correlator, Slot::OpenOrPlay).0
            &&& after.filter_input_mode == before.filter_input_mode
            &&& after.initialized == before.initialized
            &&& r[0] matches Action::Submit(q) && q.id == QueryId::OpenOrPlay && q.slot == Slot::OpenOrPlay
                && q.target == PaneType::Albums && q.ticket == before.correlator.next_ticket
                && origin_is(q, after.stack.path_view()) && q.work is ListTitles
                && find_filters_view(q.work) == seq![(Tag::Album, x.name_view())]
            &&& r[1] is Render
        } else {
            after == before && r.len() == 1 && r[0] is Render
        },
    }
}

impl AlbumsPane {
    /// At the root, drills into the selected album: an empty level is pushed
    /// at once and its songs are requested for the new path. At an album, the
    /// selected song is added, followed, with `autoplay`, by playback from
    /// `queue_len`, the queue's length read before the add.
    fn open_or_play(&mut self, autoplay: bool, queue_len: usize) -> (r: Vec<Action>)
        requires
            old(self).wf(),
            old(self).can_submit(),
        ensures
            final(self).wf(),
            final(self).filter_input_mode == old(self).filter_input_mode,
            final(self).initialized == old(self).initialized,
            open_outcome(*old(self), *final(self), autoplay, queue_len, r@),
    {
        let current = match self.stack.current().selected() {
            Some(x) => x.duplicate(),
            None => {
                return Vec::new();
            },
        };
        let next_path = match self.stack.next_path() {
            Some(p) => p,
            None => {
                return Vec::new();
            },
        };
        let depth = self.stack.path().len();
        if depth == 1 {
            let mut r = self.add(&current, None);
            if autoplay {
                r.push(Action::Run(Command::PlayAt { index: queue_len }));
            }
            r
        } else if depth == 0 {
            let mut r: Vec<Action> = Vec::new();
            let q = self.submit(QueryId::OpenOrPlay, Slot::OpenOrPlay, Some(next_path),
                Work::ListTitles { album: current.dir_name_or_file_name() });
            r.push(Action::Submit(q));
            self.stack.push(Vec::new());
            self.stack.clear_preview();
            assert(self.stack.levels_view().drop_last() =~= old(self).stack.levels_view());
            r.push(Action::Render);
            r
        } else {
            let mut r: Vec<Action> = Vec::new();
            r.push(Action::Render);
            r
        }
    }

    /// Opens the selection, starting playback when it is a song.
    pub fn open(&mut self, queue_len: usize) -> (r: Vec<Action>)
        requires
            old(self).wf(),
            old(self).can_submit(),
        ensures
            final(self).wf(),
            open_outcome(*old(self), *final(self), true, queue_len, r@),
    {
        self.open_or_play(true, queue_len)
    }

    /// Opens the selection; a song is only added.
    pub fn next(&mut self, queue_len: usize) -> (r: Vec<Action>)
        requires
            old(self).wf(),
            old(self).can_submit(),
        ensures
            final(self).wf(),
            open_outcome(*old(self), *final(self), false, queue_len, r@),
    {
        self.open_or_play(false, queue_len)
    }

    /// On first display, asks for the album list.
    pub fn before_show(&mut self) -> (r: Vec<Action>)
        requires
            old(self).wf(),
            old(self).can_submit(),
        ensures
            final(self).wf(),
            final(self).initialized,
            final(self).stack == old(self).stack,
            old(self).initialized ==> r@.len() == 0 && final(self).correlator == old(self).correlator,
            !old(self).initialized ==> r@.len() == 1 && final(self).correlator == submitted(old(self).correlator, Slot::Init).0
                && (r@[0] matches Action::Submit(q) && init_query(q, old(self).correlator.next_ticket)),
    {
        let mut r: Vec<Action> = Vec::new();
        if !self.initialized {
            let q = self.request_albums();
            r.push(Action::Submit(q));
            self.initialized = true;
        }
        r
    }

    /// A catalog change asks for the album list again; after a reconnect the
    /// pane counts as not shown yet and asks again too.
    pub fn on_event(&mut self, event: UiEvent) -> (r: Vec<Action>)
        requires
            old(self).wf(),
            old(self).can_submit(),
        ensures
            final(self).wf(),
            final(self).stack == old(self).stack,
            event == UiEvent::Other ==> r@.len() == 0 && *final(self) == *old(self),
            event != UiEvent::Other ==> r@.len() == 1 && final(self).correlator == submitted(old(self).correlator, Slot::Init).0
                && (r@[0] matches Action::Submit(q) && init_query(q, old(self).correlator.next_ticket)),
            event == UiEvent::Database ==> final(self).initialized == old(self).initialized,
            event == UiEvent::Reconnected ==> final(self).initialized,
    {
        match event {
            UiEvent::Database => {
                let mut r: Vec<Action> = Vec::new();
                let q = self.request_albums();
                r.push(Action::Submit(q));
                r
            },
            UiEvent::Reconnected => {
                self.initialized = false;
                self.before_show()
            },
            UiEvent::Other => Vec::new(),
        }
    }

    /// Goes back up one level and asks for the preview there.
    pub fn back(&mut self) -> (r: Vec<Action>)
        requires
            old(self).wf(),
            old(self).can_submit(),
        ensures
            final(self).wf(),
            old(self).stack.depth() == 0 ==> r@.len() == 0 && *final(self) == *old(self),
            old(self).stack.depth() > 0 ==> final(self).stack.path_view() == old(self).stack.path_view().drop_last()
                && final(self).stack.levels_view() == old(self).stack.levels_view().drop_last()
                && final(self).stack.preview_view() is None
                && preview_requested(*old(self), *final(self), r@),
    {
        if self.stack.pop() {
            self.prepare_preview()
        } else {
            Vec::new()
        }
    }

    /// Highlights row `idx` of the current level (clamped) and asks for its preview.
    pub fn select(&mut self, idx: usize) -> (r: Vec<Action>)
        requires
            old(self).wf(),
            old(self).can_submit(),
        ensures
            final(self).wf(),
            final(self).stack.path_view() == old(self).stack.path_view(),
            final(self).stack.top().rows() == old(self).stack.top().rows(),
            final(self).stack.top().sel() == if old(self).stack.top().rows().len() == 0 {
                0
            } else if idx < old(self).stack.top().rows().len() {
                idx as nat
            } else {
                (old(self).stack.top().rows().len() - 1) as nat
            },
            preview_requested(*old(self), *final(self), r@),
    {
        self.stack.select(idx);
        self.prepare_preview()
    }

    /// The songs that `item` stands for: a lookup of its album, or the song itself.
    pub fn list_songs_in_item(&self, item: Item) -> (r: SongSource)
        ensures
            item matches Item::Dir { name } ==> (r matches SongSource::Find(f)
                && filters_view(f@) == seq![(Tag::Album, name@)]),
            item matches Item::Song(s) ==> (r matches SongSource::Given(v) && v@ == seq![s]),
    {
        match item {
            Item::Dir { name } => SongSource::Find(album_filter(name)),
            Item::Song(song) => {
                let mut v: Vec<Song> = Vec::new();
                v.push(song);
                proof {
                    assert(v@ =~= seq![song]);
                }
                SongSource::Given(v)
            },
        }
    }
}

/// The origin path, if the result has one, is the live path.
pub open spec fn path_matches(origin: Option<Vec<String>>, path: Seq<Seq<char>>) -> bool {
    match origin {
        Some(p) => names_view(p@) == path,
        None => true,
    }
}

/// The payload is the kind that the query's purpose produces.
pub open spec fn payload_fits(id: QueryId, payload: Payload) -> bool {
    match payload {
        Payload::Albums(_) => id == QueryId::Init,
        Payload::Rows(_) => id == QueryId::OpenOrPlay,
        Payload::Preview(_) => id == QueryId::Preview,
    }
}

/// A completed query is applied to `p` iff its slot still awaits it, it was
/// computed for the live path, and it carries what its purpose produces.
pub open spec fn applies(p: AlbumsPane, res: QueryResult) -> bool {
    &&& finished(p.correlator, res.slot, res.ticket).1
    &&& path_matches(res.origin_path, p.stack.path_view())
    &&& payload_fits(res.id, res.payload)
}

/// A completed query is applied only to the path it was computed for: when
/// its slot still awaits it and its payload fits, it is applied exactly when
/// its origin path, if it has one, equals the live path. Otherwise
/// `on_query_finished` leaves the navigation stack unchanged.
pub proof fn lemma_applied_iff_origin_is_live(p: AlbumsPane, res: QueryResult)
    ensures
        finished(p.correlator, res.slot, res.ticket).1 && payload_fits(res.id, res.payload) ==> (applies(p, res)
            <==> path_matches(res.origin_path, p.stack.path_view())),
        (res.origin_path matches Some(o) && names_view(o@) != p.stack.path_view()) ==> !applies(p, res),
{
}

/// One album row per name, in order.
pub open spec fn album_rows(rows: Seq<Item>, names: Seq<String>) -> bool {
    &&& rows.len() == names.len()
    &&& forall|i: int| 0 <= i < names.len() ==> #[trigger] rows[i] == (Item::Dir { name: names[i] })
}

fn album_items(names: &Vec<String>) -> (r: Vec<Item>)
    ensures
        album_rows(r@, names@),
{
    let mut r: Vec<Item> = Vec::new();
    let mut i: usize = 0;
    while i < names.len()
        invariant
            i <= names@.len(),
            r@.len() == i,
            forall|j: int| 0 <= j < i ==> #[trigger] r@[j] == (Item::Dir { name: names@[j] }),
        decreases names@.len() - i,
    {
        r.push(Item::name_only(names[i].clone()));
        i = i + 1;
    }
    r
}

impl AlbumsPane {
    /// Routes a completed query. It is applied exactly when [`applies`] holds;
    /// otherwise the navigation stack stays as it was. An album list rebuilds
    /// the stack from a root of those albums, rows replace the top level, a
    /// preview fills the preview slot; each asks for a redraw, and the first
    /// two ask for the preview of the new selection.
    pub fn on_query_finished(&mut self, result: QueryResult) -> (r: Vec<Action>)
        requires
            old(self).wf(),
            old(self).can_submit(),
        ensures
            final(self).wf(),
            final(self).filter_input_mode == old(self).filter_input_mode,
            final(self).initialized == old(self).initialized,
            !applies(*old(self), result) ==> r@.len() == 0 && final(self).stack == old(self).stack
                && final(self).correlator == finished(old(self).correlator, result.slot, result.ticket).0,
            applies(*old(self), result) ==> r@.len() > 0 && r@.last() is Render,
            applies(*old(self), result) && result.payload is Preview ==> r@.len() == 1
                && final(self).stack.levels@ == old(self).stack.levels@
                && final(self).stack.path == old(self).stack.path
                && final(self).correlator == finished(old(self).correlator, result.slot, result.ticket).0
                && (result.payload matches Payload::Preview(data) && final(self).stack.preview_view() == data),
            applies(*old(self), result) && result.payload is Albums ==> final(self).stack.depth() == 0
                && (result.payload matches Payload::Albums(names) && album_rows(final(self).stack.top().rows(), names@))
                && final(self).stack.top().sel() == 0
                && final(self).stack.preview_view() is None,
            applies(*old(self), result) && result.payload is Rows ==> final(self).stack.path_view() == old(self).stack.path_view()
                && final(self).stack.levels_view().drop_last() == old(self).stack.levels_view().drop_last()
                && (result.payload matches Payload::Rows(items) && final(self).stack.top().rows() == items@)
                && final(self).stack.preview_view() is None,
            applies(*old(self), result) && !(result.payload is Preview) ==> {
                let c = finished(old(self).correlator, result.slot, result.ticket).0;
                if final(self).stack.top().selection() is Some && final(self).stack.depth() <= 1 {
                    r@.len() == 2 && final(self).correlator == submitted(c, Slot::AlbumsPreview).0
                        && (r@[0] matches Action::Submit(q) && preview_query(q, final(self).stack, c.next_ticket))
                } else {
                    r@.len() == 1 && final(self).correlator == c
                }
            },
    {
        let honoured = self.correlator.finish(result.slot, result.ticket);
        let path_ok = match &result.origin_path {
            Some(p) => same_path(p, self.stack.path()),
            None => true,
        };
        if !honoured || !path_ok {
            return Vec::new();
        }
        let id = result.id;
        match result.payload {
            Payload::Preview(data) => {
                if id != QueryId::Preview {
                    return Vec::new();
                }
                self.stack.set_preview(data);
                let mut r: Vec<Action> = Vec::new();
                r.push(Action::Render);
                r
            },
            Payload::Albums(names) => {
                if id != QueryId::Init {
                    return Vec::new();
                }
                self.stack = DirStack::new(album_items(&names));
                let mut r = self.prepare_preview();
                r.push(Action::Render);
                r
            },
            Payload::Rows(items) => {
                if id != QueryId::OpenOrPlay {
                    return Vec::new();
                }
                self.stack.replace(items);
                self.stack.clear_preview();
                let mut r = self.prepare_preview();
                r.push(Action::Render);
                r
            },
        }
    }
}

} // verus!
