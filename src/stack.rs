use vstd::prelude::*;
use crate::item::{Item, Song};

verus! {

/// The names of a path, as character sequences.
pub open spec fn names_view(p: Seq<String>) -> Seq<Seq<char>> {
    p.map_values(|s: String| s@)
}

/// Two paths name the same groups.
pub fn same_path(a: &Vec<String>, b: &Vec<String>) -> (r: bool)
    ensures
        r == (names_view(a@) == names_view(b@)),
{
    if a.len() != b.len() {
        proof {
            assert(names_view(a@).len() != names_view(b@).len());
        }
        return false;
    }
    let mut i: usize = 0;
    while i < a.len()
        invariant
            i <= a@.len(),
            a@.len() == b@.len(),
            forall|j: int| 0 <= j < i ==> (#[trigger] a@[j])@ == b@[j]@,
        decreases a@.len() - i,
    {
        if a[i] != b[i] {
            proof {
                assert(names_view(a@)[i as int] != names_view(b@)[i as int]);
            }
            return false;
        }
        i = i + 1;
    }
    proof {
        assert(names_view(a@) =~= names_view(b@));
    }
    true
}

/// Copies a path.
pub fn copy_path(p: &Vec<String>) -> (r: Vec<String>)
    ensures
        r@ == p@,
{
    let mut r: Vec<String> = Vec::new();
    let mut i: usize = 0;
    while i < p.len()
        invariant
            i <= p@.len(),
            r@ == p@.subrange(0, i as int),
        decreases p@.len() - i,
    {
        r.push(p[i].clone());
        i = i + 1;
        proof {
            assert(r@ =~= p@.subrange(0, i as int));
        }
    }
    proof {
        assert(r@ =~= p@);
    }
    r
}

/// Side content for the current selection: the songs of a hovered group, or
/// one song's metadata.
#[derive(Debug)]
pub enum Preview {
    Group(Vec<Item>),
    Song(Song),
}

/// A browse level: its rows and the index of the highlighted row.
#[derive(Debug)]
pub struct Level {
    pub items: Vec<Item>,
    pub selected: usize,
}

impl Level {
    pub open spec fn rows(&self) -> Seq<Item> {
        self.items@
    }

    pub open spec fn sel(&self) -> nat {
        self.selected as nat
    }

    /// The highlight stays on a row, or at 0 when there is none.
    pub open spec fn wf(&self) -> bool {
        if self.items@.len() == 0 {
            self.selected == 0
        } else {
            self.selected < self.items@.len()
        }
    }

    /// The highlighted row, if the level has any.
    pub open spec fn selection(&self) -> Option<Item> {
        if self.items@.len() == 0 {
            None
        } else {
            Some(self.items@[self.selected as int])
        }
    }

    pub fn new(items: Vec<Item>) -> (r: Level)
        ensures
            r.wf(),
            r.rows() == items@,
            r.sel() == 0,
    {
        Level { items, selected: 0 }
    }

    pub fn items(&self) -> (r: &Vec<Item>)
        ensures
            r@ == self.rows(),
    {
        &self.items
    }

    pub fn selected_index(&self) -> (r: usize)
        ensures
            r == self.sel(),
    {
        self.selected
    }

    pub fn selected(&self) -> (r: Option<&Item>)
        requires
            self.wf(),
        ensures
            r matches Some(x) ==> self.selection() == Some(*x),
            r is None <==> self.selection() is None,
    {
        if self.items.len() == 0 {
            None
        } else {
            Some(&self.items[self.selected])
        }
    }

    /// Highlights row `idx`, clamped to the last row.
    pub fn select(&mut self, idx: usize)
        requires
            old(self).wf(),
        ensures
            final(self).wf(),
            final(self).rows() == old(self).rows(),
            final(self).sel() == if old(self).rows().len() == 0 {
                0
            } else if idx < old(self).rows().len() {
                idx as nat
            } else {
                (old(self).rows().len() - 1) as nat
            },
    {
        let n = self.items.len();
        if n == 0 {
            self.selected = 0;
        } else if idx < n {
            self.selected = idx;
        } else {
            self.selected = n - 1;
        }
    }

    /// Replaces the rows and clamps the highlight to them.
    pub fn replace(&mut self, items: Vec<Item>)
        requires
            old(self).wf(),
        ensures
            final(self).wf(),
            final(self).rows() == items@,
            final(self).sel() == if items@.len() == 0 {
                0
            } else if old(self).sel() < items@.len() {
                old(self).sel()
            } else {
                (items@.len() - 1) as nat
            },
    {
        let idx = self.selected;
        self.items = items;
        self.selected = 0;
        self.select(idx);
    }
}

/// The browse levels from the catalog root down, the group names chosen on the
/// way (the path), and an optional preview computed for that path.
#[derive(Debug)]
pub struct DirStack {
    pub levels: Vec<Level>,
    pub path: Vec<String>,
    pub preview: Option<Preview>,
}

impl DirStack {
    pub open spec fn levels_view(&self) -> Seq<Level> {
        self.levels@
    }

    pub open spec fn path_view(&self) -> Seq<Seq<char>> {
        names_view(self.path@)
    }

    pub open spec fn preview_view(&self) -> Option<Preview> {
        self.preview
    }

    pub open spec fn depth(&self) -> nat {
        self.path@.len()
    }

    /// The level on top of the stack.
    pub open spec fn top(&self) -> Level {
        self.levels@.last()
    }

    /// One level more than the path is long, every level well formed.
    pub open spec fn wf(&self) -> bool {
        &&& self.levels@.len() == self.path@.len() + 1
        &&& forall|i: int| 0 <= i < self.levels@.len() ==> (#[trigger] self.levels@[i]).wf()
    }

    /// The path after drilling into the current selection, if there is one.
    pub open spec fn next_path_view(&self) -> Option<Seq<Seq<char>>> {
        match self.top().selection() {
            Some(x) => Some(self.path_view().push(x.name_view())),
            None => None,
        }
    }

    /// A stack of one level holding `root`, with no preview.
    pub fn new(root: Vec<Item>) -> (r: DirStack)
        ensures
            r.wf(),
            r.depth() == 0,
            r.top().rows() == root@,
            r.top().sel() == 0,
            r.preview_view() is None,
    {
        let mut levels: Vec<Level> = Vec::new();
        levels.push(Level::new(root));
        DirStack { levels, path: Vec::new(), preview: None }
    }

    pub fn current(&self) -> (r: &Level)
        requires
            self.wf(),
        ensures
            *r == self.top(),
    {
        &self.levels[self.levels.len() - 1]
    }

    pub fn path(&self) -> (r: &Vec<String>)
        ensures
            names_view(r@) == self.path_view(),
            r@.len() == self.depth(),
    {
        &self.path
    }

    pub fn preview(&self) -> (r: &Option<Preview>)
        ensures
            *r == self.preview_view(),
    {
        &self.preview
    }

    pub fn next_path(&self) -> (r: Option<Vec<String>>)
        requires
            self.wf(),
        ensures
            r matches Some(p) ==> self.next_path_view() == Some(names_view(p@)),
            r is None <==> self.next_path_view() is None,
    {
        match self.current().selected() {
            Some(x) => {
                let mut p = copy_path(&self.path);
                p.push(x.dir_name_or_file_name());
                proof {
                    assert(names_view(p@) =~= self.path_view().push(x.name_view()));
                }
                Some(p)
            },
            None => None,
        }
    }

    /// Drills into the current selection: its name extends the path and
    /// `items` becomes the new top level. The preview is cleared.
    pub fn push(&mut self, items: Vec<Item>)
        requires
            old(self).wf(),
            old(self).next_path_view() is Some,
        ensures
            final(self).wf(),
            final(self).path_view() == old(self).next_path_view().unwrap(),
            final(self).levels_view() == old(self).levels_view().push(final(self).top()),
            final(self).top().rows() == items@,
            final(self).top().sel() == 0,
            final(self).preview_view() is None,
    {
        let name = match self.current().selected() {
            Some(x) => x.dir_name_or_file_name(),
            None => String::new(),
        };
        let ghost old_levels = self.levels@;
        self.path.push(name);
        self.levels.push(Level::new(items));
        self.preview = None;
        proof {
            assert(self.path_view() =~= old(self).path_view().push(old(self).top().selection().unwrap().name_view()));
            assert forall|i: int| 0 <= i < self.levels@.len() implies (#[trigger] self.levels@[i]).wf() by {
                if i < old_levels.len() {
                    assert(self.levels@[i] == old_levels[i]);
                }
            }
        }
    }

    /// Goes back up one level, dropping the top level, its path entry and the
    /// preview. At the root nothing changes and `false` is returned.
    pub fn pop(&mut self) -> (r: bool)
        requires
            old(self).wf(),
        ensures
            final(self).wf(),
            r == (old(self).depth() > 0),
            r ==> final(self).path_view() == old(self).path_view().drop_last()
                && final(self).levels_view() == old(self).levels_view().drop_last()
                && final(self).preview_view() is None,
            !r ==> *final(self) == *old(self),
    {
        if self.path.len() == 0 {
            return false;
        }
        self.path.pop();
        self.levels.pop();
        self.preview = None;
        proof {
            assert(self.path_view() =~= old(self).path_view().drop_last());
            assert(self.levels@ =~= old(self).levels@.drop_last());
            assert forall|i: int| 0 <= i < self.levels@.len() implies (#[trigger] self.levels@[i]).wf() by {
                assert(self.levels@[i] == old(self).levels@[i]);
            }
        }
        true
    }

    /// Moves the highlight of the top level (clamped), keeping everything else.
    pub fn select(&mut self, idx: usize)
        requires
            old(self).wf(),
        ensures
            final(self).wf(),
            final(self).path_view() == old(self).path_view(),
            final(self).preview_view() == old(self).preview_view(),
            final(self).levels_view().drop_last() == old(self).levels_view().drop_last(),
            final(self).top().rows() == old(self).top().rows(),
            final(self).top().sel() == if old(self).top().rows().len() == 0 {
                0
            } else if idx < old(self).top().rows().len() {
                idx as nat
            } else {
                (old(self).top().rows().len() - 1) as nat
            },
    {
        let last = self.levels.len() - 1;
        let mut level = self.levels.remove(last);
        level.select(idx);
        self.levels.push(level);
        proof {
            assert(self.levels@.drop_last() =~= old(self).levels@.drop_last());
            assert forall|i: int| 0 <= i < self.levels@.len() implies (#[trigger] self.levels@[i]).wf() by {
                if i < last {
                    assert(self.levels@[i] == old(self).levels@[i]);
                }
            }
        }
    }

    /// Overwrites the top level's rows once a fetch resolves (highlight clamped).
    pub fn replace(&mut self, items: Vec<Item>)
        requires
            old(self).wf(),
        ensures
            final(self).wf(),
            final(self).path_view() == old(self).path_view(),
            final(self).preview_view() == old(self).preview_view(),
            final(self).levels_view().drop_last() == old(self).levels_view().drop_last(),
            final(self).top().rows() == items@,
            final(self).top().sel() == if items@.len() == 0 {
                0
            } else if old(self).top().sel() < items@.len() {
                old(self).top().sel()
            } else {
                (items@.len() - 1) as nat
            },
    {
        let last = self.levels.len() - 1;
        let mut level = self.levels.remove(last);
        level.replace(items);
        self.levels.push(level);
        proof {
            assert(self.levels@.drop_last() =~= old(self).levels@.drop_last());
            assert forall|i: int| 0 <= i < self.levels@.len() implies (#[trigger] self.levels@[i]).wf() by {
                if i < last {
                    assert(self.levels@[i] == old(self).levels@[i]);
                }
            }
        }
    }

    pub fn clear_preview(&mut self)
        ensures
            final(self).levels_view() == old(self).levels_view(),
            final(self).path == old(self).path,
            final(self).preview_view() is None,
    {
        self.preview = None;
    }

    pub fn set_preview(&mut self, preview: Option<Preview>)
        ensures
            final(self).levels_view() == old(self).levels_view(),
            final(self).path == old(self).path,
            final(self).preview_view() == preview,
    {
        self.preview = preview;
    }
}

} // verus!
