use vstd::prelude::*;
use itertools::Itertools;

verus! {

/// A terminal catalog entry. `rank` is the entry's position under the
/// configured sort order (lower comes first).
#[derive(Debug)]
pub struct Song {
    pub file: String,
    pub album: String,
    pub rank: u64,
}

impl Song {
    pub fn duplicate(&self) -> (r: Song)
        ensures
            r == *self,
    {
        Song { file: self.file.clone(), album: self.album.clone(), rank: self.rank }
    }
}

/// One row of a browse level: a group (an album) or a song.
#[derive(Debug)]
pub enum Item {
    Dir { name: String },
    Song(Song),
}

impl Item {
    /// The name under which the item is selected: a group's label or a song's file.
    pub open spec fn name_view(&self) -> Seq<char> {
        match self {
            Item::Dir { name } => name@,
            Item::Song(s) => s.file@,
        }
    }

    pub fn name_only(name: String) -> (r: Item)
        ensures
            r == (Item::Dir { name }),
    {
        Item::Dir { name }
    }

    pub fn dir_name_or_file_name(&self) -> (r: String)
        ensures
            r@ == self.name_view(),
    {
        match self {
            Item::Dir { name } => name.clone(),
            Item::Song(s) => s.file.clone(),
        }
    }

    pub fn duplicate(&self) -> (r: Item)
        ensures
            r == *self,
    {
        match self {
            Item::Dir { name } => Item::Dir { name: name.clone() },
            Item::Song(s) => Item::Song(s.duplicate()),
        }
    }
}

/// A lookup that had to find one entry and found none.
#[derive(Debug)]
pub enum LookupError {
    NotFound { album: String, file: String },
}

/// Some key of `r` carries index `k`.
pub open spec fn has_index(r: Seq<(u64, usize)>, k: int) -> bool {
    exists|i: int| 0 <= i < r.len() && r[i].1 == k
}

/// `k` occurs in `idx`.
pub open spec fn occurs(idx: Seq<int>, k: int) -> bool {
    exists|i: int| 0 <= i < idx.len() && idx[i] == k
}

/// Ordering of `(rank, index)` pairs: by rank, then by index.
pub open spec fn key_le(a: (u64, usize), b: (u64, usize)) -> bool {
    a.0 < b.0 || (a.0 == b.0 && a.1 <= b.1)
}

/// Relies on itertools::Itertools::sorted: it collects the items and sorts them
/// with `slice::sort`, so the result holds the same items in ascending order
/// (tuples compare lexicographically).
#[verifier::external_body]
fn sorted_keys(v: Vec<(u64, usize)>) -> (r: Vec<(u64, usize)>)
    ensures
        r@.to_multiset() == v@.to_multiset(),
        forall|i: int, j: int| 0 <= i < j < r@.len() ==> key_le(#[trigger] r@[i], #[trigger] r@[j]),
{
    v.into_iter().sorted().collect()
}

/// The sort keys of `songs`, in the sorted order (rank first, position in `songs` second).
fn sorted_song_keys(songs: &Vec<Song>) -> (r: Vec<(u64, usize)>)
    ensures
        r@.len() == songs@.len(),
        forall|i: int| 0 <= i < r@.len() ==> (#[trigger] r@[i]).1 < songs@.len()
            && r@[i].0 == songs@[r@[i].1 as int].rank,
        forall|i: int, j: int| 0 <= i < j < r@.len() ==> key_le(#[trigger] r@[i], #[trigger] r@[j]),
        forall|k: int| 0 <= k < songs@.len() ==> #[trigger] has_index(r@, k),
{
    let mut keys: Vec<(u64, usize)> = Vec::new();
    let mut k: usize = 0;
    while k < songs.len()
        invariant
            k <= songs@.len(),
            keys@.len() == k,
            forall|j: int| 0 <= j < k ==> #[trigger] keys@[j] == (songs@[j].rank, j as usize),
        decreases songs@.len() - k,
    {
        keys.push((songs[k].rank, k));
        k = k + 1;
    }
    let ghost v = keys@;
    let r = sorted_keys(keys);
    proof {
        v.to_multiset_ensures();
        r@.to_multiset_ensures();
        assert forall|i: int| 0 <= i < r@.len() implies (#[trigger] r@[i]).1 < songs@.len()
            && r@[i].0 == songs@[r@[i].1 as int].rank by {
            assert(r@.to_multiset().count(r@[i]) > 0);
            assert(v.contains(r@[i]));
            let j = choose|j: int| 0 <= j < v.len() && v[j] == r@[i];
            assert(v[j] == (songs@[j].rank, j as usize));
        }
        assert forall|k: int| 0 <= k < songs@.len() implies #[trigger] has_index(r@, k) by {
            assert(v[k] == (songs@[k].rank, k as usize));
            assert(v.to_multiset().count(v[k]) > 0);
            assert(r@.contains(v[k]));
            let i = choose|i: int| 0 <= i < r@.len() && r@[i] == v[k];
            assert(r@[i].1 == k);
        }
    }
    r
}

/// `rows` lists the songs at positions `idx`, each song once, in ascending
/// rank, songs of equal rank in their order within `songs`.
pub open spec fn sorted_rows(rows: Seq<Item>, songs: Seq<Song>, idx: Seq<int>) -> bool {
    &&& idx.len() == songs.len()
    &&& rows.len() == idx.len()
    &&& forall|i: int| 0 <= i < idx.len() ==> 0 <= #[trigger] idx[i] < songs.len()
        && rows[i] == Item::Song(songs[idx[i]])
    &&& forall|i: int, j: int| 0 <= i < j < idx.len() ==>
        songs[#[trigger] idx[i]].rank < songs[#[trigger] idx[j]].rank
        || (songs[idx[i]].rank == songs[idx[j]].rank && idx[i] <= idx[j])
    &&& forall|k: int| 0 <= k < songs.len() ==> #[trigger] occurs(idx, k)
}

/// `rows` are the songs of `songs` in sorted order.
pub open spec fn rows_of(rows: Seq<Item>, songs: Seq<Song>) -> bool {
    exists|idx: Seq<int>| #[trigger] sorted_rows(rows, songs, idx)
}

/// Rows for the songs of a group, in the configured sort order: a permutation
/// of `songs`, ascending by rank, songs of equal rank in their given order.
pub fn list_titles(songs: &Vec<Song>) -> (r: Vec<Item>)
    ensures
        r@.len() == songs@.len(),
        rows_of(r@, songs@),
{
    let keys = sorted_song_keys(songs);
    let ghost idx = keys@.map_values(|p: (u64, usize)| p.1 as int);
    let mut r: Vec<Item> = Vec::new();
    let mut i: usize = 0;
    while i < keys.len()
        invariant
            i <= keys@.len(),
            keys@.len() == songs@.len(),
            r@.len() == i,
            idx == keys@.map_values(|p: (u64, usize)| p.1 as int),
            forall|m: int| 0 <= m < keys@.len() ==> (#[trigger] keys@[m]).1 < songs@.len(),
            forall|j: int| 0 <= j < i ==> #[trigger] r@[j] == Item::Song(songs@[idx[j]]),
        decreases keys@.len() - i,
    {
        let k = keys[i].1;
        r.push(Item::Song(songs[k].duplicate()));
        i = i + 1;
    }
    proof {
        assert forall|i: int, j: int| 0 <= i < j < idx.len() implies
            songs@[#[trigger] idx[i]].rank < songs@[#[trigger] idx[j]].rank
            || (songs@[idx[i]].rank == songs@[idx[j]].rank && idx[i] <= idx[j]) by {
            assert(key_le(keys@[i], keys@[j]));
        }
        assert forall|k: int| 0 <= k < songs@.len() implies #[trigger] occurs(idx, k) by {
            assert(has_index(keys@, k));
            let i = choose|i: int| 0 <= i < keys@.len() && keys@[i].1 == k;
            assert(idx[i] == k);
        }
        assert(sorted_rows(r@, songs@, idx));
    }
    r
}

/// The one song that a lookup by album and file resolves to: the first of
/// `found` in the configured sort order. Finding none is an error that names both.
pub fn find_songs(album: &String, file: &String, found: &Vec<Song>) -> (r: Result<Song, LookupError>)
    ensures
        found@.len() == 0 <==> r is Err,
        r matches Err(LookupError::NotFound { album: a, file: f }) ==> a@ == album@ && f@ == file@,
        r matches Ok(s) ==> exists|k: int| 0 <= k < found@.len() && s == found@[k]
            && forall|j: int| 0 <= j < found@.len() ==> found@[k].rank < (#[trigger] found@[j]).rank
                || (found@[k].rank == found@[j].rank && k <= j),
{
    let keys = sorted_song_keys(found);
    if keys.len() == 0 {
        return Err(LookupError::NotFound { album: album.clone(), file: file.clone() });
    }
    let k = keys[0].1;
    proof {
        assert forall|j: int| 0 <= j < found@.len() implies found@[k as int].rank < (#[trigger] found@[j]).rank
            || (found@[k as int].rank == found@[j].rank && k <= j) by {
            assert(has_index(keys@, j));
            let i = choose|i: int| 0 <= i < keys@.len() && keys@[i].1 == j;
            if i > 0 {
                assert(key_le(keys@[0], keys@[i]));
            }
        }
    }
    Ok(found[k].duplicate())
}

} // verus!
