//! Browsing state of an album catalog pane: a navigation stack, queries
//! correlated back to the path that issued them, and the play-queue commands
//! that adding and opening entries produce.

mod item;
mod stack;

pub use item::{find_songs, list_titles, Item, LookupError, Song};
pub use stack::{copy_path, same_path, DirStack, Level, Preview};
mod query;

pub use query::{
    lemma_later_submission_wins, Correlator, Filter, PaneType, Payload, Query, QueryId, QueryResult, Slot, Tag,
    Work,
};
mod pane;

pub use pane::{lemma_applied_iff_origin_is_live, Action, AlbumsPane, Command, Note, QueuePosition, SongSource, UiEvent};
