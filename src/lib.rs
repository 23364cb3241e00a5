//! Moves the track that is playing into a chosen playlist.
//!
//! The library holds the decisions of one run: the per-profile configuration
//! record and where it lives, the reading of a playlist selection typed by the
//! user, whether an interactive authorisation is needed, and what to do with
//! the item that is playing. Talking to the streaming service, the terminal and
//! the disk is left to the caller.

pub mod config;
pub mod mover;
pub mod selection;
pub mod session;

pub use config::{
    config_location, empty_record, lemma_recorded_playlist_is_kept, needs_selection,
    string_views, token_cache_location, with_playlist, ProfileConfig, ProfileRecord,
};
pub use mover::{
    lemma_move_keeps_one, moved_to_end, occurrences, plan_move, playlist_after, without, ItemId,
    ItemKey, MovePlan, Playing,
};
pub use selection::{
    is_white_space, lemma_selection_in_range, parse_decimal, pick_playlist, read_selection,
    selected_index, selection_index, trim_back, trim_front, trimmed, usize_value,
    PlaylistCandidate,
};
pub use session::{auth_step, AuthStep};
