//! The logic of the Riff music player's settings, pins and page chrome,
//! verified with Verus: the per-user map of pinned objects, how stored
//! settings decode and encode, which settings writes record state changes,
//! the expand state machine of the segmented button, what the details page
//! header shows, and the context menu of a sidebar playlist.

pub mod details_header;
pub mod feature_flags;
pub mod pinned;
pub mod playlist_menu;
pub mod segmented_button;
pub mod settings;
pub mod state_tracker;
