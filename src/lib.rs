//! Listening-party tracking: album announcements per channel, and which track
//! of the announced album is playing at a given instant.

pub mod announce;
pub mod duration;
pub mod model;
pub mod registry;
pub mod status;

pub use announce::{
    album_info, announced_album_id, check_album_id, join_artists, mentions_role, FetchError,
    ALBUM_LINK_PATTERN, LP_ROLE,
};
pub use duration::{clamp_millis, display_duration};
pub use model::{playlist_duration, AlbumInfo, LPInfo, PlayState, TrackInfo};
pub use registry::LP;
pub use status::{status_message, CurrentLP};
