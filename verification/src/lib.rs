//! Verified core of a media comparison viewer: path recording, page layout state, playback
//! request handling and text formatting.

pub mod path_recorder;
pub mod text;
pub mod page_grid;
pub mod window;
pub mod display_mode;
pub mod va_display;
pub mod playback;
pub mod utils;
pub mod page;
pub mod geometry;
