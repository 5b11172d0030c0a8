//! Image glitching: corrupting random bytes of an encoded image, the
//! decisions of the decode-and-retry loop around it, and the choice of the
//! format that a glitched image is saved in.

pub mod attempts;
pub mod glitch;
pub mod save_format;
pub mod titlebar;

pub use attempts::{DecodeAttempts, Step, RETRY_LIMIT};
pub use glitch::{apply_glitches, glitch_bytes};
pub use save_format::save_format;
pub use titlebar::{position_of_name, same_text};
