//! Score and game-clock firmware logic for two four-digit seven-segment
//! display units: glyph encoding, the two-line display protocol, the render
//! policies, the latest-value mailboxes and the fetch backoff.
pub mod glyph;
pub mod driver;
pub mod mailbox;
pub mod render;
pub mod fetch;
