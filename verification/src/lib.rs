//! A minimal interactive control loop.
//!
//! A console listener decodes key chords into signals (`input`); a driver
//! state machine turns signals into actions (`driver`); on the open hotkey a
//! window session is assembled from platform handles (`session`), its message
//! pump dispatches window messages (`messages`), and the strings handed to
//! the native API are encoded as wide characters (`wide`).
//!
//! The terminal and the native windowing system are external collaborators:
//! reading events, creating handles and pumping the platform queue happen
//! outside this crate, which receives their outcomes as plain values and
//! decides everything else.

pub mod driver;
pub mod input;
pub mod messages;
pub mod session;
pub mod wide;
