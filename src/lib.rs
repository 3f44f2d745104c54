//! Window automation for desktop applications: capture a window, look for a
//! reference image in it, and drive mouse and keyboard input relative to what
//! was found.
//!
//! The library holds the decisions of that loop, each with a verified
//! contract: normalising a raw capture to a grayscale frame, checking template
//! sizes, reducing a score field to its best match, deciding each tick of the
//! timed search, mapping capture pixels to input points, choosing the window to
//! bind, and planning the input events of every bot operation. Talking to the
//! window server, the image-matching kernel and the input simulator is left to
//! the caller, which performs the planned events in order.

pub mod bot;
pub mod capture;
pub mod error;
pub mod geometry;
pub mod pattern;
pub mod search;
pub mod text;
pub mod window;

pub use bot::{Bot, InputAction};
pub use capture::{GrayFrame, RawCapture, normalize};
pub use error::{Error, ErrorKind};
pub use geometry::{Bounds, Rect, to_screen};
pub use pattern::WindowPattern;
pub use search::{BestMatch, ScoreField, Search, SearchAction, SearchEvent, best_match, check_template_size};
pub use window::{Window, WindowList};
