//! Core of an emoji picker.
//!
//! Two things are decided here, and nothing is read, sent or shown:
//!
//! - [`loader`]: whether the emoji entries come from the cache file or from
//!   one request to the remote source, and what is stored afterwards;
//! - [`picker`]: which rows the fuzzy-search list offers, and which text a
//!   selection puts on the clipboard.
//!
//! Both are driven by a caller that performs the actions they name and
//! reports back what happened.

pub mod entry;
pub mod item;
pub mod loader;
pub mod paths;
pub mod picker;
pub mod status;
