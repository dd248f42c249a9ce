//! Clipboard history: an append-only log of text and image entries, the rules
//! that decide when a clipboard sample becomes a new entry, and the
//! content-addressed naming of image blobs.

pub mod clock;
pub mod history;
pub mod manager;
pub mod naming;
