//! The core of a file browser: path algebra, the hidden-file policy, directory
//! listings, the per-entry decisions of a cancellable subtree search, and the
//! browser state that ties them together.
//!
//! Nothing here touches the file system, a thread or a channel. The owner of a
//! [`fss::Fst`] reads directories, walks subtrees and moves results between
//! threads; the library decides what each of those outcomes does to the state
//! and what has to be carried out next.

pub mod text;
pub mod path;
pub mod hidden;
pub mod listing;
pub mod search;
pub mod fss;
