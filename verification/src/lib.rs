//! A small, mutable "now playing" metadata record (title, artist, album) and
//! the change-propagation contract that keeps an owning media session
//! informed: every mutation of a field is followed by exactly one
//! notification attempt to the attached session, a no-op when none is
//! attached.

pub mod laws;
pub mod metadata;
pub mod session;
