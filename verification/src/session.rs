//! The session end of the change-propagation contract: a non-owning handle
//! through which a metadata record delivers its "metadata changed" signal.

use vstd::prelude::*;

verus! {

/// Ghost model of a session link: the identity of the session it denotes and
/// how many metadata-change notifications have been delivered through it.
#[verifier::ext_equal]
pub ghost struct SessionView {
    pub id: int,
    pub updates: int,
}

/// A non-owning handle to a media session, held by a metadata record as its
/// back-reference. The handle carries the session's identifier (resolved by
/// the host environment) and counts the notifications delivered through it,
/// which makes the notification contract observable.
pub struct SessionLink {
    id: u64,
    updates: u64,
}

impl View for SessionLink {
    type V = SessionView;

    closed spec fn view(&self) -> SessionView {
        SessionView { id: self.id as int, updates: self.updates as int }
    }
}

impl SessionLink {
    /// A fresh handle to the session with the given identifier; no
    /// notification has been delivered through it yet.
    pub fn new(id: u64) -> (r: SessionLink)
        ensures
            r@ == (SessionView { id: id as int, updates: 0 }),
    {
        SessionLink { id, updates: 0 }
    }

    /// The identifier of the session this handle denotes.
    pub fn id(&self) -> (r: u64)
        ensures
            r as int == self@.id,
    {
        self.id
    }

    /// How many metadata-change notifications have been delivered through
    /// this handle.
    pub fn updates(&self) -> (r: u64)
        ensures
            r as int == self@.updates,
    {
        self.updates
    }

    /// The session's no-argument metadata-refresh entry point: records one
    /// more notification. The signal carries no data; a session that needs
    /// values re-reads the record.
    pub fn metadata_changed(&mut self)
        requires
            old(self)@.updates < u64::MAX,
        ensures
            final(self)@ == (SessionView { id: old(self)@.id, updates: old(self)@.updates + 1 }),
    {
        self.updates = self.updates + 1;
    }
}

} // verus!
