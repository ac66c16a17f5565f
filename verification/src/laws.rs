//! The general guarantees of the record's contract, proved once and for all
//! over the ghost model that the executable functions are verified against.

use vstd::prelude::*;

use crate::metadata::{
    attach_step, created, detach_step, set_album_step, set_artist_step, set_title_step,
    MetadataView,
};
use crate::session::SessionView;

verus! {

/// Round-trip: after a setter runs with text `v`, the matching field reads
/// back exactly `v`, for every text value — empty, long, or arbitrary
/// Unicode. The getters return the field of the view unchanged, so this is
/// the whole exec-level round trip.
pub proof fn lemma_setter_round_trip(m: MetadataView, v: Seq<char>)
    ensures
        set_title_step(m, v).title == v,
        set_artist_step(m, v).artist == v,
        set_album_step(m, v).album == v,
{
}

/// Overwrite is idempotent in the stored value, and nothing suppresses the
/// duplicate: setting the title to `v` twice leaves the title at `v`, the
/// other fields untouched, and the notification algorithm run twice.
pub proof fn lemma_overwrite_idempotent(m: MetadataView, v: Seq<char>)
    ensures
        set_title_step(set_title_step(m, v), v).title == v,
        set_title_step(set_title_step(m, v), v).artist == m.artist,
        set_title_step(set_title_step(m, v), v).album == m.album,
        m.session is None ==> set_title_step(set_title_step(m, v), v).session is None,
        m.session matches Some(s) ==> set_title_step(set_title_step(m, v), v).session == Some(
            SessionView { id: s.id, updates: s.updates + 2 },
        ),
{
}

/// With no session attached, a setter is a pure field write: no notification
/// is attempted and nothing else about the record changes.
pub proof fn lemma_unattached_setter_is_pure_write(m: MetadataView, v: Seq<char>)
    requires
        m.session is None,
    ensures
        set_title_step(m, v) == (MetadataView { title: v, ..m }),
        set_artist_step(m, v) == (MetadataView { artist: v, ..m }),
        set_album_step(m, v) == (MetadataView { album: v, ..m }),
{
}

/// With a session attached, each setter delivers exactly one notification to
/// that session — its count grows by one, its identity is untouched. The
/// getters take the record immutably and so cannot notify at all.
pub proof fn lemma_notification_once_per_mutation(m: MetadataView, s: SessionView, v: Seq<char>)
    requires
        m.session == Some(s),
    ensures
        set_title_step(m, v).session == Some(SessionView { id: s.id, updates: s.updates + 1 }),
        set_artist_step(m, v).session == Some(SessionView { id: s.id, updates: s.updates + 1 }),
        set_album_step(m, v).session == Some(SessionView { id: s.id, updates: s.updates + 1 }),
{
}

/// Construction never attaches and never notifies: a freshly created record
/// has no session to deliver to.
pub proof fn lemma_construction_attaches_nothing(init: crate::metadata::InitView)
    ensures
        created(init).session is None,
{
}

/// Replacement semantics: attaching session `b` while `a` is attached makes
/// every later mutation notify `b` alone — `a`'s state plays no part in the
/// record from that point on.
pub proof fn lemma_attach_replaces(m: MetadataView, a: SessionView, b: SessionView, v: Seq<char>)
    requires
        m.session == Some(a),
    ensures
        attach_step(m, b).session == Some(b),
        set_title_step(attach_step(m, b), v).session == Some(
            SessionView { id: b.id, updates: b.updates + 1 },
        ),
        set_artist_step(attach_step(m, b), v).session == Some(
            SessionView { id: b.id, updates: b.updates + 1 },
        ),
        set_album_step(attach_step(m, b), v).session == Some(
            SessionView { id: b.id, updates: b.updates + 1 },
        ),
{
}

/// Detach silences notification: after a detach, every setter is a pure
/// field write and no session is notified until a new attach.
pub proof fn lemma_detach_silences(m: MetadataView, v: Seq<char>)
    ensures
        detach_step(m).session is None,
        set_title_step(detach_step(m), v) == (MetadataView { title: v, ..detach_step(m) }),
        set_artist_step(detach_step(m), v) == (MetadataView { artist: v, ..detach_step(m) }),
        set_album_step(detach_step(m), v) == (MetadataView { album: v, ..detach_step(m) }),
{
}

} // verus!
