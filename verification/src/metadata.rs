//! The mutable "now playing" metadata record, its construction from an
//! initializer snapshot, and the update-notification algorithm that runs
//! after every field mutation.

use vstd::prelude::*;

use crate::session::{SessionLink, SessionView};

verus! {

/// Ghost model of a metadata record: the three text fields and the state of
/// the optional session back-reference.
#[verifier::ext_equal]
pub ghost struct MetadataView {
    pub title: Seq<char>,
    pub artist: Seq<char>,
    pub album: Seq<char>,
    pub session: Option<SessionView>,
}

/// An initializer snapshot: three optional text fields. A field left absent
/// resolves to empty text at construction.
pub struct MediaMetadataInit {
    pub title: Option<String>,
    pub artist: Option<String>,
    pub album: Option<String>,
}

/// Ghost model of an initializer snapshot.
#[verifier::ext_equal]
pub ghost struct InitView {
    pub title: Option<Seq<char>>,
    pub artist: Option<Seq<char>>,
    pub album: Option<Seq<char>>,
}

impl View for MediaMetadataInit {
    type V = InitView;

    open spec fn view(&self) -> InitView {
        InitView {
            title: match self.title {
                Some(text) => Some(text@),
                None => None,
            },
            artist: match self.artist {
                Some(text) => Some(text@),
                None => None,
            },
            album: match self.album {
                Some(text) => Some(text@),
                None => None,
            },
        }
    }
}

/// The text a field holds after construction: the initializer's value where
/// present, copied verbatim; empty text where absent.
pub open spec fn field_or_empty(field: Option<Seq<char>>) -> Seq<char> {
    match field {
        Some(text) => text,
        None => Seq::empty(),
    }
}

/// The record that construction from `init` yields: each field resolved from
/// the initializer, no session attached.
pub open spec fn created(init: InitView) -> MetadataView {
    MetadataView {
        title: field_or_empty(init.title),
        artist: field_or_empty(init.artist),
        album: field_or_empty(init.album),
        session: None,
    }
}

/// One run of the update-notification algorithm: a no-op when unattached,
/// exactly one more notification to the attached session otherwise. The
/// session's identity and the text fields are untouched either way.
pub open spec fn notified(m: MetadataView) -> MetadataView {
    match m.session {
        Some(s) => MetadataView {
            session: Some(SessionView { id: s.id, updates: s.updates + 1 }),
            ..m
        },
        None => m,
    }
}

/// A full title-setter step: unconditional overwrite, then one run of the
/// update-notification algorithm.
pub open spec fn set_title_step(m: MetadataView, v: Seq<char>) -> MetadataView {
    notified(MetadataView { title: v, ..m })
}

/// A full artist-setter step.
pub open spec fn set_artist_step(m: MetadataView, v: Seq<char>) -> MetadataView {
    notified(MetadataView { artist: v, ..m })
}

/// A full album-setter step.
pub open spec fn set_album_step(m: MetadataView, v: Seq<char>) -> MetadataView {
    notified(MetadataView { album: v, ..m })
}

/// Attaching a session stores its handle, replacing any already attached.
pub open spec fn attach_step(m: MetadataView, s: SessionView) -> MetadataView {
    MetadataView { session: Some(s), ..m }
}

/// Detaching clears the back-reference.
pub open spec fn detach_step(m: MetadataView) -> MetadataView {
    MetadataView { session: None, ..m }
}

/// The one machine limit on mutation: the attached session's notification
/// count must have room for one more delivery. Trivially true when no
/// session is attached.
pub open spec fn can_notify(m: MetadataView) -> bool {
    m.session matches Some(s) ==> s.updates < u64::MAX
}

/// A mutable "now playing" metadata record: title, artist and album text,
/// and an optional non-owning back-reference to the session using it.
pub struct MediaMetadata {
    title: String,
    artist: String,
    album: String,
    session: Option<SessionLink>,
}

impl View for MediaMetadata {
    type V = MetadataView;

    closed spec fn view(&self) -> MetadataView {
        MetadataView {
            title: self.title@,
            artist: self.artist@,
            album: self.album@,
            session: match self.session {
                Some(s) => Some(s@),
                None => None,
            },
        }
    }
}

impl MediaMetadata {
    fn new_inherited(init: &MediaMetadataInit) -> (r: MediaMetadata)
        ensures
            r@ == created(init@),
    {
        MediaMetadata {
            title: match &init.title {
                Some(text) => text.clone(),
                None => String::new(),
            },
            artist: match &init.artist {
                Some(text) => text.clone(),
                None => String::new(),
            },
            album: match &init.album {
                Some(text) => text.clone(),
                None => String::new(),
            },
            session: None,
        }
    }

    /// A newly owned record built from an initializer snapshot: present
    /// fields copied verbatim, absent fields empty, no session attached.
    pub fn new(init: &MediaMetadataInit) -> (r: MediaMetadata)
        ensures
            r@ == created(init@),
    {
        MediaMetadata::new_inherited(init)
    }

    /// The construction entry point exposed outward. Construction cannot
    /// fail: the result is always the record `new` yields.
    #[allow(non_snake_case)]
    pub fn Constructor(init: &MediaMetadataInit) -> (r: Result<MediaMetadata, ()>)
        ensures
            r matches Ok(m) && m@ == created(init@),
    {
        Ok(MediaMetadata::new(init))
    }

    /// The update-notification algorithm: with no session attached it is a
    /// no-op and makes no external call; with one attached it delivers
    /// exactly one synchronous notification before returning.
    pub fn queue_update_metadata_algorithm(&mut self)
        requires
            can_notify(old(self)@),
        ensures
            final(self)@ == notified(old(self)@),
    {
        let taken = self.session.take();
        match taken {
            Some(mut link) => {
                link.metadata_changed();
                self.session = Some(link);
            },
            None => {},
        }
    }

    /// A copy of the current title. Pure: the record is untouched.
    #[allow(non_snake_case)]
    pub fn Title(&self) -> (r: String)
        ensures
            r@ == self@.title,
    {
        self.title.clone()
    }

    /// Unconditional overwrite of the title — no diffing against the
    /// previous value — followed by one run of the update-notification
    /// algorithm.
    #[allow(non_snake_case)]
    pub fn SetTitle(&mut self, value: String)
        requires
            can_notify(old(self)@),
        ensures
            final(self)@ == set_title_step(old(self)@, value@),
    {
        self.title = value;
        self.queue_update_metadata_algorithm();
    }

    /// A copy of the current artist. Pure: the record is untouched.
    #[allow(non_snake_case)]
    pub fn Artist(&self) -> (r: String)
        ensures
            r@ == self@.artist,
    {
        self.artist.clone()
    }

    /// Unconditional overwrite of the artist, then one notification attempt.
    #[allow(non_snake_case)]
    pub fn SetArtist(&mut self, value: String)
        requires
            can_notify(old(self)@),
        ensures
            final(self)@ == set_artist_step(old(self)@, value@),
    {
        self.artist = value;
        self.queue_update_metadata_algorithm();
    }

    /// A copy of the current album. Pure: the record is untouched.
    #[allow(non_snake_case)]
    pub fn Album(&self) -> (r: String)
        ensures
            r@ == self@.album,
    {
        self.album.clone()
    }

    /// Unconditional overwrite of the album, then one notification attempt.
    #[allow(non_snake_case)]
    pub fn SetAlbum(&mut self, value: String)
        requires
            can_notify(old(self)@),
        ensures
            final(self)@ == set_album_step(old(self)@, value@),
    {
        self.album = value;
        self.queue_update_metadata_algorithm();
    }

    /// Stores a non-owning handle to a session, replacing any handle already
    /// attached; the replaced handle, if any, is handed back unchanged.
    pub fn attach(&mut self, session: SessionLink) -> (r: Option<SessionLink>)
        ensures
            final(self)@ == attach_step(old(self)@, session@),
            old(self)@.session is None ==> r is None,
            old(self)@.session matches Some(s) ==> (r matches Some(p) && p@ == s),
    {
        let previous = self.session.take();
        self.session = Some(session);
        previous
    }

    /// Clears the back-reference: the update-notification algorithm is a
    /// guaranteed no-op until the next attach. The detached handle, if any,
    /// is handed back unchanged.
    pub fn detach(&mut self) -> (r: Option<SessionLink>)
        ensures
            final(self)@ == detach_step(old(self)@),
            old(self)@.session is None ==> r is None,
            old(self)@.session matches Some(s) ==> (r matches Some(p) && p@ == s),
    {
        self.session.take()
    }
}

} // verus!
