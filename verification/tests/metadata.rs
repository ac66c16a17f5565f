use media_metadata::metadata::{MediaMetadata, MediaMetadataInit};
use media_metadata::session::SessionLink;

fn empty_init() -> MediaMetadataInit {
    MediaMetadataInit { title: None, artist: None, album: None }
}

#[test]
fn default_construction() {
    let m = MediaMetadata::new(&empty_init());
    assert_eq!(m.Title(), "");
    assert_eq!(m.Artist(), "");
    assert_eq!(m.Album(), "");
}

#[test]
fn partial_initializer() {
    let init = MediaMetadataInit {
        title: Some(String::from("X")),
        artist: None,
        album: None,
    };
    let m = MediaMetadata::new(&init);
    assert_eq!(m.Title(), "X");
    assert_eq!(m.Artist(), "");
    assert_eq!(m.Album(), "");
}

#[test]
fn full_initializer_copied_verbatim() {
    let init = MediaMetadataInit {
        title: Some(String::from("  Unmodified Song  ")),
        artist: Some(String::from("Some Artist")),
        album: Some(String::from("Some Album")),
    };
    let m = MediaMetadata::new(&init);
    assert_eq!(m.Title(), "  Unmodified Song  ");
    assert_eq!(m.Artist(), "Some Artist");
    assert_eq!(m.Album(), "Some Album");
}

#[test]
fn constructor_always_succeeds() {
    let built = MediaMetadata::Constructor(&empty_init());
    let m = built.unwrap();
    assert_eq!(m.Title(), "");
    assert_eq!(m.Artist(), "");
    assert_eq!(m.Album(), "");
}

#[test]
fn setter_round_trip() {
    let mut m = MediaMetadata::new(&empty_init());
    m.SetTitle(String::from("A Song"));
    assert_eq!(m.Title(), "A Song");
    m.SetArtist(String::from("An Artist"));
    assert_eq!(m.Artist(), "An Artist");
    m.SetAlbum(String::from("An Album"));
    assert_eq!(m.Album(), "An Album");
}

#[test]
fn setter_round_trip_empty_text() {
    let mut m = MediaMetadata::new(&MediaMetadataInit {
        title: Some(String::from("old")),
        artist: Some(String::from("old")),
        album: Some(String::from("old")),
    });
    m.SetTitle(String::new());
    m.SetArtist(String::new());
    m.SetAlbum(String::new());
    assert_eq!(m.Title(), "");
    assert_eq!(m.Artist(), "");
    assert_eq!(m.Album(), "");
}

#[test]
fn setter_round_trip_long_text() {
    let long = "na ".repeat(20_000);
    let mut m = MediaMetadata::new(&empty_init());
    m.SetTitle(long.clone());
    assert_eq!(m.Title(), long);
}

#[test]
fn setter_round_trip_unicode_text() {
    let exotic = "T\u{12D}tl\u{0119} \u{1F3B5}\u{10348} \u{0} end";
    let mut m = MediaMetadata::new(&empty_init());
    m.SetTitle(String::from(exotic));
    m.SetArtist(String::from("\u{1F3A4}"));
    assert_eq!(m.Title(), exotic);
    assert_eq!(m.Artist(), "\u{1F3A4}");
}

#[test]
fn overwrite_is_idempotent_but_notifies_twice() {
    let mut m = MediaMetadata::new(&empty_init());
    m.attach(SessionLink::new(1));
    m.SetTitle(String::from("same"));
    m.SetTitle(String::from("same"));
    assert_eq!(m.Title(), "same");
    let link = m.detach().unwrap();
    assert_eq!(link.updates(), 2);
}

#[test]
fn unattached_setter_is_a_pure_write() {
    let mut m = MediaMetadata::new(&empty_init());
    m.SetTitle(String::from("quiet"));
    m.SetArtist(String::from("still quiet"));
    assert_eq!(m.Title(), "quiet");
    assert_eq!(m.Artist(), "still quiet");
    assert_eq!(m.Album(), "");
    // No session was ever attached, so there is none to have been notified.
    assert!(m.detach().is_none());
}

#[test]
fn each_setter_notifies_exactly_once() {
    let mut m = MediaMetadata::new(&empty_init());
    m.attach(SessionLink::new(3));
    m.SetTitle(String::from("t"));
    m.SetArtist(String::from("a"));
    m.SetAlbum(String::from("b"));
    let link = m.detach().unwrap();
    assert_eq!(link.id(), 3);
    assert_eq!(link.updates(), 3);
}

#[test]
fn getters_and_construction_never_notify() {
    let mut m = MediaMetadata::new(&empty_init());
    // Construction starts unattached, so it cannot have notified anyone.
    assert!(m.detach().is_none());
    m.attach(SessionLink::new(9));
    let _ = m.Title();
    let _ = m.Artist();
    let _ = m.Album();
    let link = m.detach().unwrap();
    assert_eq!(link.updates(), 0);
}

#[test]
fn attach_replaces_previous_session() {
    let mut m = MediaMetadata::new(&empty_init());
    let none = m.attach(SessionLink::new(1));
    assert!(none.is_none());
    let replaced = m.attach(SessionLink::new(2));
    let a = replaced.unwrap();
    assert_eq!(a.id(), 1);
    assert_eq!(a.updates(), 0);
    m.SetTitle(String::from("for b only"));
    let b = m.detach().unwrap();
    assert_eq!(b.id(), 2);
    assert_eq!(b.updates(), 1);
    // The replaced handle saw nothing of the mutation.
    assert_eq!(a.updates(), 0);
}

#[test]
fn detach_silences_notification() {
    let mut m = MediaMetadata::new(&empty_init());
    m.attach(SessionLink::new(5));
    m.SetTitle(String::from("heard"));
    let link = m.detach().unwrap();
    assert_eq!(link.updates(), 1);
    m.SetTitle(String::from("unheard"));
    m.SetArtist(String::from("unheard"));
    assert_eq!(m.Title(), "unheard");
    assert!(m.detach().is_none());
    // A fresh attach starts hearing again, from its own count.
    m.attach(SessionLink::new(6));
    m.SetAlbum(String::from("heard again"));
    let next = m.detach().unwrap();
    assert_eq!(next.id(), 6);
    assert_eq!(next.updates(), 1);
}

#[test]
fn detach_is_idempotent() {
    let mut m = MediaMetadata::new(&empty_init());
    assert!(m.detach().is_none());
    m.attach(SessionLink::new(4));
    assert!(m.detach().is_some());
    assert!(m.detach().is_none());
}

#[test]
fn session_link_reports_its_state() {
    let mut link = SessionLink::new(42);
    assert_eq!(link.id(), 42);
    assert_eq!(link.updates(), 0);
    link.metadata_changed();
    assert_eq!(link.id(), 42);
    assert_eq!(link.updates(), 1);
}
