use luminous_portal::flags::BitFlag;
use luminous_portal::flags::BitFlags;
use luminous_portal::path::HandlePath;
use luminous_portal::session::all_devices;
use luminous_portal::session::append_session;
use luminous_portal::session::position;
use luminous_portal::session::CursorMode;
use luminous_portal::session::DeviceType;
use luminous_portal::session::PersistMode;
use luminous_portal::session::SelectSourcesOptions;
use luminous_portal::session::Session;
use luminous_portal::session::SessionType;
use luminous_portal::session::SourceType;

fn path(text: &str) -> HandlePath {
    HandlePath::parse(text.to_string()).unwrap()
}

fn session(session_type: SessionType) -> Session {
    Session::new(
        path("/org/freedesktop/portal/desktop/session/test"),
        session_type,
    )
}

#[test]
fn select_devices_defaults_to_all_devices() {
    let mut session = session(SessionType::Remote);
    assert!(session.device_type.is_empty());

    session.set_remote_options(None, None, None);
    assert_eq!(
        session.device_type,
        BitFlags::from_flag(DeviceType::Keyboard)
            .with(DeviceType::Pointer)
            .with(DeviceType::TouchScreen)
    );
}

#[test]
fn screencast_options_do_not_override_remote_persistence() {
    let mut session = session(SessionType::Remote);
    session.set_remote_options(None, Some(PersistMode::ExplicitlyRevoked), None);
    session.set_screencast_options(SelectSourcesOptions {
        persist_mode: Some(PersistMode::DoNot),
        ..Default::default()
    });

    assert_eq!(session.persist_mode, PersistMode::ExplicitlyRevoked);
    assert!(session.screen_share_enabled);
}

#[test]
fn screencast_sessions_take_their_persistence() {
    let mut session = session(SessionType::ScreenCast);
    session.set_screencast_options(SelectSourcesOptions {
        types: Some(BitFlags::from_flag(SourceType::Window)),
        multiple: Some(true),
        cursor_mode: Some(CursorMode::Embedded),
        persist_mode: Some(PersistMode::Application),
    });
    assert_eq!(session.persist_mode, PersistMode::Application);
    assert_eq!(session.source_type, BitFlags::from_flag(SourceType::Window));
    assert!(session.multiple);
    assert_eq!(session.cursor_mode, CursorMode::Embedded);

    session.set_screencast_options(SelectSourcesOptions::default());
    assert_eq!(session.persist_mode, PersistMode::Application);
    assert_eq!(session.source_type, BitFlags::from_flag(SourceType::Window));
    assert!(!session.multiple);
    assert_eq!(session.cursor_mode, CursorMode::Embedded);
}

#[test]
fn new_session_has_nothing_selected() {
    let session = session(SessionType::Remote);
    assert_eq!(session.session_type, SessionType::Remote);
    assert_eq!(
        session.handle_path.as_str(),
        "/org/freedesktop/portal/desktop/session/test"
    );
    assert_eq!(session.source_type, BitFlags::from_flag(SourceType::Monitor));
    assert!(!session.multiple);
    assert_eq!(session.cursor_mode, CursorMode::Hidden);
    assert_eq!(session.persist_mode, PersistMode::DoNot);
    assert!(!session.screen_share_enabled);
    assert!(!session.clipboard_requested);
    assert!(session.remote_restore.is_none());
    assert_eq!(session.version(), 2);
}

#[test]
fn only_a_hidden_cursor_is_not_shown() {
    assert!(!CursorMode::Hidden.show_cursor());
    assert!(CursorMode::Embedded.show_cursor());
    assert!(CursorMode::Metadata.show_cursor());
}

#[test]
fn sessions_are_found_by_their_path() {
    let mut sessions = Vec::new();
    append_session(&mut sessions, Session::new(path("/a"), SessionType::Remote));
    append_session(&mut sessions, Session::new(path("/b"), SessionType::Remote));
    append_session(&mut sessions, Session::new(path("/b"), SessionType::ScreenCast));
    assert_eq!(position(&sessions, &path("/a")), Some(0));
    assert_eq!(position(&sessions, &path("/b")), Some(1));
    assert_eq!(position(&sessions, &path("/c")), None);
}

#[test]
fn object_paths_follow_the_bus_grammar() {
    for good in ["/", "/a", "/Path/t0/0bject", "/a_b/c"] {
        assert_eq!(
            HandlePath::parse(good.to_string()).unwrap().to_text(),
            good
        );
    }
    for bad in [
        "",
        ".",
        "a",
        "a/b",
        "//",
        "/double//slashes",
        "/end/with/slash/",
        "/ha.d",
        "/sp ace",
        "/\u{e4}",
    ] {
        assert!(HandlePath::parse(bad.to_string()).is_none());
    }
}

#[test]
fn flag_sets_work_on_words() {
    assert_eq!(DeviceType::Keyboard.bit(), 1);
    assert_eq!(DeviceType::Pointer.bit(), 2);
    assert_eq!(DeviceType::TouchScreen.bit(), 4);
    assert_eq!(SourceType::Monitor.bit(), 1);
    assert_eq!(SourceType::Window.bit(), 2);
    assert_eq!(SourceType::Virtual.bit(), 4);
    assert_eq!(all_devices().bits(), 7);
    assert_eq!(BitFlags::<DeviceType>::from_bits(8), None);
    assert_eq!(BitFlags::<DeviceType>::from_bits(7), Some(all_devices()));
    let keyboard = BitFlags::from_flag(DeviceType::Keyboard);
    let pointer = BitFlags::from_flag(DeviceType::Pointer);
    assert_eq!(keyboard.union(pointer).bits(), 3);
    assert_eq!(keyboard.union(pointer).intersection(pointer), pointer);
    assert!(keyboard.intersection(pointer).is_empty());
    assert_ne!(keyboard, pointer);
}
