use luminous_portal::backend::PortalResponse;
use luminous_portal::backend::RemoteDesktopBackend;
use luminous_portal::backend::SelectDevicesOptions;
use luminous_portal::eis_server::EisServerMsg;
use luminous_portal::error::PortalError;
use luminous_portal::flags::BitFlags;
use luminous_portal::input::input_request_device;
use luminous_portal::input::input_request_is_authorized;
use luminous_portal::input::InputEvent;
use luminous_portal::input::InputRequest;
use luminous_portal::monitor::checked_output_index;
use luminous_portal::monitor::find_unique_output_name;
use luminous_portal::monitor::get_monitor_info;
use luminous_portal::monitor::get_monitor_info_from_socket;
use luminous_portal::monitor::monitor_names;
use luminous_portal::monitor::space_size;
use luminous_portal::monitor::MonitorStep;
use luminous_portal::monitor::OutputInfo;
use luminous_portal::monitor::picker_to_ask;
use luminous_portal::monitor::Picked;
use luminous_portal::monitor::Picker;
use luminous_portal::monitor::RemoteInfo;
use luminous_portal::monitor::Size;
use luminous_portal::path::HandlePath;
use luminous_portal::remotedesktop::append_remote_session;
use luminous_portal::remotedesktop::delivery_result;
use luminous_portal::remotedesktop::disable_eis_listener;
use luminous_portal::remotedesktop::enable_eis_listener;
use luminous_portal::remotedesktop::handle_input_event;
use luminous_portal::remotedesktop::notify_input_event;
use luminous_portal::remotedesktop::remove_remote_session;
use luminous_portal::remotedesktop::CastThread;
use luminous_portal::remotedesktop::CursorPosition;
use luminous_portal::remotedesktop::Desktop;
use luminous_portal::remotedesktop::RemoteSessionData;
use luminous_portal::remotedesktop::Stream;
use luminous_portal::remotedesktop::StreamProperties;
use luminous_portal::remotedesktop::Zone;
use luminous_portal::remotedesktop::ZoneId;
use luminous_portal::remotedesktop::ZoneIds;
use luminous_portal::restore::build_restore_data;
use luminous_portal::restore::RemoteAuthorization;
use luminous_portal::session::all_devices;
use luminous_portal::session::remove_session;
use luminous_portal::session::CursorMode;
use luminous_portal::session::DeviceType;
use luminous_portal::session::PersistMode;
use luminous_portal::session::SelectSourcesOptions;
use luminous_portal::session::Session;
use luminous_portal::session::SessionType;
use luminous_portal::session::SourceType;
use luminous_portal::start::finish_start;
use luminous_portal::start::plan_start;
use luminous_portal::start::restored_output_name;
use luminous_portal::start::resume_start;
use luminous_portal::start::ControlArea;
use luminous_portal::start::StartStep;
use luminous_portal::variant::option_bool;
use luminous_portal::variant::Options;
use zbus::zvariant::Value;

struct Bench;

impl Desktop for Bench {
    type Coord = f64;
    type Cast = &'static str;
    type Control = &'static str;
    type Barrier = u8;
    type Listener = &'static str;
}

fn plus(a: f64, b: f64) -> f64 {
    a + b
}

fn path(text: &str) -> HandlePath {
    HandlePath::parse(text.to_string()).unwrap()
}

fn grant(devices: BitFlags<DeviceType>) -> RemoteAuthorization {
    RemoteAuthorization::new(
        "DP-1".to_string(),
        devices,
        true,
        true,
        BitFlags::from_flag(SourceType::Monitor),
        false,
        PersistMode::Application,
    )
}

fn remote(
    ids: &mut ZoneIds,
    handle: &str,
    devices: BitFlags<DeviceType>,
) -> RemoteSessionData<Bench> {
    RemoteSessionData::new(
        handle.to_string(),
        Some(CastThread {
            node_id: 42,
            thread: "cast",
        }),
        "control",
        vec![],
        grant(devices),
        PersistMode::Application,
        ids,
    )
}

fn output(name: &str, x: i32, y: i32, width: u32, height: u32) -> OutputInfo<String> {
    OutputInfo {
        name: name.to_string(),
        x,
        y,
        width,
        height,
        wl_output: format!("handle of {name}"),
    }
}

fn chosen(step: Result<MonitorStep<String>, PortalError>) -> RemoteInfo<String> {
    match step {
        Ok(MonitorStep::Chosen(info)) => info,
        _ => panic!("no output was chosen"),
    }
}

#[test]
fn restored_output_name_must_match_exactly_once() {
    assert_eq!(
        find_unique_output_name(&["DP-1", "HDMI-A-1"], "DP-1"),
        Some(0)
    );
    assert_eq!(find_unique_output_name(&["DP-1"], "DP-2"), None);
    assert_eq!(find_unique_output_name(&["DP-1", "DP-1"], "DP-1"), None);
}

#[test]
fn unique_name_is_found_at_any_place() {
    assert_eq!(
        find_unique_output_name(&["DP-1", "DP-2", "DP-1"], "DP-2"),
        Some(1)
    );
    assert_eq!(
        find_unique_output_name(&["DP-2", "DP-1", "DP-2"], "DP-2"),
        None
    );
    assert_eq!(find_unique_output_name(&[], "DP-2"), None);
}

#[test]
fn input_requests_are_checked_against_authorized_devices() {
    let keyboard = BitFlags::from_flag(DeviceType::Keyboard);
    assert!(input_request_is_authorized::<f64>(
        keyboard,
        &InputRequest::KeyboardKeycode {
            keycode: 1,
            state: 1,
        },
    ));
    assert!(!input_request_is_authorized(
        keyboard,
        &InputRequest::PointerMotion { dx: 1.0, dy: 1.0 },
    ));
    assert!(!input_request_is_authorized::<f64>(
        keyboard,
        &InputRequest::TouchUp { slot: 0 },
    ));
    assert!(input_request_is_authorized::<f64>(
        keyboard,
        &InputRequest::Exit
    ));
}

#[test]
fn headless_picker_index_is_bounds_checked() {
    assert_eq!(checked_output_index(2, 1).unwrap(), 1);
    assert!(checked_output_index(2, 2).is_err());
    assert!(checked_output_index(0, 0).is_err());
}

#[test]
fn every_request_has_its_device() {
    let pointer: [InputRequest<f64>; 5] = [
        InputRequest::PointerMotion { dx: 0.0, dy: 0.0 },
        InputRequest::PointerMotionAbsolute { x: 0.0, y: 0.0 },
        InputRequest::PointerButton {
            button: 1,
            state: 0,
        },
        InputRequest::PointerAxis {
            dx: 0.0,
            dy: 0.0,
            finish: true,
        },
        InputRequest::PointerAxisDiscrete { axis: 0, steps: 1 },
    ];
    for request in &pointer {
        assert_eq!(input_request_device(request), Some(DeviceType::Pointer));
    }
    let keyboard: [InputRequest<f64>; 2] = [
        InputRequest::KeyboardKeycode {
            keycode: 1,
            state: 0,
        },
        InputRequest::KeyboardKeysym {
            keysym: 1,
            state: 0,
        },
    ];
    for request in &keyboard {
        assert_eq!(input_request_device(request), Some(DeviceType::Keyboard));
    }
    let touch: [InputRequest<f64>; 3] = [
        InputRequest::TouchMotion {
            slot: 0,
            x: 0.0,
            y: 0.0,
        },
        InputRequest::TouchDown {
            slot: 0,
            x: 0.0,
            y: 0.0,
        },
        InputRequest::TouchUp { slot: 0 },
    ];
    for request in &touch {
        assert_eq!(input_request_device(request), Some(DeviceType::TouchScreen));
    }
    assert_eq!(input_request_device::<f64>(&InputRequest::Exit), None);
}

#[test]
fn errors_say_what_went_wrong() {
    assert_eq!(
        checked_output_index(2, 1205).unwrap_err().message(),
        "output picker returned invalid index 1205"
    );
    assert_eq!(
        checked_output_index(0, 0).unwrap_err().message(),
        "output picker returned invalid index 0"
    );
    assert_eq!(
        PortalError::InputNotAuthorized.message(),
        "input device is not authorized"
    );
    assert_eq!(PortalError::SendFailed.message(), "Send failed");
    assert_eq!(
        PortalError::NotStarted.message(),
        "remote session is not started"
    );
    assert_eq!(
        PortalError::CannotSerialize.message(),
        "cannot serialize restore data"
    );
    assert_eq!(PortalError::Cancelled.message(), "You cancel it");
    assert_eq!(
        PortalError::Wayland("gone".to_string()).message(),
        "wayland error, gone"
    );
    assert_eq!(
        PortalError::CannotStartStream("gone".to_string()).message(),
        "cannot start pipewire stream, error: gone"
    );
    assert_eq!(
        PortalError::CannotListen("gone".to_string()).message(),
        "Failed to create EIS listener: gone"
    );
    assert_eq!(
        PortalError::CannotDuplicate("gone".to_string()).message(),
        "gone"
    );
}

#[test]
fn zone_ids_count_up() {
    let mut ids = ZoneIds::new();
    let first = ZoneId::unique(&mut ids);
    let second = ZoneId::unique(&mut ids);
    assert_eq!(first.value(), 0);
    assert_eq!(second.value(), 1);
    assert_ne!(first, second);
}

#[test]
fn desktop_covers_all_outputs() {
    assert_eq!(
        space_size::<String>(&vec![]),
        Size {
            width: 0,
            height: 0
        }
    );
    let outputs = vec![
        output("DP-1", 0, 0, 1920, 1080),
        output("DP-2", 1920, -100, 1280, 1440),
    ];
    assert_eq!(
        space_size(&outputs),
        Size {
            width: 3200,
            height: 1340
        }
    );
    let left = vec![output("DP-1", -2000, -2000, 1920, 1080)];
    assert_eq!(
        space_size(&left),
        Size {
            width: 0,
            height: 0
        }
    );
    assert_eq!(monitor_names(&outputs), vec!["DP-1", "DP-2"]);
}

#[test]
fn restored_output_is_chosen_without_asking() {
    let outputs = vec![
        output("DP-1", 0, 0, 1920, 1080),
        output("DP-2", 1920, 0, 1280, 1440),
    ];
    let info = chosen(get_monitor_info(&outputs, Some("DP-2"), Picked::NotAsked));
    assert_eq!(info.output_name, "DP-2");
    assert_eq!((info.x, info.y), (1920, 0));
    assert_eq!((info.width, info.height), (3200, 1440));
    assert_eq!(info.wl_output, "handle of DP-2");
}

#[test]
fn user_is_asked_where_nothing_is_restored() {
    let outputs = vec![
        output("DP-1", 0, 0, 1920, 1080),
        output("DP-1", 1920, 0, 1280, 1440),
    ];
    assert!(matches!(
        get_monitor_info(&outputs, None, Picked::NotAsked),
        Ok(MonitorStep::Ask)
    ));
    assert!(matches!(
        get_monitor_info(&outputs, Some("DP-1"), Picked::NotAsked),
        Ok(MonitorStep::Ask)
    ));
    let info = chosen(get_monitor_info(&outputs, Some("DP-1"), Picked::Index(1)));
    assert_eq!(info.x, 1920);
    assert_eq!(
        get_monitor_info(&outputs, None, Picked::Index(2)).unwrap_err(),
        PortalError::InvalidOutputIndex(2)
    );
    assert_eq!(
        get_monitor_info(&outputs, None, Picked::Dismissed).unwrap_err(),
        PortalError::Cancelled
    );
    assert_eq!(
        get_monitor_info(&outputs, None, Picked::Failed("no".to_string())).unwrap_err(),
        PortalError::Wayland("no".to_string())
    );
    let info = chosen(get_monitor_info(
        &outputs,
        None,
        Picked::Screen {
            name: "X".to_string(),
            x: 3,
            y: 4,
            wl_output: "screen".to_string(),
        },
    ));
    assert_eq!(info.output_name, "X");
    assert_eq!((info.x, info.y), (3, 4));
    assert_eq!((info.width, info.height), (3200, 1440));
    assert_eq!(info.wl_output, "screen");
}

#[test]
fn socket_picker_is_asked_where_it_exists() {
    assert_eq!(picker_to_ask(true), Picker::Socket);
    assert_eq!(picker_to_ask(false), Picker::Screen);
}

#[test]
fn socket_picker_chooses_by_index() {
    let outputs = vec![
        output("DP-1", 0, 0, 1920, 1080),
        output("DP-2", 1920, 0, 1280, 1440),
    ];
    assert!(matches!(
        get_monitor_info_from_socket(&outputs, Picked::NotAsked),
        Ok(MonitorStep::Ask)
    ));
    let info = chosen(get_monitor_info_from_socket(&outputs, Picked::Index(1)));
    assert_eq!(info.output_name, "DP-2");
    assert_eq!(
        get_monitor_info_from_socket(&outputs, Picked::Index(2)).unwrap_err(),
        PortalError::InvalidOutputIndex(2)
    );
}

#[test]
fn started_sessions_keep_count_and_cursor() {
    let mut ids = ZoneIds::new();
    let mut session = remote(&mut ids, "/s", all_devices());
    assert_eq!(session.activation_id(), 0);
    session.step();
    assert_eq!(session.activation_id(), 1);
    assert_eq!(session.cursor_position(), CursorPosition { x: 0.0, y: 0.0 });
    session.update_cursor(InputRequest::PointerMotionAbsolute { x: 10.0, y: 20.0 }, &plus);
    session.update_cursor(InputRequest::PointerMotion { dx: 1.5, dy: -2.5 }, &plus);
    session.update_cursor(InputRequest::TouchUp { slot: 1 }, &plus);
    assert_eq!(
        session.cursor_position(),
        CursorPosition { x: 11.5, y: 17.5 }
    );
    assert_eq!(session.devices(), all_devices());
    assert_eq!(
        session.streams(),
        vec![Stream(42, StreamProperties::default())]
    );
}

#[test]
fn stopping_ends_everything_of_a_session() {
    let mut ids = ZoneIds::new();
    let stopping = remote(&mut ids, "/s", all_devices()).stop();
    assert_eq!(stopping.remote_control, "control");
    assert_eq!(stopping.cast_thread.unwrap().thread, "cast");
    assert_eq!(
        stopping.message,
        EisServerMsg::RemoveListener("/s".to_string())
    );
}

#[test]
fn input_reaches_the_session_that_it_names() {
    let mut ids = ZoneIds::new();
    let mut remotes = vec![];
    append_remote_session(&mut remotes, remote(&mut ids, "/a", all_devices()));
    append_remote_session(
        &mut remotes,
        remote(&mut ids, "/b", BitFlags::from_flag(DeviceType::Pointer)),
    );
    let motion = InputRequest::PointerMotion { dx: 2.0, dy: 3.0 };
    let delivery = notify_input_event(&mut remotes, &path("/b"), motion, &plus)
        .unwrap()
        .unwrap();
    assert_eq!(delivery.index, 1);
    assert_eq!(delivery.request, motion);
    assert_eq!(
        remotes[1].cursor_position(),
        CursorPosition { x: 2.0, y: 3.0 }
    );
    assert_eq!(
        remotes[0].cursor_position(),
        CursorPosition { x: 0.0, y: 0.0 }
    );

    let key = InputRequest::KeyboardKeycode {
        keycode: 30,
        state: 1,
    };
    assert_eq!(
        notify_input_event(&mut remotes, &path("/b"), key, &plus).err(),
        Some(PortalError::InputNotAuthorized)
    );
    assert!(
        notify_input_event(&mut remotes, &path("/c"), key, &plus)
            .unwrap()
            .is_none()
    );
    assert_eq!(delivery_result(true), Ok(()));
    assert_eq!(delivery_result(false), Err(PortalError::SendFailed));
}

#[test]
fn emulated_input_is_checked_like_other_input() {
    let mut ids = ZoneIds::new();
    let mut remotes = vec![remote(
        &mut ids,
        "/b",
        BitFlags::from_flag(DeviceType::Pointer),
    )];
    let delivery = handle_input_event(
        &mut remotes,
        InputEvent::PointerAxis {
            session_handle: "/b".to_string(),
            dx: 1.0,
            dy: 2.0,
        },
        &plus,
    )
    .unwrap();
    assert_eq!(
        delivery.request,
        InputRequest::PointerAxis {
            dx: 1.0,
            dy: 2.0,
            finish: false
        }
    );
    assert!(
        handle_input_event(
            &mut remotes,
            InputEvent::KeyboardKeycode {
                session_handle: "/b".to_string(),
                keycode: 1,
                state: 1
            },
            &plus
        )
        .is_none()
    );
    assert!(
        handle_input_event(
            &mut remotes,
            InputEvent::TouchUp {
                session_handle: "no path".to_string(),
                slot: 1
            },
            &plus
        )
        .is_none()
    );
    let handle = "/b".to_string();
    for (event, request) in [
        (
            InputEvent::PointerMotion {
                session_handle: handle.clone(),
                dx: 1.0,
                dy: 1.0,
            },
            InputRequest::PointerMotion { dx: 1.0, dy: 1.0 },
        ),
        (
            InputEvent::PointerMotionAbsolute {
                session_handle: handle.clone(),
                x: 1.0,
                y: 1.0,
            },
            InputRequest::PointerMotionAbsolute { x: 1.0, y: 1.0 },
        ),
        (
            InputEvent::PointerButton {
                session_handle: handle.clone(),
                button: 5,
                state: 1,
            },
            InputRequest::PointerButton {
                button: 5,
                state: 1,
            },
        ),
        (
            InputEvent::PointerAxisDiscrete {
                session_handle: handle.clone(),
                axis: 1,
                steps: 3,
            },
            InputRequest::PointerAxisDiscrete { axis: 1, steps: 3 },
        ),
    ] {
        let delivery = handle_input_event(&mut remotes, event, &plus).unwrap();
        assert_eq!(delivery.index, 0);
        assert_eq!(delivery.request, request);
    }
}

#[test]
fn removing_a_started_session_forgets_it() {
    let mut ids = ZoneIds::new();
    let mut remotes = vec![
        remote(&mut ids, "/a", all_devices()),
        remote(&mut ids, "/b", all_devices()),
    ];
    assert!(remove_remote_session(&mut remotes, "/c").is_none());
    assert_eq!(remotes.len(), 2);
    let removed = remove_remote_session(&mut remotes, "/a").unwrap();
    assert_eq!(removed.session_handle, "/a");
    assert_eq!(removed.zone_id.value(), 0);
    assert_eq!(remotes.len(), 1);
    assert_eq!(remotes[0].session_handle, "/b");
    assert!(remove_remote_session(&mut remotes, "/a").is_none());
}

#[test]
fn removing_a_session_ends_what_it_started() {
    let mut ids = ZoneIds::new();
    let mut sessions = vec![
        Session::new(path("/a"), SessionType::Remote),
        Session::new(path("/b"), SessionType::Remote),
    ];
    let mut remotes = vec![remote(&mut ids, "/b", all_devices())];
    let b = sessions[1].clone();
    let teardown = remove_session(&mut sessions, &mut remotes, &b).unwrap();
    assert_eq!(teardown.session_handle, "/b");
    assert_eq!(teardown.remote.unwrap().session_handle, "/b");
    assert_eq!(sessions.len(), 1);
    assert!(remotes.is_empty());
    assert!(remove_session(&mut sessions, &mut remotes, &b).is_none());
    let a = sessions[0].clone();
    let teardown = remove_session(&mut sessions, &mut remotes, &a).unwrap();
    assert!(teardown.remote.is_none());
}

#[test]
fn listener_messages_name_their_session() {
    let enable: EisServerMsg<u8> = enable_eis_listener(&path("/s"));
    assert_eq!(enable, EisServerMsg::ActiveListener("/s".to_string()));
    let disable: EisServerMsg<u8> = disable_eis_listener(&path("/s"));
    assert_eq!(disable, EisServerMsg::StopListener("/s".to_string()));
}

#[test]
fn options_are_read_as_booleans() {
    let mut options = Options::new();
    assert!(!option_bool(&options, "finish"));
    options.insert("finish".to_string(), Value::from(true));
    assert!(option_bool(&options, "finish"));
    options.insert("finish".to_string(), Value::from(false));
    assert!(!option_bool(&options, "finish"));
    options.insert("finish".to_string(), Value::from(1_u32));
    assert!(!option_bool(&options, "finish"));
    options.insert("finish".to_string(), Value::new(Value::from(true)));
    assert!(option_bool(&options, "finish"));
    assert!(!option_bool(&options, "other"));
}

#[test]
fn backend_tells_what_it_offers() {
    let backend = RemoteDesktopBackend;
    assert_eq!(backend.version(), 2);
    assert_eq!(backend.available_device_types(), 7);
}

#[test]
fn sessions_are_created_and_selected() {
    let backend = RemoteDesktopBackend;
    let mut sessions = vec![Session::new(path("/cast"), SessionType::ScreenCast)];
    match backend.create_session(&mut sessions, path("/s")) {
        PortalResponse::Success(result) => assert_eq!(result.handle_token, "/s"),
        PortalResponse::Other => panic!("the session was not created"),
    }
    assert_eq!(sessions.len(), 2);
    assert_eq!(sessions[1].session_type, SessionType::Remote);

    let token = build_restore_data(&grant(all_devices())).unwrap();
    let options = SelectDevicesOptions {
        types: Some(BitFlags::from_flag(DeviceType::Pointer)),
        restore_data: Some(token),
        persist_mode: Some(PersistMode::Application),
    };
    assert_eq!(
        backend.select_devices(&mut sessions, &path("/s"), options),
        PortalResponse::Success(())
    );
    assert_eq!(
        sessions[1].device_type,
        BitFlags::from_flag(DeviceType::Pointer)
    );
    assert_eq!(sessions[1].persist_mode, PersistMode::Application);
    assert_eq!(sessions[1].remote_restore, Some(grant(all_devices())));

    assert_eq!(
        backend.select_devices(&mut sessions, &path("/s"), SelectDevicesOptions::default()),
        PortalResponse::Success(())
    );
    assert_eq!(sessions[1].device_type, all_devices());
    assert_eq!(sessions[1].persist_mode, PersistMode::Application);
    assert_eq!(sessions[1].remote_restore, None);

    assert_eq!(
        backend.select_devices(
            &mut sessions,
            &path("/cast"),
            SelectDevicesOptions::default()
        ),
        PortalResponse::Other
    );
    assert!(sessions[0].device_type.is_empty());
    assert_eq!(
        backend.select_devices(
            &mut sessions,
            &path("/none"),
            SelectDevicesOptions::default()
        ),
        PortalResponse::Other
    );
}

#[test]
fn unknown_and_foreign_sessions_do_not_start() {
    let backend = RemoteDesktopBackend;
    let sessions = vec![Session::new(path("/cast"), SessionType::ScreenCast)];
    let remotes: Vec<RemoteSessionData<Bench>> = vec![];
    assert!(matches!(
        backend.start(&sessions, &remotes, &path("/none")),
        StartStep::Refused
    ));
    assert!(matches!(
        backend.start(&sessions, &remotes, &path("/cast")),
        StartStep::Refused
    ));
}

#[test]
fn start_runs_through_and_can_be_restored() {
    let backend = RemoteDesktopBackend;
    let mut ids = ZoneIds::new();
    let mut sessions = vec![];
    let mut remotes: Vec<RemoteSessionData<Bench>> = vec![];
    backend.create_session(&mut sessions, path("/s"));
    backend.select_devices(
        &mut sessions,
        &path("/s"),
        SelectDevicesOptions {
            persist_mode: Some(PersistMode::Application),
            ..Default::default()
        },
    );
    sessions[0].set_screencast_options(SelectSourcesOptions {
        cursor_mode: Some(CursorMode::Embedded),
        ..Default::default()
    });
    sessions[0].clipboard_requested = true;

    let fresh = match backend.start(&sessions, &remotes, &path("/s")) {
        StartStep::Fresh(fresh) => fresh,
        _ => panic!("the start is not fresh"),
    };
    assert!(fresh.restored_output_name.is_none());
    let outputs = vec![
        output("DP-1", 0, 0, 1920, 1080),
        output("DP-2", -1280, 0, 1280, 1440),
    ];
    let info = chosen(get_monitor_info(&outputs, None, Picked::Index(1)));
    let plan = plan_start(&fresh.session, &info);
    assert_eq!(plan.show_cursor, Some(true));
    assert_eq!(plan.size, (1920, 1440));
    assert_eq!(
        plan.area,
        ControlArea {
            x: (-1280_i32) as u32,
            y: 0,
            width: 1920,
            height: 1440
        }
    );
    assert_eq!(plan.persist_mode, PersistMode::Application);
    let reply = finish_start(
        &mut remotes,
        &mut ids,
        plan,
        Some(CastThread {
            node_id: 7,
            thread: "cast",
        }),
        "control",
        true,
    )
    .unwrap();
    assert_eq!(reply.forward_clipboard, Some("/s".to_string()));
    assert!(reply.value.clipboard_enabled);
    assert!(reply.value.screen_share_enabled);
    assert_eq!(reply.value.devices, all_devices());
    assert_eq!(
        reply.value.streams,
        vec![Stream(
            7,
            StreamProperties {
                size: (1920, 1440),
                ..Default::default()
            }
        )]
    );
    assert_eq!(remotes.len(), 1);
    assert_eq!(
        remotes[0].zones,
        vec![Zone {
            width: 1920,
            height: 1440,
            x_offset: -1280,
            y_offset: 0
        }]
    );

    let running = match backend.start(&sessions, &remotes, &path("/s")) {
        StartStep::Running(running) => running,
        _ => panic!("the session does not run"),
    };
    let again = resume_start(running, false).unwrap();
    assert_eq!(again.value.devices, all_devices());
    assert!(!again.value.clipboard_enabled);
    assert_eq!(again.forward_clipboard, None);
    assert_eq!(
        again.value.streams,
        vec![Stream(7, StreamProperties::default())]
    );
    assert!(again.value.restore_data.is_some());

    backend.create_session(&mut sessions, path("/t"));
    backend.select_devices(
        &mut sessions,
        &path("/t"),
        SelectDevicesOptions {
            restore_data: reply.value.restore_data,
            persist_mode: Some(PersistMode::Application),
            ..Default::default()
        },
    );
    sessions[1].set_screencast_options(SelectSourcesOptions::default());
    sessions[1].clipboard_requested = true;
    let fresh = match backend.start(&sessions, &remotes, &path("/t")) {
        StartStep::Fresh(fresh) => fresh,
        _ => panic!("the start is not fresh"),
    };
    assert_eq!(fresh.restored_output_name, Some("DP-2".to_string()));
    sessions[1].clipboard_requested = false;
    assert_eq!(restored_output_name(&sessions[1]), None);
}

#[test]
fn grants_without_a_target_do_not_persist() {
    let mut session = Session::new(path("/s"), SessionType::Remote);
    session.set_remote_options(None, Some(PersistMode::ExplicitlyRevoked), None);
    let mut info = RemoteInfo {
        output_name: String::new(),
        x: 0,
        y: 0,
        width: 10,
        height: 10,
        wl_output: (),
    };
    assert_eq!(plan_start(&session, &info).persist_mode, PersistMode::DoNot);
    info.output_name = "DP-1".to_string();
    let plan = plan_start(&session, &info);
    assert_eq!(plan.persist_mode, PersistMode::ExplicitlyRevoked);
    assert_eq!(plan.show_cursor, None);
    session.set_screencast_options(SelectSourcesOptions {
        multiple: Some(true),
        ..Default::default()
    });
    let plan = plan_start(&session, &info);
    assert_eq!(plan.persist_mode, PersistMode::DoNot);
    assert_eq!(plan.authorization.persist_mode, PersistMode::DoNot);
    assert_eq!(plan.show_cursor, Some(false));
}

#[test]
fn input_calls_make_their_requests() {
    let backend = RemoteDesktopBackend;
    let mut ids = ZoneIds::new();
    let mut remotes = vec![remote(&mut ids, "/s", all_devices())];
    let s = path("/s");
    let sent = backend
        .notify_pointer_motion(&mut remotes, &s, 1.0, 2.0, &plus)
        .unwrap()
        .unwrap();
    assert_eq!(
        sent.request,
        InputRequest::PointerMotion { dx: 1.0, dy: 2.0 }
    );
    let sent = backend
        .notify_pointer_motion_absolute(&mut remotes, &s, 1.0, 2.0, &plus)
        .unwrap()
        .unwrap();
    assert_eq!(
        sent.request,
        InputRequest::PointerMotionAbsolute { x: 1.0, y: 2.0 }
    );
    let sent = backend
        .notify_pointer_button(&mut remotes, &s, 3, 1, &plus)
        .unwrap()
        .unwrap();
    assert_eq!(
        sent.request,
        InputRequest::PointerButton {
            button: 3,
            state: 1
        }
    );
    let mut options = Options::new();
    options.insert("finish".to_string(), Value::from(true));
    let sent = backend
        .notify_pointer_axis(&mut remotes, &s, &options, 1.0, 2.0, &plus)
        .unwrap()
        .unwrap();
    assert_eq!(
        sent.request,
        InputRequest::PointerAxis {
            dx: 1.0,
            dy: 2.0,
            finish: true
        }
    );
    let sent = backend
        .notify_pointer_axis_discrete(&mut remotes, &s, 1, -2, &plus)
        .unwrap()
        .unwrap();
    assert_eq!(
        sent.request,
        InputRequest::PointerAxisDiscrete { axis: 1, steps: -2 }
    );
    let sent = backend
        .notify_keyboard_keycode(&mut remotes, &s, 30, 1, &plus)
        .unwrap()
        .unwrap();
    assert_eq!(
        sent.request,
        InputRequest::KeyboardKeycode {
            keycode: 30,
            state: 1
        }
    );
    let sent = backend
        .notify_keyboard_keysym(&mut remotes, &s, 97, 0, &plus)
        .unwrap()
        .unwrap();
    assert_eq!(
        sent.request,
        InputRequest::KeyboardKeysym {
            keysym: 97,
            state: 0
        }
    );
    let sent = backend
        .notify_touch_down(&mut remotes, &s, 4, 1.0, 2.0, &plus)
        .unwrap()
        .unwrap();
    assert_eq!(
        sent.request,
        InputRequest::TouchDown {
            slot: 4,
            x: 1.0,
            y: 2.0
        }
    );
    let sent = backend
        .notify_touch_motion(&mut remotes, &s, 4, 1.0, 2.0, &plus)
        .unwrap()
        .unwrap();
    assert_eq!(
        sent.request,
        InputRequest::TouchMotion {
            slot: 4,
            x: 1.0,
            y: 2.0
        }
    );
    let sent = backend
        .notify_touch_up(&mut remotes, &s, 4, &plus)
        .unwrap()
        .unwrap();
    assert_eq!(sent.request, InputRequest::TouchUp { slot: 4 });
    assert_eq!(
        remotes[0].cursor_position(),
        CursorPosition { x: 1.0, y: 2.0 }
    );
}

#[test]
fn emulated_input_clients_get_what_the_session_was_granted() {
    let backend = RemoteDesktopBackend;
    let mut ids = ZoneIds::new();
    let remotes = vec![remote(
        &mut ids,
        "/s",
        BitFlags::from_flag(DeviceType::Keyboard),
    )];
    let grant = backend.connect_to_eis(&remotes, &path("/s")).unwrap();
    assert_eq!(
        grant.message("socket"),
        EisServerMsg::NewListener(
            "socket",
            "/s".to_string(),
            BitFlags::from_flag(DeviceType::Keyboard)
        )
    );
    assert_eq!(
        backend.connect_to_eis(&remotes, &path("/t")).err(),
        Some(PortalError::NotStarted)
    );
}

#[test]
fn sessions_without_sharing_have_no_stream() {
    let backend = RemoteDesktopBackend;
    let mut ids = ZoneIds::new();
    let mut sessions = vec![];
    let mut remotes: Vec<RemoteSessionData<Bench>> = vec![];
    backend.create_session(&mut sessions, path("/s"));
    let outputs = vec![output("DP-1", 0, 0, 1920, 1080)];
    let info = chosen(get_monitor_info(&outputs, None, Picked::Index(0)));
    let plan = plan_start(&sessions[0], &info);
    assert_eq!(plan.show_cursor, None);
    let reply = finish_start(&mut remotes, &mut ids, plan, None, "control", false).unwrap();
    assert!(!reply.value.screen_share_enabled);
    assert!(reply.value.streams.is_empty());
    assert!(remotes[0].cast_thread.is_none());

    let running = match backend.start(&sessions, &remotes, &path("/s")) {
        StartStep::Running(running) => running,
        _ => panic!("the session does not run"),
    };
    let again = resume_start(running, false).unwrap();
    assert!(!again.value.screen_share_enabled);
    assert!(again.value.streams.is_empty());
}
