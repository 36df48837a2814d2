use luminous_portal::eis_server::device_capabilities;
use luminous_portal::eis_server::handle_new_connection;
use luminous_portal::eis_server::input_events;
use luminous_portal::eis_server::start;
use luminous_portal::eis_server::Clients;
use luminous_portal::eis_server::ContextState;
use luminous_portal::eis_server::ContextType;
use luminous_portal::eis_server::DeviceAction;
use luminous_portal::eis_server::DeviceCapability;
use luminous_portal::eis_server::DeviceSlot;
use luminous_portal::eis_server::EisRequest;
use luminous_portal::eis_server::EisRequestSourceEvent;
use luminous_portal::eis_server::EisServerMsg;
use luminous_portal::eis_server::ListenerAction;
use luminous_portal::eis_server::PostAction;
use luminous_portal::eis_server::PressState;
use luminous_portal::eis_server::SEAT_NAME;
use luminous_portal::flags::BitFlags;
use luminous_portal::input::InputEvent;
use luminous_portal::session::all_devices;
use luminous_portal::session::DeviceType;

fn capabilities(list: &[DeviceCapability]) -> BitFlags<DeviceCapability> {
    let mut set = BitFlags::empty();
    for capability in list {
        set = set.with(*capability);
    }
    set
}

fn bind(list: &[DeviceCapability]) -> EisRequest<f64> {
    EisRequest::Bind {
        capabilities: capabilities(list),
    }
}

#[test]
fn eis_capabilities_match_authorized_devices() {
    let keyboard = device_capabilities(BitFlags::from_flag(DeviceType::Keyboard));
    assert!(keyboard.contains(DeviceCapability::Keyboard));
    assert!(!keyboard.contains(DeviceCapability::Pointer));
    assert!(!keyboard.contains(DeviceCapability::Touch));

    let pointer = device_capabilities(BitFlags::from_flag(DeviceType::Pointer));
    assert!(pointer.contains(DeviceCapability::Pointer));
    assert!(pointer.contains(DeviceCapability::PointerAbsolute));
    assert!(pointer.contains(DeviceCapability::Button));
    assert!(pointer.contains(DeviceCapability::Scroll));
    assert!(!pointer.contains(DeviceCapability::Keyboard));

    let touch = device_capabilities(BitFlags::from_flag(DeviceType::TouchScreen));
    assert!(touch.contains(DeviceCapability::Touch));
    assert!(!touch.contains(DeviceCapability::Pointer));
}

#[test]
fn text_is_never_offered() {
    assert!(!device_capabilities(all_devices()).contains(DeviceCapability::Text));
    assert!(device_capabilities(BitFlags::empty()).is_empty());
}

#[test]
fn binding_adds_what_is_granted() {
    let mut state = ContextState::new(BitFlags::from_flag(DeviceType::Keyboard));
    let (post, actions) = state.handle_request(
        ContextType::Sender,
        &bind(&[
            DeviceCapability::Keyboard,
            DeviceCapability::Pointer,
            DeviceCapability::Touch,
        ]),
    );
    assert_eq!(post, PostAction::Continue);
    assert_eq!(
        actions,
        vec![DeviceAction::Add {
            slot: DeviceSlot::Keyboard,
            capabilities: capabilities(&[DeviceCapability::Keyboard]),
            start_emulating: None,
        }]
    );
    assert!(state.device_keyboard);
    assert!(!state.device_pointer);
    assert!(!state.device_touch);
    assert_eq!(state.sequence, 0);
}

#[test]
fn receivers_start_emulating_under_increasing_numbers() {
    let mut state = ContextState::new(all_devices());
    let all = [
        DeviceCapability::Keyboard,
        DeviceCapability::Pointer,
        DeviceCapability::Scroll,
        DeviceCapability::Touch,
    ];
    let (_, actions) = state.handle_request(ContextType::Receiver, &bind(&all));
    assert_eq!(
        actions,
        vec![
            DeviceAction::Add {
                slot: DeviceSlot::Keyboard,
                capabilities: capabilities(&[DeviceCapability::Keyboard]),
                start_emulating: Some(1),
            },
            DeviceAction::Add {
                slot: DeviceSlot::Pointer,
                capabilities: capabilities(&[DeviceCapability::Pointer, DeviceCapability::Scroll]),
                start_emulating: Some(2),
            },
            DeviceAction::Add {
                slot: DeviceSlot::Touch,
                capabilities: capabilities(&[DeviceCapability::Touch]),
                start_emulating: Some(3),
            },
        ]
    );
    assert_eq!(state.sequence, 3);

    let before = state;
    let (_, again) = state.handle_request(ContextType::Receiver, &bind(&all));
    assert_eq!(again, vec![]);
    assert_eq!(state, before);

    let (_, changed) = state.handle_request(
        ContextType::Receiver,
        &bind(&[DeviceCapability::Button, DeviceCapability::Keyboard]),
    );
    assert_eq!(
        changed,
        vec![
            DeviceAction::Remove {
                slot: DeviceSlot::Pointer
            },
            DeviceAction::Add {
                slot: DeviceSlot::Pointer,
                capabilities: capabilities(&[DeviceCapability::Button]),
                start_emulating: Some(4),
            },
            DeviceAction::Remove {
                slot: DeviceSlot::Touch
            },
        ]
    );

    let (_, removed) = state.handle_request(ContextType::Receiver, &bind(&[]));
    assert_eq!(
        removed,
        vec![
            DeviceAction::Remove {
                slot: DeviceSlot::Keyboard
            },
            DeviceAction::Remove {
                slot: DeviceSlot::Pointer
            },
        ]
    );
    assert_eq!(state.sequence, 4);
}

#[test]
fn disconnecting_removes_the_connection() {
    let mut state = ContextState::new(all_devices());
    let reaction = state.handle_request_source_event::<f64>(
        ContextType::Sender,
        &EisRequestSourceEvent::Request(EisRequest::Disconnect),
        "/s",
    );
    assert_eq!(reaction.post_action, PostAction::Remove);
    assert!(!reaction.flush);
    assert!(reaction.events.is_empty());
    assert!(reaction.actions.is_empty());
    assert!(reaction.add_seat.is_none());
}

#[test]
fn connecting_adds_a_seat() {
    let mut state = ContextState::new(BitFlags::from_flag(DeviceType::TouchScreen));
    let reaction = state.handle_request_source_event::<f64>(
        ContextType::Sender,
        &EisRequestSourceEvent::Connected,
        "/s",
    );
    assert_eq!(
        reaction.add_seat,
        Some(capabilities(&[DeviceCapability::Touch]))
    );
    assert!(reaction.flush);
    assert_eq!(reaction.post_action, PostAction::Continue);
    assert_eq!(SEAT_NAME, "default");
}

#[test]
fn requests_turn_into_events_of_their_session() {
    let mut state = ContextState::new(all_devices());
    let reaction = state.handle_request_source_event(
        ContextType::Sender,
        &EisRequestSourceEvent::Request(EisRequest::PointerMotion { dx: 1.5, dy: -2.0 }),
        "/s",
    );
    assert_eq!(
        reaction.events,
        vec![InputEvent::PointerMotion {
            session_handle: "/s".to_string(),
            dx: 1.5,
            dy: -2.0
        }]
    );
    assert!(reaction.flush);
    assert!(reaction.actions.is_empty());
}

#[test]
fn every_kind_of_request_is_translated() {
    let h = "/s".to_string();
    assert_eq!(
        input_events(
            &EisRequest::PointerMotionAbsolute {
                dx_absolute: 1.0,
                dy_absolute: 2.0
            },
            "/s"
        ),
        vec![InputEvent::PointerMotionAbsolute {
            session_handle: h.clone(),
            x: 1.0,
            y: 2.0
        }]
    );
    assert_eq!(
        input_events::<f64>(
            &EisRequest::Button {
                button: 0x110,
                state: PressState::Press
            },
            "/s"
        ),
        vec![InputEvent::PointerButton {
            session_handle: h.clone(),
            button: 0x110,
            state: 1
        }]
    );
    assert_eq!(
        input_events(&EisRequest::ScrollDelta { dx: 3.0, dy: 4.0 }, "/s"),
        vec![InputEvent::PointerAxis {
            session_handle: h.clone(),
            dx: 3.0,
            dy: 4.0
        }]
    );
    assert_eq!(
        input_events::<f64>(
            &EisRequest::KeyboardKey {
                key: u32::MAX,
                state: PressState::Released
            },
            "/s"
        ),
        vec![InputEvent::KeyboardKeycode {
            session_handle: h.clone(),
            keycode: -1,
            state: 0
        }]
    );
    assert_eq!(
        input_events(
            &EisRequest::TouchDown {
                touch_id: 7,
                x: 5.0,
                y: 6.0
            },
            "/s"
        ),
        vec![InputEvent::TouchDown {
            session_handle: h.clone(),
            slot: 7,
            x: 5.0,
            y: 6.0
        }]
    );
    assert_eq!(
        input_events(
            &EisRequest::TouchMotion {
                touch_id: 7,
                x: 5.0,
                y: 6.0
            },
            "/s"
        ),
        vec![InputEvent::TouchMotion {
            session_handle: h.clone(),
            slot: 7,
            x: 5.0,
            y: 6.0
        }]
    );
    assert_eq!(
        input_events::<f64>(&EisRequest::TouchUp { touch_id: 7 }, "/s"),
        vec![InputEvent::TouchUp {
            session_handle: h.clone(),
            slot: 7
        }]
    );
    assert_eq!(input_events::<f64>(&EisRequest::Other, "/s"), vec![]);
    assert_eq!(input_events::<f64>(&bind(&[]), "/s"), vec![]);
}

#[test]
fn discrete_scrolling_is_split_by_axis() {
    let h = "/s".to_string();
    let horizontal = InputEvent::PointerAxisDiscrete {
        session_handle: h.clone(),
        axis: 1,
        steps: 120,
    };
    let vertical = InputEvent::PointerAxisDiscrete {
        session_handle: h.clone(),
        axis: 0,
        steps: -240,
    };
    assert_eq!(
        input_events::<f64>(
            &EisRequest::ScrollDiscrete {
                discrete_dx: 120,
                discrete_dy: -240
            },
            "/s"
        ),
        vec![horizontal, vertical]
    );
    assert_eq!(
        input_events::<f64>(
            &EisRequest::ScrollDiscrete {
                discrete_dx: 0,
                discrete_dy: 5
            },
            "/s"
        ),
        vec![InputEvent::PointerAxisDiscrete {
            session_handle: h,
            axis: 0,
            steps: 5
        }]
    );
    assert_eq!(
        input_events::<f64>(
            &EisRequest::ScrollDiscrete {
                discrete_dx: 0,
                discrete_dy: 0
            },
            "/s"
        ),
        vec![]
    );
}

#[test]
fn slots_have_their_names() {
    assert_eq!(DeviceSlot::Keyboard.name(), "keyboard");
    assert_eq!(DeviceSlot::Pointer.name(), "pointer");
    assert_eq!(DeviceSlot::Touch.name(), "touch");
}

#[test]
fn listeners_are_kept_by_session() {
    let mut clients: Clients<u32> = Clients::new();
    let message: EisServerMsg<&str> =
        EisServerMsg::NewListener("socket", "/s".to_string(), all_devices());
    assert_eq!(
        clients.handle_message(message),
        ListenerAction::Register {
            listener: "socket",
            session_handle: "/s".to_string(),
            devices: all_devices()
        }
    );
    assert_eq!(clients.token("/s"), None);
    clients.registered("/s".to_string(), 11);
    assert_eq!(clients.token("/s"), Some(11));

    let stop: EisServerMsg<&str> = EisServerMsg::StopListener("/s".to_string());
    assert_eq!(clients.handle_message(stop), ListenerAction::Disable(11));
    let active: EisServerMsg<&str> = EisServerMsg::ActiveListener("/s".to_string());
    assert_eq!(clients.handle_message(active), ListenerAction::Enable(11));
    let other: EisServerMsg<&str> = EisServerMsg::StopListener("/t".to_string());
    assert_eq!(clients.handle_message(other), ListenerAction::Ignore);
    let remove: EisServerMsg<&str> = EisServerMsg::RemoveListener("/s".to_string());
    assert_eq!(clients.handle_message(remove), ListenerAction::Remove(11));
    let gone: EisServerMsg<&str> = EisServerMsg::RemoveListener("/s".to_string());
    assert_eq!(clients.handle_message(gone), ListenerAction::Ignore);
    assert_eq!(clients.token("/s"), None);
}

#[test]
fn later_listener_replaces_the_earlier() {
    let mut clients: Clients<u32> = Clients::new();
    clients.registered("/s".to_string(), 1);
    clients.registered("/s".to_string(), 2);
    assert_eq!(clients.token("/s"), Some(2));
}

#[test]
fn emulation_numbers_can_run_out() {
    let mut state = ContextState::new(all_devices());
    let three = EisRequestSourceEvent::Request(bind(&[
        DeviceCapability::Keyboard,
        DeviceCapability::Pointer,
        DeviceCapability::Touch,
    ]));
    state.sequence = u32::MAX - 3;
    assert!(state.has_numbers_for(ContextType::Receiver, &three));
    state.sequence = u32::MAX - 2;
    assert!(!state.has_numbers_for(ContextType::Receiver, &three));
    assert!(state.has_numbers_for(ContextType::Sender, &three));
    state.device_keyboard = true;
    assert!(state.has_numbers_for(ContextType::Receiver, &three));
    state.sequence = u32::MAX;
    assert!(!state.has_numbers_for(ContextType::Receiver, &three));
    let none: EisRequestSourceEvent<f64> = EisRequestSourceEvent::Connected;
    assert!(state.has_numbers_for(ContextType::Receiver, &none));
}

#[test]
fn messages_act_on_the_latest_listener_of_their_session() {
    let mut clients: Clients<u32> = start();
    for (session, token) in [("/s", 1), ("/t", 2), ("/s", 3)] {
        let message: EisServerMsg<&str> =
            EisServerMsg::NewListener("socket", session.to_string(), all_devices());
        assert!(matches!(
            clients.handle_message(message),
            ListenerAction::Register { .. }
        ));
        clients.registered(session.to_string(), token);
    }
    let stop: EisServerMsg<&str> = EisServerMsg::StopListener("/s".to_string());
    assert_eq!(clients.handle_message(stop), ListenerAction::Disable(3));
    let remove: EisServerMsg<&str> = EisServerMsg::RemoveListener("/s".to_string());
    assert_eq!(clients.handle_message(remove), ListenerAction::Remove(3));
    let active: EisServerMsg<&str> = EisServerMsg::ActiveListener("/s".to_string());
    assert_eq!(clients.handle_message(active), ListenerAction::Ignore);
    assert_eq!(clients.token("/t"), Some(2));
    let other: EisServerMsg<&str> = EisServerMsg::ActiveListener("/t".to_string());
    assert_eq!(clients.handle_message(other), ListenerAction::Enable(2));
}

#[test]
fn connections_keep_their_session_and_devices() {
    let mut connection = handle_new_connection(
        "/s".to_string(),
        BitFlags::from_flag(DeviceType::Keyboard),
    );
    let connected: Result<EisRequestSourceEvent<f64>, &str> = Ok(EisRequestSourceEvent::Connected);
    let reaction = connection.handle_report(ContextType::Sender, &connected);
    assert_eq!(
        reaction.add_seat,
        Some(capabilities(&[DeviceCapability::Keyboard]))
    );
    let all: Result<EisRequestSourceEvent<f64>, &str> =
        Ok(EisRequestSourceEvent::Request(bind(&[
            DeviceCapability::Keyboard,
            DeviceCapability::Pointer,
            DeviceCapability::Touch,
        ])));
    let reaction = connection.handle_report(ContextType::Sender, &all);
    assert_eq!(
        reaction.actions,
        vec![DeviceAction::Add {
            slot: DeviceSlot::Keyboard,
            capabilities: capabilities(&[DeviceCapability::Keyboard]),
            start_emulating: None
        }]
    );
    let key: Result<EisRequestSourceEvent<f64>, &str> =
        Ok(EisRequestSourceEvent::Request(EisRequest::KeyboardKey {
            key: 30,
            state: PressState::Press,
        }));
    let reaction = connection.handle_report(ContextType::Sender, &key);
    assert_eq!(
        reaction.events,
        vec![InputEvent::KeyboardKeycode {
            session_handle: "/s".to_string(),
            keycode: 30,
            state: 1
        }]
    );
}

#[test]
fn errors_end_the_connection() {
    let mut connection = handle_new_connection("/s".to_string(), all_devices());
    let broken: Result<EisRequestSourceEvent<f64>, &str> = Err("broken pipe");
    let reaction = connection.handle_report(ContextType::Sender, &broken);
    assert_eq!(reaction.post_action, PostAction::Remove);
    assert!(reaction.add_seat.is_none());
    assert!(reaction.events.is_empty());
    assert!(reaction.actions.is_empty());
    assert!(!reaction.flush);
    assert_eq!(connection.session_handle, "/s");
}
