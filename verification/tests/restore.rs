use luminous_portal::flags::BitFlag;
use luminous_portal::flags::BitFlags;
use luminous_portal::restore::authorization_from_payload;
use luminous_portal::restore::build_restore_data;
use luminous_portal::restore::parse_persist_mode;
use luminous_portal::restore::parse_restore_data;
use luminous_portal::restore::payload_from_authorization;
use luminous_portal::restore::payload_signature;
use luminous_portal::restore::RemoteAuthorization;
use luminous_portal::restore::RestoreData;
use luminous_portal::restore::RestorePayloadV1;
use luminous_portal::restore::MAX_OUTPUT_NAME_LEN;
use luminous_portal::restore::RESTORE_DATA_VENDOR;
use luminous_portal::restore::RESTORE_PAYLOAD_SIGNATURE;
use luminous_portal::restore::RESTORE_DATA_VERSION;
use luminous_portal::session::DeviceType;
use luminous_portal::session::PersistMode;
use luminous_portal::session::SourceType;
use luminous_portal::start::build_remote_start_value;
use zbus::zvariant::OwnedValue;
use zbus::zvariant::Structure;
use zbus::zvariant::Type;
use zbus::zvariant::Value;

fn authorization_with_persist(persist_mode: PersistMode) -> RemoteAuthorization {
    RemoteAuthorization::new(
        "DP-1".to_string(),
        BitFlags::from_flag(DeviceType::Keyboard).with(DeviceType::Pointer),
        true,
        true,
        BitFlags::from_flag(SourceType::Monitor),
        false,
        persist_mode,
    )
}

fn authorization() -> RemoteAuthorization {
    authorization_with_persist(PersistMode::Application)
}

fn restore_data_from_payload(payload: RestorePayloadV1) -> RestoreData {
    (
        RESTORE_DATA_VENDOR.to_string(),
        RESTORE_DATA_VERSION,
        payload.into_value().unwrap(),
    )
}

fn restore_data_from_value(value: Value<'static>) -> RestoreData {
    (
        RESTORE_DATA_VENDOR.to_string(),
        RESTORE_DATA_VERSION,
        OwnedValue::try_from(value).unwrap(),
    )
}

#[test]
fn restore_data_has_expected_signatures() {
    assert_eq!(<RestoreData as Type>::SIGNATURE, "(suv)");
    let payload = payload_from_authorization(&authorization()).into_value().unwrap();
    assert_eq!(payload.value_signature(), "(subbubu)");
    let restore_data = build_restore_data(&authorization()).unwrap();
    assert_eq!(payload_signature(&restore_data), "(subbubu)");
    assert_eq!(RESTORE_PAYLOAD_SIGNATURE, "(subbubu)");
    let number = ("Luminous".to_string(), 1, OwnedValue::from(42_u32));
    assert_eq!(payload_signature(&number), "u");
}

#[test]
fn restore_data_round_trips() {
    let authorization = authorization();
    let restore_data = build_restore_data(&authorization).unwrap();
    assert_eq!(parse_restore_data(restore_data), Some(authorization));
}

#[test]
fn invalid_restore_envelopes_are_ignored() {
    let authorization = authorization();
    let (_, version, payload) = build_restore_data(&authorization).unwrap();
    assert!(parse_restore_data(("Other".to_string(), version, payload)).is_none());

    let (_, _, payload) = build_restore_data(&authorization).unwrap();
    assert!(
        parse_restore_data((
            RESTORE_DATA_VENDOR.to_string(),
            RESTORE_DATA_VERSION + 1,
            payload,
        ))
        .is_none()
    );

    assert!(
        parse_restore_data((
            RESTORE_DATA_VENDOR.to_string(),
            RESTORE_DATA_VERSION,
            OwnedValue::from(42_u32),
        ))
        .is_none()
    );
}

#[test]
fn invalid_restore_payloads_are_ignored() {
    let empty_output = RestorePayloadV1 {
        output_name: String::new(),
        devices: DeviceType::Keyboard.bit(),
        screen_share_enabled: false,
        clipboard_enabled: false,
        source_types: SourceType::Monitor.bit(),
        multiple: false,
        persist_mode: PersistMode::Application.value(),
    };
    assert!(parse_restore_data(restore_data_from_payload(empty_output)).is_none());

    let unknown_device = RestorePayloadV1 {
        output_name: "DP-1".to_string(),
        devices: 1 << 8,
        screen_share_enabled: false,
        clipboard_enabled: false,
        source_types: SourceType::Monitor.bit(),
        multiple: false,
        persist_mode: PersistMode::Application.value(),
    };
    assert!(parse_restore_data(restore_data_from_payload(unknown_device)).is_none());

    let window_only = RestorePayloadV1 {
        output_name: "DP-1".to_string(),
        devices: DeviceType::Keyboard.bit(),
        screen_share_enabled: true,
        clipboard_enabled: false,
        source_types: SourceType::Window.bit(),
        multiple: false,
        persist_mode: PersistMode::Application.value(),
    };
    assert!(parse_restore_data(restore_data_from_payload(window_only)).is_none());

    let multiple = RestorePayloadV1 {
        output_name: "DP-1".to_string(),
        devices: DeviceType::Keyboard.bit(),
        screen_share_enabled: true,
        clipboard_enabled: false,
        source_types: SourceType::Monitor.bit(),
        multiple: true,
        persist_mode: PersistMode::Application.value(),
    };
    assert!(parse_restore_data(restore_data_from_payload(multiple)).is_none());

    let invalid_persist_mode = RestorePayloadV1 {
        output_name: "DP-1".to_string(),
        devices: DeviceType::Keyboard.bit(),
        screen_share_enabled: false,
        clipboard_enabled: false,
        source_types: SourceType::Monitor.bit(),
        multiple: false,
        persist_mode: 3,
    };
    assert!(parse_restore_data(restore_data_from_payload(invalid_persist_mode)).is_none());

    let oversized_output = RestorePayloadV1 {
        output_name: "x".repeat(MAX_OUTPUT_NAME_LEN + 1),
        devices: DeviceType::Keyboard.bit(),
        screen_share_enabled: false,
        clipboard_enabled: false,
        source_types: SourceType::Monitor.bit(),
        multiple: false,
        persist_mode: PersistMode::Application.value(),
    };
    assert!(parse_restore_data(restore_data_from_payload(oversized_output)).is_none());
}

#[test]
fn restored_authorization_requires_an_exact_request_match() {
    let authorization = authorization();
    let devices = BitFlags::from_flag(DeviceType::Keyboard).with(DeviceType::Pointer);
    let source_types = BitFlags::from_flag(SourceType::Monitor);
    assert!(authorization.matches_request(
        devices,
        true,
        true,
        source_types,
        false,
        PersistMode::Application,
    ));
    assert!(authorization.matches_request(
        devices,
        true,
        true,
        source_types,
        false,
        PersistMode::DoNot,
    ));
    assert!(!authorization.matches_request(
        BitFlags::from_flag(DeviceType::Keyboard),
        true,
        true,
        source_types,
        false,
        PersistMode::Application,
    ));
    assert!(!authorization.matches_request(
        devices,
        false,
        true,
        source_types,
        false,
        PersistMode::Application,
    ));
    assert!(!authorization.matches_request(
        devices,
        true,
        false,
        source_types,
        false,
        PersistMode::Application,
    ));
    assert!(!authorization.matches_request(
        devices,
        true,
        true,
        BitFlags::from_flag(SourceType::Window),
        false,
        PersistMode::Application,
    ));
    assert!(!authorization.matches_request(
        devices,
        true,
        true,
        source_types,
        true,
        PersistMode::Application,
    ));
    assert!(!authorization.matches_request(
        devices,
        true,
        true,
        source_types,
        false,
        PersistMode::ExplicitlyRevoked,
    ));
}

#[test]
fn restore_data_is_returned_for_both_persistent_modes() {
    let transient_authorization = authorization_with_persist(PersistMode::DoNot);
    let transient = build_remote_start_value(
        Vec::new(),
        &transient_authorization,
        PersistMode::DoNot,
        true,
    )
    .unwrap();
    assert!(transient.restore_data.is_none());

    for persist_mode in [PersistMode::Application, PersistMode::ExplicitlyRevoked] {
        let authorization = authorization_with_persist(persist_mode);
        let persistent =
            build_remote_start_value(Vec::new(), &authorization, persist_mode, true).unwrap();
        let restored = parse_restore_data(persistent.restore_data.unwrap()).unwrap();
        assert_eq!(restored, authorization);
    }
}

#[test]
fn payload_fields_have_their_places_and_numbers() {
    let (vendor, version, value) = build_restore_data(&authorization()).unwrap();
    assert_eq!(vendor, "Luminous");
    assert_eq!(version, 1);
    let fields = Structure::try_from(value).unwrap().into_fields();
    assert_eq!(fields.len(), 7);
    assert_eq!(fields[0], Value::from("DP-1"));
    assert_eq!(fields[1], Value::from(3_u32));
    assert_eq!(fields[2], Value::from(true));
    assert_eq!(fields[3], Value::from(true));
    assert_eq!(fields[4], Value::from(1_u32));
    assert_eq!(fields[5], Value::from(false));
    assert_eq!(fields[6], Value::from(1_u32));
}

#[test]
fn hand_written_payload_is_read() {
    let value = Value::from(Structure::from((
        "HDMI-A-1", 5_u32, false, true, 6_u32, true, 2_u32,
    )));
    let restored = parse_restore_data(restore_data_from_value(value)).unwrap();
    assert_eq!(restored.output_name, "HDMI-A-1");
    assert!(restored.devices.contains(DeviceType::Keyboard));
    assert!(!restored.devices.contains(DeviceType::Pointer));
    assert!(restored.devices.contains(DeviceType::TouchScreen));
    assert!(!restored.screen_share_enabled);
    assert!(restored.clipboard_enabled);
    assert!(!restored.source_types.contains(SourceType::Monitor));
    assert!(restored.source_types.contains(SourceType::Window));
    assert!(restored.source_types.contains(SourceType::Virtual));
    assert!(restored.multiple);
    assert_eq!(restored.persist_mode, PersistMode::ExplicitlyRevoked);
}

#[test]
fn payload_of_wrong_types_is_ignored() {
    let text_for_number = Value::from(Structure::from((
        "DP-1", "3", true, true, 1_u32, false, 1_u32,
    )));
    assert!(parse_restore_data(restore_data_from_value(text_for_number)).is_none());
    let number_for_text = Value::from(Structure::from((
        7_u32, 3_u32, true, true, 1_u32, false, 1_u32,
    )));
    assert!(parse_restore_data(restore_data_from_value(number_for_text)).is_none());
    let number_for_flag = Value::from(Structure::from((
        "DP-1", 3_u32, 1_u32, true, 1_u32, false, 1_u32,
    )));
    assert!(parse_restore_data(restore_data_from_value(number_for_flag)).is_none());
    let signed_number = Value::from(Structure::from((
        "DP-1", 3_i32, true, true, 1_u32, false, 1_u32,
    )));
    assert!(parse_restore_data(restore_data_from_value(signed_number)).is_none());
}

#[test]
fn short_payload_is_ignored_and_long_payload_is_read() {
    let short = Value::from(Structure::from(("DP-1", 3_u32, true, true, 1_u32, false)));
    assert!(parse_restore_data(restore_data_from_value(short)).is_none());
    let long = Value::from(Structure::from((
        "DP-1", 3_u32, true, true, 1_u32, false, 1_u32, "more",
    )));
    assert_eq!(
        parse_restore_data(restore_data_from_value(long)),
        Some(authorization())
    );
}

#[test]
fn payload_fields_may_be_wrapped_in_a_variant() {
    let wrapped = Value::from(Structure::from((
        Value::from("DP-1"),
        Value::from(3_u32),
        Value::from(true),
        true,
        1_u32,
        false,
        1_u32,
    )));
    assert_eq!(
        parse_restore_data(restore_data_from_value(wrapped)),
        Some(authorization())
    );
}

#[test]
fn unrestorable_grants_do_not_come_back() {
    let mut window = authorization();
    window.source_types = BitFlags::from_flag(SourceType::Window);
    assert!(!window.has_restorable_target());
    let restore_data = build_restore_data(&window).unwrap();
    assert!(parse_restore_data(restore_data).is_none());
}

#[test]
fn output_names_are_measured_in_bytes() {
    let mut named = authorization();
    named.output_name = "x".repeat(256);
    assert!(named.has_restorable_target());
    named.output_name = "x".repeat(257);
    assert!(!named.has_restorable_target());
    named.output_name = "\u{e4}".repeat(128);
    assert!(named.has_restorable_target());
    named.output_name = "\u{e4}".repeat(129);
    assert!(!named.has_restorable_target());
}

#[test]
fn sources_do_not_matter_without_screen_sharing() {
    let mut control_only = authorization();
    control_only.screen_share_enabled = false;
    control_only.source_types = BitFlags::empty();
    control_only.multiple = true;
    assert!(control_only.has_restorable_target());
}

#[test]
fn unknown_source_is_ignored() {
    let mut payload = payload_from_authorization(&authorization());
    payload.source_types = 9;
    assert!(authorization_from_payload(payload).is_none());
}

#[test]
fn persist_modes_have_their_numbers() {
    assert_eq!(parse_persist_mode(0), Some(PersistMode::DoNot));
    assert_eq!(parse_persist_mode(1), Some(PersistMode::Application));
    assert_eq!(parse_persist_mode(2), Some(PersistMode::ExplicitlyRevoked));
    assert_eq!(parse_persist_mode(3), None);
    assert_eq!(PersistMode::default(), PersistMode::DoNot);
}
