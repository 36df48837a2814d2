//! What a client was granted, and the token by which it gets the same grant again.

use crate::error::PortalError;
use crate::flags::flags_in;
use crate::flags::known_bits;
use crate::flags::word_and_set_determine_each_other;
use crate::flags::BitFlags;
use crate::session::DeviceType;
use crate::session::PersistMode;
use crate::session::SourceType;
use crate::text::same_text;
use crate::variant::build_structure;
use crate::variant::downcast_flag;
use crate::variant::downcast_number;
use crate::variant::downcast_text;
use crate::variant::held_flag;
use crate::variant::held_number;
use crate::variant::held_text;
use crate::variant::into_fields;
use crate::variant::structure_fields;
use crate::variant::type_code;
use crate::variant::value_signature;
use vstd::prelude::*;
use vstd::utf8::encode_utf8;
use zbus::zvariant::OwnedValue;
use zbus::zvariant::Value;

verus! {

/// The token that a client keeps: who wrote it, its version, and the payload.
pub type RestoreData = (String, u32, OwnedValue);

/// The vendor that tokens of this backend name.
pub const RESTORE_DATA_VENDOR: &'static str = "Luminous";

/// The version of the payload that this backend writes and reads.
pub const RESTORE_DATA_VERSION: u32 = 1;

/// The D-Bus type of the payload that this backend writes.
pub const RESTORE_PAYLOAD_SIGNATURE: &'static str = "(subbubu)";

/// Longest output name, in bytes, that a grant can be restored by.
pub const MAX_OUTPUT_NAME_LEN: usize = 256;

/// What a client was granted.
#[derive(Debug, PartialEq, Eq)]
pub struct RemoteAuthorization {
    pub output_name: String,
    pub devices: BitFlags<DeviceType>,
    pub screen_share_enabled: bool,
    pub clipboard_enabled: bool,
    pub source_types: BitFlags<SourceType>,
    pub multiple: bool,
    pub persist_mode: PersistMode,
}

/// A grant as a mathematical value.
#[verifier::ext_equal]
pub struct AuthorizationView {
    pub output_name: Seq<char>,
    pub devices: Set<DeviceType>,
    pub screen_share_enabled: bool,
    pub clipboard_enabled: bool,
    pub source_types: Set<SourceType>,
    pub multiple: bool,
    pub persist_mode: PersistMode,
}

impl View for RemoteAuthorization {
    type V = AuthorizationView;

    open spec fn view(&self) -> AuthorizationView {
        AuthorizationView {
            output_name: self.output_name@,
            devices: self.devices@,
            screen_share_enabled: self.screen_share_enabled,
            clipboard_enabled: self.clipboard_enabled,
            source_types: self.source_types@,
            multiple: self.multiple,
            persist_mode: self.persist_mode,
        }
    }
}

impl Clone for RemoteAuthorization {
    fn clone(&self) -> (r: Self)
        ensures
            r == *self,
    {
        RemoteAuthorization {
            output_name: self.output_name.clone(),
            devices: self.devices,
            screen_share_enabled: self.screen_share_enabled,
            clipboard_enabled: self.clipboard_enabled,
            source_types: self.source_types,
            multiple: self.multiple,
            persist_mode: self.persist_mode,
        }
    }
}

impl AuthorizationView {
    /// Whether the grant points at an output that can be found again by its name alone.
    pub open spec fn has_restorable_target(self) -> bool {
        &&& self.output_name.len() > 0
        &&& encode_utf8(self.output_name).len() <= MAX_OUTPUT_NAME_LEN
        &&& self.screen_share_enabled ==> self.source_types.contains(SourceType::Monitor)
            && !self.multiple
    }

    /// Whether the grant covers a request: the same access, and no longer a persistence.
    pub open spec fn matches_request(
        self,
        devices: Set<DeviceType>,
        screen_share_enabled: bool,
        clipboard_enabled: bool,
        source_types: Set<SourceType>,
        multiple: bool,
        persist_mode: PersistMode,
    ) -> bool {
        &&& self.devices == devices
        &&& self.screen_share_enabled == screen_share_enabled
        &&& self.clipboard_enabled == clipboard_enabled
        &&& self.source_types == source_types
        &&& self.multiple == multiple
        &&& persist_mode.number() <= self.persist_mode.number()
    }
}

impl RemoteAuthorization {
    /// A grant of the given access.
    pub fn new(
        output_name: String,
        devices: BitFlags<DeviceType>,
        screen_share_enabled: bool,
        clipboard_enabled: bool,
        source_types: BitFlags<SourceType>,
        multiple: bool,
        persist_mode: PersistMode,
    ) -> (r: Self)
        ensures
            r == (RemoteAuthorization {
                output_name,
                devices,
                screen_share_enabled,
                clipboard_enabled,
                source_types,
                multiple,
                persist_mode,
            }),
    {
        RemoteAuthorization {
            output_name,
            devices,
            screen_share_enabled,
            clipboard_enabled,
            source_types,
            multiple,
            persist_mode,
        }
    }

    /// Whether the grant covers a request: the same access, and no longer a persistence.
    pub fn matches_request(
        &self,
        devices: BitFlags<DeviceType>,
        screen_share_enabled: bool,
        clipboard_enabled: bool,
        source_types: BitFlags<SourceType>,
        multiple: bool,
        persist_mode: PersistMode,
    ) -> (r: bool)
        ensures
            r == self@.matches_request(
                devices@,
                screen_share_enabled,
                clipboard_enabled,
                source_types@,
                multiple,
                persist_mode,
            ),
    {
        self.devices == devices && self.screen_share_enabled == screen_share_enabled
            && self.clipboard_enabled == clipboard_enabled && self.source_types == source_types
            && self.multiple == multiple && persist_mode.value() <= self.persist_mode.value()
    }

    /// Whether the grant points at an output that can be found again by its name alone.
    pub fn has_restorable_target(&self) -> (r: bool)
        ensures
            r == self@.has_restorable_target(),
    {
        !self.output_name.as_str().is_empty() && self.output_name.as_str().as_bytes().len()
            <= MAX_OUTPUT_NAME_LEN && (!self.screen_share_enabled || (self.source_types.contains(
            SourceType::Monitor,
        ) && !self.multiple))
    }
}

/// The mode that `value` stands for on the bus.
pub fn parse_persist_mode(value: u32) -> (r: Option<PersistMode>)
    ensures
        match r {
            Some(mode) => mode.number() == value,
            None => value > 2,
        },
{
    match value {
        0 => Some(PersistMode::DoNot),
        1 => Some(PersistMode::Application),
        2 => Some(PersistMode::ExplicitlyRevoked),
        _ => None,
    }
}

/// The payload of a token, field by field.
#[derive(Debug, PartialEq, Eq)]
pub struct RestorePayloadV1 {
    pub output_name: String,
    pub devices: u32,
    pub screen_share_enabled: bool,
    pub clipboard_enabled: bool,
    pub source_types: u32,
    pub multiple: bool,
    pub persist_mode: u32,
}

/// A payload as a mathematical value.
pub struct PayloadView {
    pub output_name: Seq<char>,
    pub devices: u32,
    pub screen_share_enabled: bool,
    pub clipboard_enabled: bool,
    pub source_types: u32,
    pub multiple: bool,
    pub persist_mode: u32,
}

impl View for RestorePayloadV1 {
    type V = PayloadView;

    open spec fn view(&self) -> PayloadView {
        PayloadView {
            output_name: self.output_name@,
            devices: self.devices,
            screen_share_enabled: self.screen_share_enabled,
            clipboard_enabled: self.clipboard_enabled,
            source_types: self.source_types,
            multiple: self.multiple,
            persist_mode: self.persist_mode,
        }
    }
}

/// The payload that the fields of a structure write: the first seven, each of its type. Further
/// fields are ignored.
pub open spec fn payload_in_fields(fields: Seq<Value<'static>>) -> Option<PayloadView> {
    if fields.len() >= 7 && held_text(fields[0]) is Some && held_number(fields[1]) is Some
        && held_flag(fields[2]) is Some && held_flag(fields[3]) is Some && held_number(fields[4])
        is Some && held_flag(fields[5]) is Some && held_number(fields[6]) is Some {
        Some(
            PayloadView {
                output_name: held_text(fields[0])->0,
                devices: held_number(fields[1])->0,
                screen_share_enabled: held_flag(fields[2])->0,
                clipboard_enabled: held_flag(fields[3])->0,
                source_types: held_number(fields[4])->0,
                multiple: held_flag(fields[5])->0,
                persist_mode: held_number(fields[6])->0,
            },
        )
    } else {
        None
    }
}

/// The payload that a D-Bus value writes; `None` where it writes none.
pub open spec fn payload_in(value: OwnedValue) -> Option<PayloadView> {
    match structure_fields(value) {
        Some(fields) => payload_in_fields(fields),
        None => None,
    }
}

impl RestorePayloadV1 {
    /// Reads the payload from the fields of a structure.
    pub fn from_fields(fields: Vec<Value<'static>>) -> (r: Option<Self>)
        ensures
            match r {
                Some(payload) => payload_in_fields(fields@) == Some(payload@),
                None => payload_in_fields(fields@) is None,
            },
    {
        let mut fields = fields;
        if fields.len() < 7 {
            return None;
        }
        let ghost held = fields@;
        let name = fields.remove(0);
        let devices = fields.remove(0);
        let screen_share_enabled = fields.remove(0);
        let clipboard_enabled = fields.remove(0);
        let source_types = fields.remove(0);
        let multiple = fields.remove(0);
        let persist_mode = fields.remove(0);
        assert(name == held[0] && devices == held[1] && screen_share_enabled == held[2]
            && clipboard_enabled == held[3] && source_types == held[4] && multiple == held[5]
            && persist_mode == held[6]);
        match (
            downcast_text(name),
            downcast_number(devices),
            downcast_flag(&screen_share_enabled),
            downcast_flag(&clipboard_enabled),
            downcast_number(source_types),
            downcast_flag(&multiple),
            downcast_number(persist_mode),
        ) {
            (
                Ok(output_name),
                Ok(devices),
                Ok(screen_share_enabled),
                Ok(clipboard_enabled),
                Ok(source_types),
                Ok(multiple),
                Ok(persist_mode),
            ) => Some(
                RestorePayloadV1 {
                    output_name,
                    devices,
                    screen_share_enabled,
                    clipboard_enabled,
                    source_types,
                    multiple,
                    persist_mode,
                },
            ),
            _ => None,
        }
    }

    /// Reads the payload from a D-Bus value.
    pub fn from_value(value: OwnedValue) -> (r: Option<Self>)
        ensures
            match r {
                Some(payload) => payload_in(value) == Some(payload@),
                None => payload_in(value) is None,
            },
    {
        match into_fields(value) {
            Ok(fields) => Self::from_fields(fields),
            Err(_) => None,
        }
    }

    /// Writes the payload as a D-Bus value.
    pub fn into_value(self) -> (r: Result<OwnedValue, PortalError>)
        ensures
            r is Ok,
            payload_in(r->Ok_0) == Some(self@),
            structure_fields(r->Ok_0) matches Some(fields) && fields.len() == 7,
            type_code(r->Ok_0) == RESTORE_PAYLOAD_SIGNATURE@,
    {
        match build_structure(
            (
                self.output_name,
                self.devices,
                self.screen_share_enabled,
                self.clipboard_enabled,
                self.source_types,
                self.multiple,
                self.persist_mode,
            ),
        ) {
            Ok(value) => Ok(value),
            Err(_) => Err(PortalError::CannotSerialize),
        }
    }
}

/// The grant that a payload describes; `None` where it names an unknown device, source or
/// persistence, or has no target to restore.
pub open spec fn authorization_in(payload: PayloadView) -> Option<AuthorizationView> {
    if known_bits::<DeviceType>(payload.devices) && known_bits::<SourceType>(payload.source_types)
        && payload.persist_mode <= 2 {
        let authorization = AuthorizationView {
            output_name: payload.output_name,
            devices: flags_in(payload.devices),
            screen_share_enabled: payload.screen_share_enabled,
            clipboard_enabled: payload.clipboard_enabled,
            source_types: flags_in(payload.source_types),
            multiple: payload.multiple,
            persist_mode: if payload.persist_mode == 0 {
                PersistMode::DoNot
            } else if payload.persist_mode == 1 {
                PersistMode::Application
            } else {
                PersistMode::ExplicitlyRevoked
            },
        };
        if authorization.has_restorable_target() {
            Some(authorization)
        } else {
            None
        }
    } else {
        None
    }
}

/// The grant that a payload describes.
pub fn authorization_from_payload(payload: RestorePayloadV1) -> (r: Option<RemoteAuthorization>)
    ensures
        match r {
            Some(authorization) => authorization_in(payload@) == Some(authorization@),
            None => authorization_in(payload@) is None,
        },
{
    match (
        BitFlags::<DeviceType>::from_bits(payload.devices),
        BitFlags::<SourceType>::from_bits(payload.source_types),
        parse_persist_mode(payload.persist_mode),
    ) {
        (Some(devices), Some(source_types), Some(persist_mode)) => {
            let authorization = RemoteAuthorization::new(
                payload.output_name,
                devices,
                payload.screen_share_enabled,
                payload.clipboard_enabled,
                source_types,
                payload.multiple,
                persist_mode,
            );
            if authorization.has_restorable_target() {
                Some(authorization)
            } else {
                None
            }
        },
        _ => None,
    }
}

/// The grant that a token restores; `None` for a token of another vendor or version, and for one
/// whose payload describes no grant that can be restored.
pub open spec fn restored(data: RestoreData) -> Option<AuthorizationView> {
    if data.0@ == RESTORE_DATA_VENDOR@ && data.1 == RESTORE_DATA_VERSION {
        match payload_in(data.2) {
            Some(payload) => authorization_in(payload),
            None => None,
        }
    } else {
        None
    }
}

/// Reads a token. One that cannot be used is ignored.
pub fn parse_restore_data(restore_data: RestoreData) -> (r: Option<RemoteAuthorization>)
    ensures
        match r {
            Some(authorization) => restored(restore_data) == Some(authorization@),
            None => restored(restore_data) is None,
        },
{
    let (vendor, version, payload) = restore_data;
    if !same_text(vendor.as_str(), RESTORE_DATA_VENDOR) || version != RESTORE_DATA_VERSION {
        return None;
    }
    match RestorePayloadV1::from_value(payload) {
        Some(payload) => authorization_from_payload(payload),
        None => None,
    }
}

/// Whether the payload writes down the grant, number for number.
pub open spec fn writes_down(payload: PayloadView, authorization: AuthorizationView) -> bool {
    &&& payload.output_name == authorization.output_name
    &&& known_bits::<DeviceType>(payload.devices)
    &&& flags_in::<DeviceType>(payload.devices) == authorization.devices
    &&& payload.screen_share_enabled == authorization.screen_share_enabled
    &&& payload.clipboard_enabled == authorization.clipboard_enabled
    &&& known_bits::<SourceType>(payload.source_types)
    &&& flags_in::<SourceType>(payload.source_types) == authorization.source_types
    &&& payload.multiple == authorization.multiple
    &&& payload.persist_mode == authorization.persist_mode.number()
}

/// Whether `data` is the token of a grant: its payload is a structure of just the seven fields that
/// write the grant down, each of its own type.
pub open spec fn is_token_of(data: RestoreData, authorization: AuthorizationView) -> bool {
    &&& data.0@ == RESTORE_DATA_VENDOR@
    &&& data.1 == RESTORE_DATA_VERSION
    &&& structure_fields(data.2) matches Some(fields) && fields.len() == 7
    &&& type_code(data.2) == RESTORE_PAYLOAD_SIGNATURE@
    &&& payload_in(data.2) matches Some(payload) && writes_down(payload, authorization)
}

/// The payload that writes a grant down.
pub fn payload_from_authorization(authorization: &RemoteAuthorization) -> (r: RestorePayloadV1)
    ensures
        writes_down(r@, authorization@),
{
    RestorePayloadV1 {
        output_name: authorization.output_name.clone(),
        devices: authorization.devices.bits(),
        screen_share_enabled: authorization.screen_share_enabled,
        clipboard_enabled: authorization.clipboard_enabled,
        source_types: authorization.source_types.bits(),
        multiple: authorization.multiple,
        persist_mode: authorization.persist_mode.value(),
    }
}

/// Writes the token of a grant.
pub fn build_restore_data(authorization: &RemoteAuthorization) -> (r: Result<
    RestoreData,
    PortalError,
>)
    ensures
        r is Ok,
        is_token_of(r->Ok_0, authorization@),
{
    match payload_from_authorization(authorization).into_value() {
        Ok(payload) => Ok((RESTORE_DATA_VENDOR.to_owned(), RESTORE_DATA_VERSION, payload)),
        Err(error) => Err(error),
    }
}

/// The D-Bus type of the payload of a token.
pub fn payload_signature(data: &RestoreData) -> (r: String)
    ensures
        r@ == type_code(data.2),
{
    value_signature(&data.2)
}

/// Reading the token of a grant gives that grant back, or nothing where the grant has no target
/// to restore.
pub proof fn token_restores_its_grant(data: RestoreData, authorization: AuthorizationView)
    requires
        is_token_of(data, authorization),
    ensures
        restored(data) == (if authorization.has_restorable_target() {
            Some(authorization)
        } else {
            None
        }),
{
    let payload = payload_in(data.2)->0;
    assert(authorization_in(payload) is Some ==> authorization_in(payload)->0 =~= authorization);
}

/// Whatever a token restores has a target that can be found again.
pub proof fn restored_grants_have_a_target(data: RestoreData)
    ensures
        restored(data) matches Some(authorization) ==> authorization.has_restorable_target(),
{
}

/// A token determines its grant: it is the token of no other grant.
pub proof fn token_determines_its_grant(
    data: RestoreData,
    first: AuthorizationView,
    second: AuthorizationView,
)
    requires
        is_token_of(data, first),
        is_token_of(data, second),
    ensures
        first == second,
{
    assert(first =~= second);
}

/// A grant determines the payload of its token.
pub proof fn grant_determines_its_payload(
    first: PayloadView,
    second: PayloadView,
    authorization: AuthorizationView,
)
    requires
        writes_down(first, authorization),
        writes_down(second, authorization),
    ensures
        first == second,
{
    word_and_set_determine_each_other::<DeviceType>(first.devices, second.devices);
    word_and_set_determine_each_other::<SourceType>(first.source_types, second.source_types);
}

/// A grant that covers a request covers the same request with a less lasting persistence.
pub proof fn grants_cover_weaker_requests(
    authorization: AuthorizationView,
    devices: Set<DeviceType>,
    screen_share_enabled: bool,
    clipboard_enabled: bool,
    source_types: Set<SourceType>,
    multiple: bool,
    asked: PersistMode,
    weaker: PersistMode,
)
    requires
        authorization.matches_request(
            devices,
            screen_share_enabled,
            clipboard_enabled,
            source_types,
            multiple,
            asked,
        ),
        weaker.number() <= asked.number(),
    ensures
        authorization.matches_request(
            devices,
            screen_share_enabled,
            clipboard_enabled,
            source_types,
            multiple,
            weaker,
        ),
{
}

} // verus!
