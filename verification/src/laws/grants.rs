//! Grants: what a client gets when it starts a session, and how a token brings it back.

use crate::backend::RemoteDesktopBackend;
use crate::error::PortalError;
use crate::flags::flags_in;
use crate::flags::known_bits;
use crate::flags::BitFlags;
use crate::input::InputRequest;
use crate::laws::input::suffice_for;
use crate::laws::sessions::first_remote;
use crate::laws::sessions::first_session;
use crate::laws::sessions::lemma_first_remote;
use crate::laws::sessions::lemma_first_session;
use crate::laws::sessions::no_remote;
use crate::laws::sessions::no_session;
use crate::laws::words::device_word;
use crate::laws::words::lemma_device_word;
use crate::laws::words::lemma_source_word;
use crate::laws::words::source_word;
use crate::monitor::RemoteInfo;
use crate::path::HandlePath;
use crate::remotedesktop::notify_input_event;
use crate::remotedesktop::CastThread;
use crate::remotedesktop::Delivery;
use crate::remotedesktop::Desktop;
use crate::remotedesktop::RemoteSessionData;
use crate::remotedesktop::Stream;
use crate::remotedesktop::ZoneIds;
use crate::restore::authorization_from_payload;
use crate::restore::build_restore_data;
use crate::restore::parse_restore_data;
use crate::restore::payload_from_authorization;
use crate::restore::payload_in;
use crate::restore::payload_signature;
use crate::restore::token_restores_its_grant;
use crate::restore::RemoteAuthorization;
use crate::restore::RestoreData;
use crate::restore::RestorePayloadV1;
use crate::session::DeviceType;
use crate::session::PersistMode;
use crate::session::Session;
use crate::session::SourceType;
use crate::start::begin_start;
use crate::start::build_remote_start_value;
use crate::start::finish_start;
use crate::start::plan_start;
use crate::start::remote_start_response;
use crate::start::restored_output_name;
use crate::start::resume_start;
use crate::start::RemoteStartReturnValue;
use crate::start::RunningStart;
use crate::start::StartPlan;
use crate::start::StartReply;
use crate::start::StartStep;
use crate::variant::held_flag;
use crate::variant::held_number;
use crate::variant::held_text;
use crate::variant::structure_fields;
use crate::variant::type_code;
use vstd::prelude::*;
use vstd::utf8::encode_utf8;

verus! {

/// Whether one mode lasts at least as long as another.
pub open spec fn lasts_at_least(mode: PersistMode, other: PersistMode) -> bool {
    other is DoNot || mode is ExplicitlyRevoked || (mode is Application && other is Application)
}

/// Whether an output can be found again: by a name that is not empty and not longer than 256 bytes,
/// and where the screen is shared, as the one monitor that is shared.
pub open spec fn can_be_found_again(
    output_name: Seq<char>,
    screen_share_enabled: bool,
    source_types: Set<SourceType>,
    multiple: bool,
) -> bool {
    &&& output_name.len() > 0
    &&& encode_utf8(output_name).len() <= 256
    &&& screen_share_enabled ==> source_types.contains(SourceType::Monitor) && !multiple
}

/// Whether two grants are the same access.
pub open spec fn same_grant(a: RemoteAuthorization, b: RemoteAuthorization) -> bool {
    &&& a.output_name@ == b.output_name@
    &&& a.devices@ == b.devices@
    &&& a.screen_share_enabled == b.screen_share_enabled
    &&& a.clipboard_enabled == b.clipboard_enabled
    &&& a.source_types@ == b.source_types@
    &&& a.multiple == b.multiple
    &&& a.persist_mode == b.persist_mode
}

/// A grant is made of what it is given.
pub proof fn grants_are_made_of_their_parts(
    output_name: String,
    devices: BitFlags<DeviceType>,
    screen_share_enabled: bool,
    clipboard_enabled: bool,
    source_types: BitFlags<SourceType>,
    multiple: bool,
    persist_mode: PersistMode,
    r: RemoteAuthorization,
)
    requires
        call_ensures(
            RemoteAuthorization::new,
            (
                output_name,
                devices,
                screen_share_enabled,
                clipboard_enabled,
                source_types,
                multiple,
                persist_mode,
            ),
            r,
        ),
    ensures
        r.output_name@ == output_name@,
        r.devices@ == devices@,
        r.screen_share_enabled == screen_share_enabled,
        r.clipboard_enabled == clipboard_enabled,
        r.source_types@ == source_types@,
        r.multiple == multiple,
        r.persist_mode == persist_mode,
{
}

/// A grant covers a request just where all access is the same and the request does not last
/// longer.
pub proof fn grants_cover_the_same_access(
    grant: &RemoteAuthorization,
    devices: BitFlags<DeviceType>,
    screen_share_enabled: bool,
    clipboard_enabled: bool,
    source_types: BitFlags<SourceType>,
    multiple: bool,
    persist_mode: PersistMode,
    r: bool,
)
    requires
        call_ensures(
            RemoteAuthorization::matches_request,
            (
                grant,
                devices,
                screen_share_enabled,
                clipboard_enabled,
                source_types,
                multiple,
                persist_mode,
            ),
            r,
        ),
    ensures
        r <==> {
            &&& grant.devices@ == devices@
            &&& grant.screen_share_enabled == screen_share_enabled
            &&& grant.clipboard_enabled == clipboard_enabled
            &&& grant.source_types@ == source_types@
            &&& grant.multiple == multiple
            &&& lasts_at_least(grant.persist_mode, persist_mode)
        },
{
}

/// A grant can be restored just where its output can be found again.
pub proof fn restorable_outputs_can_be_found_again(grant: &RemoteAuthorization, r: bool)
    requires
        call_ensures(RemoteAuthorization::has_restorable_target, (grant,), r),
    ensures
        r <==> can_be_found_again(
            grant.output_name@,
            grant.screen_share_enabled,
            grant.source_types@,
            grant.multiple,
        ),
{
}

/// Whether a payload writes a grant down: a structure of text, number, two flags, number, flag and
/// number.
pub open spec fn payload_writes(
    fields: Seq<zbus::zvariant::Value<'static>>,
    grant: RemoteAuthorization,
) -> bool {
    &&& held_text(fields[0]) == Some(grant.output_name@)
    &&& held_number(fields[1]) matches Some(word) && word == device_word(grant.devices@)
    &&& held_flag(fields[2]) == Some(grant.screen_share_enabled)
    &&& held_flag(fields[3]) == Some(grant.clipboard_enabled)
    &&& held_number(fields[4]) matches Some(word) && word == source_word(grant.source_types@)
    &&& held_flag(fields[5]) == Some(grant.multiple)
    &&& held_number(fields[6]) matches Some(word) && {
        &&& word == 0 <==> grant.persist_mode is DoNot
        &&& word == 1 <==> grant.persist_mode is Application
        &&& word == 2 <==> grant.persist_mode is ExplicitlyRevoked
    }
}

/// A token names its vendor and version, and its payload writes the grant down, field by field.
pub proof fn tokens_write_their_grant_down(
    grant: &RemoteAuthorization,
    r: Result<RestoreData, PortalError>,
    signature: String,
)
    requires
        call_ensures(build_restore_data, (grant,), r),
        r matches Ok(data) ==> call_ensures(payload_signature, (&data,), signature),
    ensures
        r matches Ok(data) && {
            &&& data.0@ == "Luminous"@
            &&& data.1 == 1
            &&& signature@ == "(subbubu)"@
            &&& structure_fields(data.2) matches Some(fields) && fields.len() == 7
                && payload_writes(fields, *grant)
        },
{
    let data = r->Ok_0;
    let payload = payload_in(data.2)->0;
    lemma_device_word(payload.devices, grant.devices@);
    lemma_source_word(payload.source_types, grant.source_types@);
}

/// Whether a token can be used: it is of this vendor and version, its payload has the seven fields,
/// names known devices, sources and a known mode, and an output that can be found again.
pub open spec fn token_can_be_used(data: RestoreData) -> bool {
    &&& data.0@ == "Luminous"@
    &&& data.1 == 1
    &&& structure_fields(data.2) matches Some(fields) && {
        &&& fields.len() >= 7
        &&& held_text(fields[0]) is Some
        &&& held_number(fields[1]) matches Some(word) && word < 8
        &&& held_flag(fields[2]) is Some
        &&& held_flag(fields[3]) is Some
        &&& held_number(fields[4]) matches Some(word) && word < 8
        &&& held_flag(fields[5]) is Some
        &&& held_number(fields[6]) matches Some(word) && word < 3
        &&& held_text(fields[0])->0.len() > 0
        &&& encode_utf8(held_text(fields[0])->0).len() <= 256
        &&& held_flag(fields[2])->0 ==> held_number(fields[4])->0 % 2 == 1 && !held_flag(
            fields[5],
        )->0
    }
}

/// A token gives a grant just where it can be used, and then the one that its payload writes down.
pub proof fn tokens_give_what_they_write_down(
    data: RestoreData,
    r: Option<RemoteAuthorization>,
)
    requires
        call_ensures(parse_restore_data, (data,), r),
    ensures
        r is Some <==> token_can_be_used(data),
        r matches Some(grant) ==> payload_writes(structure_fields(data.2)->0, grant),
{
    if let Some(fields) = structure_fields(data.2) {
        if fields.len() >= 7 {
            if let Some(devices) = held_number(fields[1]) {
                assert((devices & !7u32 == 0) == (devices < 8)) by (bit_vector);
                if known_bits::<DeviceType>(devices) {
                    lemma_device_word(devices, flags_in(devices));
                }
            }
            if let Some(sources) = held_number(fields[4]) {
                assert((sources & !7u32 == 0) == (sources < 8)) by (bit_vector);
                assert((sources & 1 != 0) == (sources % 2 == 1)) by (bit_vector);
                assert(flags_in::<SourceType>(sources).contains(SourceType::Monitor) == (sources & 1
                    != 0));
                if known_bits::<SourceType>(sources) {
                    lemma_source_word(sources, flags_in(sources));
                }
            }
        }
    }
}

/// Reading back the token of a grant gives the same grant, or nothing where its output could not
/// be found again.
pub proof fn tokens_bring_their_grant_back(
    grant: &RemoteAuthorization,
    written: Result<RestoreData, PortalError>,
    read: Option<RemoteAuthorization>,
)
    requires
        call_ensures(build_restore_data, (grant,), written),
        call_ensures(parse_restore_data, (written->Ok_0,), read),
    ensures
        written is Ok,
        read is Some <==> can_be_found_again(
            grant.output_name@,
            grant.screen_share_enabled,
            grant.source_types@,
            grant.multiple,
        ),
        read matches Some(again) ==> same_grant(again, *grant),
{
    token_restores_its_grant(written->Ok_0, grant@);
}

/// A payload is read from the first seven fields, one for one.
pub proof fn payloads_are_read_field_by_field(
    fields: Vec<zbus::zvariant::Value<'static>>,
    r: Option<RestorePayloadV1>,
)
    requires
        call_ensures(RestorePayloadV1::from_fields, (fields,), r),
    ensures
        r is Some <==> fields@.len() >= 7 && held_text(fields@[0]) is Some && held_number(
            fields@[1],
        ) is Some && held_flag(fields@[2]) is Some && held_flag(fields@[3]) is Some
            && held_number(fields@[4]) is Some && held_flag(fields@[5]) is Some && held_number(
            fields@[6],
        ) is Some,
        r matches Some(payload) ==> {
            &&& held_text(fields@[0]) == Some(payload.output_name@)
            &&& held_number(fields@[1]) == Some(payload.devices)
            &&& held_flag(fields@[2]) == Some(payload.screen_share_enabled)
            &&& held_flag(fields@[3]) == Some(payload.clipboard_enabled)
            &&& held_number(fields@[4]) == Some(payload.source_types)
            &&& held_flag(fields@[5]) == Some(payload.multiple)
            &&& held_number(fields@[6]) == Some(payload.persist_mode)
        },
{
}

/// A payload has the numbers of what is granted.
pub proof fn payloads_number_the_grant(grant: &RemoteAuthorization, r: RestorePayloadV1)
    requires
        call_ensures(payload_from_authorization, (grant,), r),
    ensures
        r.output_name@ == grant.output_name@,
        r.devices == device_word(grant.devices@),
        r.screen_share_enabled == grant.screen_share_enabled,
        r.clipboard_enabled == grant.clipboard_enabled,
        r.source_types == source_word(grant.source_types@),
        r.multiple == grant.multiple,
        r.persist_mode == 0 <==> grant.persist_mode is DoNot,
        r.persist_mode == 1 <==> grant.persist_mode is Application,
        r.persist_mode == 2 <==> grant.persist_mode is ExplicitlyRevoked,
{
    lemma_device_word(r.devices, grant.devices@);
    lemma_source_word(r.source_types, grant.source_types@);
}

/// A payload gives a grant just where it has known numbers only and an output that can be found
/// again; the grant has the same numbers.
pub proof fn payloads_give_what_they_number(
    payload: RestorePayloadV1,
    r: Option<RemoteAuthorization>,
)
    requires
        call_ensures(authorization_from_payload, (payload,), r),
    ensures
        r is Some <==> {
            &&& payload.devices < 8
            &&& payload.source_types < 8
            &&& payload.persist_mode < 3
            &&& payload.output_name@.len() > 0
            &&& encode_utf8(payload.output_name@).len() <= 256
            &&& payload.screen_share_enabled ==> payload.source_types % 2 == 1 && !payload.multiple
        },
        r matches Some(grant) ==> {
            &&& grant.output_name@ == payload.output_name@
            &&& device_word(grant.devices@) == payload.devices
            &&& grant.screen_share_enabled == payload.screen_share_enabled
            &&& grant.clipboard_enabled == payload.clipboard_enabled
            &&& source_word(grant.source_types@) == payload.source_types
            &&& grant.multiple == payload.multiple
            &&& payload.persist_mode == 0 <==> grant.persist_mode is DoNot
            &&& payload.persist_mode == 1 <==> grant.persist_mode is Application
            &&& payload.persist_mode == 2 <==> grant.persist_mode is ExplicitlyRevoked
        },
{
    let devices = payload.devices;
    let sources = payload.source_types;
    assert((devices & !7u32 == 0) == (devices < 8)) by (bit_vector);
    assert((sources & !7u32 == 0) == (sources < 8)) by (bit_vector);
    assert((sources & 1 != 0) == (sources % 2 == 1)) by (bit_vector);
    assert(flags_in::<SourceType>(sources).contains(SourceType::Monitor) == (sources & 1 != 0));
    if known_bits::<DeviceType>(devices) {
        lemma_device_word(devices, flags_in(devices));
    }
    if known_bits::<SourceType>(sources) {
        lemma_source_word(sources, flags_in(sources));
    }
}

/// A payload that is written as a value is read back as it was.
pub proof fn payloads_are_read_as_they_were_written(
    payload: RestorePayloadV1,
    written: Result<zbus::zvariant::OwnedValue, PortalError>,
    read: Option<RestorePayloadV1>,
)
    requires
        call_ensures(RestorePayloadV1::into_value, (payload,), written),
        call_ensures(RestorePayloadV1::from_value, (written->Ok_0,), read),
    ensures
        written is Ok,
        read matches Some(again) && {
            &&& again.output_name@ == payload.output_name@
            &&& again.devices == payload.devices
            &&& again.screen_share_enabled == payload.screen_share_enabled
            &&& again.clipboard_enabled == payload.clipboard_enabled
            &&& again.source_types == payload.source_types
            &&& again.multiple == payload.multiple
            &&& again.persist_mode == payload.persist_mode
        },
{
}

/// An output is restored without asking just where the client presents a grant of the very access
/// that it selects now, which lasts at least as long; and it is the output of that grant.
pub proof fn outputs_are_restored_for_the_same_access(session: &Session, r: Option<String>)
    requires
        call_ensures(restored_output_name, (session,), r),
    ensures
        r is Some <==> (session.remote_restore matches Some(grant) && {
            &&& grant.devices@ == session.device_type@
            &&& grant.screen_share_enabled == session.screen_share_enabled
            &&& grant.clipboard_enabled == session.clipboard_requested
            &&& grant.source_types@ == session.source_type@
            &&& grant.multiple == session.multiple
            &&& lasts_at_least(grant.persist_mode, session.persist_mode)
        }),
        r matches Some(name) ==> name@ == session.remote_restore->0.output_name@,
{
}

/// How a start begins: refused where the handle names no remote-desktop session, as a repetition
/// where that session already runs, and afresh otherwise.
pub proof fn starts_begin_by_session<P: Desktop>(
    backend: &RemoteDesktopBackend,
    sessions: &Vec<Session>,
    remotes: &Vec<RemoteSessionData<P>>,
    session_handle: &HandlePath,
    r: StartStep,
    index: int,
    running: int,
)
    requires
        call_ensures(
            RemoteDesktopBackend::start::<P>,
            (backend, sessions, remotes, session_handle),
            r,
        ) || call_ensures(begin_start::<P>, (sessions, remotes, session_handle), r),
    ensures
        no_session(sessions@, session_handle@) ==> r is Refused,
        first_session(sessions@, session_handle@, index) && !(
        sessions@[index].session_type is Remote) ==> r is Refused,
        first_session(sessions@, session_handle@, index) && sessions@[index].session_type is Remote
            && first_remote(remotes@, session_handle@, running) ==> (r matches StartStep::Running(
            start,
        ) && {
            let remote = remotes@[running];
            &&& start.session_handle@ == session_handle@
            &&& same_grant(start.authorization, remote.authorization)
            &&& start.persist_mode == remote.persist_mode
            &&& start.streams@.len() == 1 <==> remote.cast_thread is Some
            &&& start.streams@.len() == 0 <==> remote.cast_thread is None
            &&& remote.cast_thread matches Some(cast) ==> {
                &&& start.streams@[0].0 == cast.node_id
                &&& start.streams@[0].1.id is None
                &&& start.streams@[0].1.position is None
                &&& start.streams@[0].1.size == (0i32, 0i32)
                &&& start.streams@[0].1.source_type is Monitor
            }
        }),
        first_session(sessions@, session_handle@, index) && sessions@[index].session_type is Remote
            && no_remote(remotes@, session_handle@) ==> (r matches StartStep::Fresh(start) && {
            let session = sessions@[index];
            &&& start.session == session
            &&& start.restored_output_name is Some <==> (session.remote_restore matches Some(grant)
                && {
                &&& grant.devices@ == session.device_type@
                &&& grant.screen_share_enabled == session.screen_share_enabled
                &&& grant.clipboard_enabled == session.clipboard_requested
                &&& grant.source_types@ == session.source_type@
                &&& grant.multiple == session.multiple
                &&& lasts_at_least(grant.persist_mode, session.persist_mode)
            })
            &&& start.restored_output_name matches Some(name) ==> name@
                == session.remote_restore->0.output_name@
        }),
{
    lemma_first_session(sessions@, session_handle@);
    lemma_first_remote(remotes@, session_handle@);
}

/// A number as an unsigned one: a negative one counts from 2^32 down.
pub open spec fn unsigned(number: i32) -> int {
    if number >= 0 {
        number as int
    } else {
        number + 0x1_0000_0000
    }
}

proof fn lemma_unsigned(number: i32)
    ensures
        number as u32 == unsigned(number),
{
    assert(number < 0 ==> (number as u32) == number + 0x1_0000_0000) by (bit_vector);
}

/// A client is granted what it selected, whatever that is and however long it lasts, on the output
/// that was chosen. Only how long the grant persists may differ: it does not persist where the
/// output could not be found again.
pub proof fn clients_are_granted_what_they_selected<W>(
    session: &Session,
    info: &RemoteInfo<W>,
    plan: StartPlan,
)
    requires
        call_ensures(plan_start::<W>, (session, info), plan),
    ensures
        plan.session_handle@ == session.handle_path@,
        plan.authorization.output_name@ == info.output_name@,
        plan.authorization.devices@ == session.device_type@,
        plan.authorization.screen_share_enabled == session.screen_share_enabled,
        plan.authorization.clipboard_enabled == session.clipboard_requested,
        plan.authorization.source_types@ == session.source_type@,
        plan.authorization.multiple == session.multiple,
        plan.persist_mode == plan.authorization.persist_mode,
        can_be_found_again(
            info.output_name@,
            session.screen_share_enabled,
            session.source_type@,
            session.multiple,
        ) ==> plan.persist_mode == session.persist_mode,
        !can_be_found_again(
            info.output_name@,
            session.screen_share_enabled,
            session.source_type@,
            session.multiple,
        ) ==> plan.persist_mode is DoNot,
{
}

/// The screen is recorded just where it is shared, with its cursor unless that is hidden. Input is
/// performed on the whole desktop from the chosen output on, and the zone is the same area.
pub proof fn plans_cover_the_chosen_output<W>(
    session: &Session,
    info: &RemoteInfo<W>,
    plan: StartPlan,
)
    requires
        call_ensures(plan_start::<W>, (session, info), plan),
    ensures
        plan.show_cursor is Some <==> session.screen_share_enabled,
        plan.show_cursor matches Some(shown) ==> (shown <==> !(session.cursor_mode is Hidden)),
        plan.size.0 == info.width && plan.size.1 == info.height,
        plan.area.x == unsigned(info.x) && plan.area.y == unsigned(info.y),
        plan.area.width == unsigned(info.width) && plan.area.height == unsigned(info.height),
        plan.zone.x_offset == info.x && plan.zone.y_offset == info.y,
        plan.zone.width == unsigned(info.width) && plan.zone.height == unsigned(info.height),
{
    lemma_unsigned(info.x);
    lemma_unsigned(info.y);
    lemma_unsigned(info.width);
    lemma_unsigned(info.height);
}

/// Whether a client is told what it was granted: its devices, whether it shares the screen and has
/// the clipboard, its streams, and a token just where the grant persists.
pub open spec fn is_told(
    value: RemoteStartReturnValue,
    streams: Seq<Stream>,
    grant: RemoteAuthorization,
    persist_mode: PersistMode,
    clipboard_enabled: bool,
) -> bool {
    &&& value.streams@ == streams
    &&& value.devices@ == grant.devices@
    &&& value.screen_share_enabled == grant.screen_share_enabled
    &&& value.clipboard_enabled == clipboard_enabled
    &&& value.restore_data is Some <==> !(persist_mode is DoNot)
    &&& value.restore_data matches Some(data) ==> {
        &&& data.0@ == "Luminous"@
        &&& data.1 == 1
        &&& type_code(data.2) == "(subbubu)"@
        &&& structure_fields(data.2) matches Some(fields) && fields.len() == 7 && payload_writes(
            fields,
            grant,
        )
    }
}

proof fn lemma_is_told(
    value: RemoteStartReturnValue,
    streams: Seq<Stream>,
    grant: RemoteAuthorization,
    persist_mode: PersistMode,
    clipboard_enabled: bool,
)
    requires
        crate::start::tells_of(value, streams, grant@, persist_mode, clipboard_enabled),
    ensures
        is_told(value, streams, grant, persist_mode, clipboard_enabled),
{
    if let Some(data) = value.restore_data {
        let payload = payload_in(data.2)->0;
        lemma_device_word(payload.devices, grant.devices@);
        lemma_source_word(payload.source_types, grant.source_types@);
    }
}

/// A client is told what it was granted.
pub proof fn clients_are_told_what_they_were_granted(
    streams: Vec<Stream>,
    grant: &RemoteAuthorization,
    persist_mode: PersistMode,
    clipboard_enabled: bool,
    r: Result<RemoteStartReturnValue, PortalError>,
)
    requires
        call_ensures(
            build_remote_start_value,
            (streams, grant, persist_mode, clipboard_enabled),
            r,
        ),
    ensures
        r matches Ok(value) && is_told(value, streams@, *grant, persist_mode, clipboard_enabled),
{
    lemma_is_told(r->Ok_0, streams@, *grant, persist_mode, clipboard_enabled);
}

/// The clipboard is forwarded for the session just where the client is told that it has it.
pub proof fn clipboards_are_forwarded_as_told(
    session_handle: &HandlePath,
    value: RemoteStartReturnValue,
    r: StartReply,
)
    requires
        call_ensures(remote_start_response, (session_handle, value), r),
    ensures
        r.value == value,
        r.forward_clipboard is Some <==> value.clipboard_enabled,
        r.forward_clipboard matches Some(handle) ==> handle@ == session_handle@,
{
}

/// Starting a running session again tells the client of it again. It has the clipboard where that
/// was granted and could be had.
pub proof fn running_sessions_are_told_again(
    start: RunningStart,
    clipboard_ready: bool,
    r: Result<StartReply, PortalError>,
)
    requires
        call_ensures(resume_start, (start, clipboard_ready), r),
    ensures
        r matches Ok(reply) && {
            let clipboard = start.authorization.clipboard_enabled && clipboard_ready;
            &&& is_told(
                reply.value,
                start.streams@,
                start.authorization,
                start.persist_mode,
                clipboard,
            )
            &&& reply.forward_clipboard is Some <==> clipboard
            &&& reply.forward_clipboard matches Some(handle) ==> handle@ == start.session_handle@
        },
{
    lemma_is_told(
        r->Ok_0.value,
        start.streams@,
        start.authorization,
        start.persist_mode,
        start.authorization.clipboard_enabled && clipboard_ready,
    );
}

/// A start ends with a record of the session behind the others, of what was planned and started,
/// and with an answer that tells of it: one stream of the cast in the planned size where the screen
/// is recorded, none otherwise.
pub proof fn starts_end_with_a_record_and_an_answer<P: Desktop>(
    remotes: &mut Vec<RemoteSessionData<P>>,
    ids: &mut ZoneIds,
    plan: StartPlan,
    cast_thread: Option<CastThread<P::Cast>>,
    remote_control: P::Control,
    clipboard_ready: bool,
    r: Result<StartReply, PortalError>,
)
    requires
        cast_thread is Some <==> plan.authorization.screen_share_enabled,
        call_ensures(
            finish_start::<P>,
            (remotes, ids, plan, cast_thread, remote_control, clipboard_ready),
            r,
        ),
    ensures
        r matches Ok(reply) && {
            let clipboard = plan.authorization.clipboard_enabled && clipboard_ready;
            &&& is_told(
                reply.value,
                reply.value.streams@,
                plan.authorization,
                plan.persist_mode,
                clipboard,
            )
            &&& reply.forward_clipboard is Some <==> clipboard
            &&& reply.forward_clipboard matches Some(handle) ==> handle@ == plan.session_handle@
            &&& cast_thread is None ==> reply.value.streams@.len() == 0
            &&& cast_thread matches Some(cast) ==> {
                &&& reply.value.streams@.len() == 1
                &&& reply.value.streams@[0].0 == cast.node_id
                &&& reply.value.streams@[0].1.id is None
                &&& reply.value.streams@[0].1.position is None
                &&& reply.value.streams@[0].1.size == plan.size
                &&& reply.value.streams@[0].1.source_type is Monitor
            }
        },
        final(remotes)@.len() == old(remotes)@.len() + 1,
        forall|i: int|
            0 <= i < old(remotes)@.len() ==> #[trigger] final(remotes)@[i] == old(remotes)@[i],
        ({
            let started = final(remotes)@[old(remotes)@.len() as int];
            &&& started.session_handle@ == plan.session_handle@
            &&& same_grant(started.authorization, plan.authorization)
            &&& started.persist_mode == plan.persist_mode
            &&& started.cast_thread == cast_thread
            &&& started.remote_control == remote_control
            &&& started.zones@.len() == 1
            &&& started.zones@[0] == plan.zone
            &&& started.barriers@.len() == 0
            &&& started.activation_id == 0
            &&& started.zone_id.number() == old(ids).upcoming()
        }),
        old(ids).upcoming() < u32::MAX ==> final(ids).upcoming() == old(ids).upcoming() + 1,
{
    let clipboard = plan.authorization.clipboard_enabled && clipboard_ready;
    lemma_is_told(
        r->Ok_0.value,
        r->Ok_0.value.streams@,
        plan.authorization,
        plan.persist_mode,
        clipboard,
    );
    assert forall|i: int| 0 <= i < old(remotes)@.len() implies #[trigger] final(remotes)@[i]
        == old(remotes)@[i] by {
        assert(final(remotes)@.drop_last()[i] == old(remotes)@[i]);
    }
}

/// A client that has started a session can use every device that it selected, and no other: its
/// input is delivered to the session just started, or refused.
pub proof fn started_clients_use_what_they_selected<
    P: Desktop,
    F: Fn(P::Coord, P::Coord) -> P::Coord,
    W,
>(
    session: &Session,
    info: &RemoteInfo<W>,
    plan: StartPlan,
    remotes: &mut Vec<RemoteSessionData<P>>,
    ids: &mut ZoneIds,
    cast_thread: Option<CastThread<P::Cast>>,
    remote_control: P::Control,
    clipboard_ready: bool,
    told: Result<StartReply, PortalError>,
    later: &mut Vec<RemoteSessionData<P>>,
    session_handle: &HandlePath,
    event: InputRequest<P::Coord>,
    plus: &F,
    r: Result<Option<Delivery<P::Coord>>, PortalError>,
)
    requires
        call_ensures(plan_start::<W>, (session, info), plan),
        cast_thread is Some <==> plan.authorization.screen_share_enabled,
        call_ensures(
            finish_start::<P>,
            (remotes, ids, plan, cast_thread, remote_control, clipboard_ready),
            told,
        ),
        no_remote(old(remotes)@, session.handle_path@),
        old(later)@ == final(remotes)@,
        session_handle@ == session.handle_path@,
        call_ensures(
            notify_input_event::<P, F>,
            (later, session_handle, event, plus),
            r,
        ),
    ensures
        told matches Ok(reply) && reply.value.devices@ == session.device_type@,
        suffice_for(session.device_type@, event) ==> (r matches Ok(Some(delivery)) && delivery.index
            == old(remotes)@.len() && delivery.request == event),
        !suffice_for(session.device_type@, event) ==> (r matches Err(error)
            && error is InputNotAuthorized),
{
    starts_end_with_a_record_and_an_answer::<P>(
        remotes,
        ids,
        plan,
        cast_thread,
        remote_control,
        clipboard_ready,
        told,
    );
    let all = final(remotes)@;
    let last = old(remotes)@.len() as int;
    assert forall|i: int| 0 <= i < last implies (#[trigger] all[i]).session_handle@
        != session.handle_path@ by {
        assert(all[i] == old(remotes)@[i]);
    }
    assert(first_remote(all, session_handle@, last));
    crate::laws::input::input_reaches_its_session(later, session_handle, event, plus, r);
}

/// The token that a client is given at a start brings the same access back: reading it gives a
/// grant of what the client selected, on the output that was chosen.
pub proof fn given_tokens_bring_the_selection_back<P: Desktop, W>(
    session: &Session,
    info: &RemoteInfo<W>,
    plan: StartPlan,
    remotes: &mut Vec<RemoteSessionData<P>>,
    ids: &mut ZoneIds,
    cast_thread: Option<CastThread<P::Cast>>,
    remote_control: P::Control,
    clipboard_ready: bool,
    told: Result<StartReply, PortalError>,
    data: RestoreData,
    read: Option<RemoteAuthorization>,
)
    requires
        call_ensures(plan_start::<W>, (session, info), plan),
        cast_thread is Some <==> plan.authorization.screen_share_enabled,
        call_ensures(
            finish_start::<P>,
            (remotes, ids, plan, cast_thread, remote_control, clipboard_ready),
            told,
        ),
        told matches Ok(reply) && reply.value.restore_data == Some(data),
        call_ensures(parse_restore_data, (data,), read),
    ensures
        read matches Some(grant) && {
            &&& grant.output_name@ == info.output_name@
            &&& grant.devices@ == session.device_type@
            &&& grant.screen_share_enabled == session.screen_share_enabled
            &&& grant.clipboard_enabled == session.clipboard_requested
            &&& grant.source_types@ == session.source_type@
            &&& grant.multiple == session.multiple
            &&& grant.persist_mode == session.persist_mode
        },
{
    token_restores_its_grant(data, plan.authorization@);
}

} // verus!
