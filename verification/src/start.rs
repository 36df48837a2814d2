//! Starting a session, step by step: what is decided between the questions to the user, the
//! threads that are started, and the clipboard.

use crate::error::PortalError;
use crate::flags::BitFlags;
use crate::input::InputRequest;
use crate::monitor::decides;
use crate::monitor::is_only_place;
use crate::monitor::output_names;
use crate::monitor::MonitorStep;
use crate::monitor::OutputInfo;
use crate::monitor::Picked;
use crate::monitor::RemoteInfo;
use crate::monitor::Size;
use crate::path::HandlePath;
use crate::remotedesktop::append_remote_session;
use crate::remotedesktop::input_changes;
use crate::remotedesktop::remote_handles;
use crate::remotedesktop::remote_position;
use crate::remotedesktop::remote_removed;
use crate::remotedesktop::zone_id_count;
use crate::remotedesktop::CastThread;
use crate::remotedesktop::Desktop;
use crate::remotedesktop::RemoteSessionData;
use crate::remotedesktop::Stream;
use crate::remotedesktop::StreamProperties;
use crate::remotedesktop::Zone;
use crate::remotedesktop::ZoneIds;
use crate::restore::build_restore_data;
use crate::restore::is_token_of;
use crate::restore::restored;
use crate::restore::token_restores_its_grant;
use crate::restore::AuthorizationView;
use crate::restore::RemoteAuthorization;
use crate::restore::RestoreData;
use crate::restore::MAX_OUTPUT_NAME_LEN;
use crate::session::position;
use crate::session::session_paths;
use crate::session::CursorMode;
use crate::session::DeviceType;
use crate::session::PersistMode;
use crate::session::Session;
use crate::session::SessionType;
use crate::session::SourceType;
use vstd::prelude::*;

verus! {

/// What a client is told about a started session.
#[derive(Debug)]
pub struct RemoteStartReturnValue {
    pub streams: Vec<Stream>,
    pub devices: BitFlags<DeviceType>,
    pub clipboard_enabled: bool,
    pub screen_share_enabled: bool,
    pub restore_data: Option<RestoreData>,
}

/// Whether `value` tells of the given streams and grant. A token comes along just where the grant
/// persists.
pub open spec fn tells_of(
    value: RemoteStartReturnValue,
    streams: Seq<Stream>,
    authorization: AuthorizationView,
    persist_mode: PersistMode,
    clipboard_enabled: bool,
) -> bool {
    &&& value.streams@ == streams
    &&& value.devices@ == authorization.devices
    &&& value.clipboard_enabled == clipboard_enabled
    &&& value.screen_share_enabled == authorization.screen_share_enabled
    &&& match value.restore_data {
        Some(data) => persist_mode != PersistMode::DoNot && is_token_of(data, authorization),
        None => persist_mode == PersistMode::DoNot,
    }
}

/// What a client is told about a started session.
pub fn build_remote_start_value(
    streams: Vec<Stream>,
    authorization: &RemoteAuthorization,
    persist_mode: PersistMode,
    clipboard_enabled: bool,
) -> (r: Result<RemoteStartReturnValue, PortalError>)
    ensures
        r is Ok,
        tells_of(r->Ok_0, streams@, authorization@, persist_mode, clipboard_enabled),
{
    let restore_data = if persist_mode == PersistMode::DoNot {
        None
    } else {
        match build_restore_data(authorization) {
            Ok(data) => Some(data),
            Err(error) => {
                return Err(error);
            },
        }
    };
    Ok(
        RemoteStartReturnValue {
            streams,
            devices: authorization.devices,
            clipboard_enabled,
            screen_share_enabled: authorization.screen_share_enabled,
            restore_data,
        },
    )
}

/// The successful answer to a start, and what follows it.
#[derive(Debug)]
pub struct StartReply {
    /// What the client is told.
    pub value: RemoteStartReturnValue,
    /// The session whose clipboard is forwarded once the client has been told.
    pub forward_clipboard: Option<String>,
}

/// Whether the clipboard of the session is forwarded just where the client is told so.
pub open spec fn forwards_as_told(reply: StartReply, session_handle: Seq<char>) -> bool {
    match reply.forward_clipboard {
        Some(handle) => reply.value.clipboard_enabled && handle@ == session_handle,
        None => !reply.value.clipboard_enabled,
    }
}

/// The successful answer to a start.
pub fn remote_start_response(session_handle: &HandlePath, value: RemoteStartReturnValue) -> (r:
    StartReply)
    ensures
        r.value == value,
        forwards_as_told(r, session_handle@),
{
    let forward_clipboard = if value.clipboard_enabled {
        Some(session_handle.to_text())
    } else {
        None
    };
    StartReply { value, forward_clipboard }
}

/// The name of the output that a session restores: the one of its token, where that covers what
/// the client asks for.
pub open spec fn restored_name(session: Session) -> Option<Seq<char>> {
    match session.remote_restore {
        Some(authorization) => if authorization@.matches_request(
            session.device_type@,
            session.screen_share_enabled,
            session.clipboard_requested,
            session.source_type@,
            session.multiple,
            session.persist_mode,
        ) {
            Some(authorization.output_name@)
        } else {
            None
        },
        None => None,
    }
}

/// The name of the output that a session restores.
pub fn restored_output_name(session: &Session) -> (r: Option<String>)
    ensures
        match r {
            Some(name) => restored_name(*session) == Some(name@),
            None => restored_name(*session) is None,
        },
{
    match &session.remote_restore {
        Some(authorization) => if authorization.matches_request(
            session.device_type,
            session.screen_share_enabled,
            session.clipboard_requested,
            session.source_type,
            session.multiple,
            session.persist_mode,
        ) {
            Some(authorization.output_name.clone())
        } else {
            None
        },
        None => None,
    }
}

/// A start of a session that already runs.
#[derive(Debug)]
pub struct RunningStart {
    pub session_handle: HandlePath,
    pub streams: Vec<Stream>,
    pub authorization: RemoteAuthorization,
    pub persist_mode: PersistMode,
}

/// A start of a session that does not run yet.
#[derive(Debug)]
pub struct FreshStart {
    /// The session as it is selected now.
    pub session: Session,
    /// The output to take without asking, if it is there.
    pub restored_output_name: Option<String>,
}

/// How a start begins.
#[derive(Debug)]
pub enum StartStep {
    /// There is no such remote-desktop session.
    Refused,
    /// The session already runs: its clipboard is asked for, where it was granted, and the client
    /// is told of it again.
    Running(RunningStart),
    /// The session does not run yet: an output is chosen next.
    Fresh(FreshStart),
}

/// Whether `step` is how a start of `session_handle` begins.
pub open spec fn begins<P: Desktop>(
    sessions: Seq<Session>,
    remotes: Seq<RemoteSessionData<P>>,
    session_handle: Seq<char>,
    step: StartStep,
) -> bool {
    match session_paths(sessions).index_of_first(session_handle) {
        Some(index) => if sessions[index].session_type == SessionType::Remote {
            match remote_handles(remotes).index_of_first(session_handle) {
                Some(running) => step matches StartStep::Running(start) && {
                    &&& start.session_handle@ == session_handle
                    &&& start.streams@ == remotes[running].running_streams()
                    &&& start.authorization == remotes[running].authorization
                    &&& start.persist_mode == remotes[running].persist_mode
                },
                None => step matches StartStep::Fresh(start) && {
                    &&& start.session == sessions[index]
                    &&& match start.restored_output_name {
                        Some(name) => restored_name(sessions[index]) == Some(name@),
                        None => restored_name(sessions[index]) is None,
                    }
                },
            }
        } else {
            step is Refused
        },
        None => step is Refused,
    }
}

/// Begins a start.
pub fn begin_start<P: Desktop>(
    sessions: &Vec<Session>,
    remotes: &Vec<RemoteSessionData<P>>,
    session_handle: &HandlePath,
) -> (r: StartStep)
    ensures
        begins(sessions@, remotes@, session_handle@, r),
{
    match position(sessions, session_handle) {
        Some(index) => {
            proof {
                session_paths(sessions@).index_of_first_ensures(session_handle@);
            }
            if sessions[index].session_type != SessionType::Remote {
                return StartStep::Refused;
            }
            match remote_position(remotes, session_handle.as_str()) {
                Some(running) => StartStep::Running(
                    RunningStart {
                        session_handle: session_handle.clone(),
                        streams: remotes[running].streams(),
                        authorization: remotes[running].authorization.clone(),
                        persist_mode: remotes[running].persist_mode,
                    },
                ),
                None => {
                    let session = sessions[index].clone();
                    let restored_output_name = restored_output_name(&session);
                    StartStep::Fresh(FreshStart { session, restored_output_name })
                },
            }
        },
        None => StartStep::Refused,
    }
}

/// Finishes the start of a session that already runs. `clipboard_ready` says whether its
/// clipboard could be had, and counts only where it was granted.
pub fn resume_start(start: RunningStart, clipboard_ready: bool) -> (r: Result<
    StartReply,
    PortalError,
>)
    ensures
        r is Ok,
        tells_of(
            r->Ok_0.value,
            start.streams@,
            start.authorization@,
            start.persist_mode,
            start.authorization.clipboard_enabled && clipboard_ready,
        ),
        forwards_as_told(r->Ok_0, start.session_handle@),
{
    let clipboard_enabled = start.authorization.clipboard_enabled && clipboard_ready;
    match build_remote_start_value(
        start.streams,
        &start.authorization,
        start.persist_mode,
        clipboard_enabled,
    ) {
        Ok(value) => Ok(remote_start_response(&start.session_handle, value)),
        Err(error) => Err(error),
    }
}

/// What a client is granted for the output `output_name`: what it has selected. The grant
/// persists only where the output can be found again.
pub open spec fn granted(session: Session, output_name: Seq<char>) -> AuthorizationView {
    let asked = AuthorizationView {
        output_name,
        devices: session.device_type@,
        screen_share_enabled: session.screen_share_enabled,
        clipboard_enabled: session.clipboard_requested,
        source_types: session.source_type@,
        multiple: session.multiple,
        persist_mode: session.persist_mode,
    };
    if asked.has_restorable_target() {
        asked
    } else {
        AuthorizationView { persist_mode: PersistMode::DoNot, ..asked }
    }
}

/// The part of the desktop that input is performed on.
#[derive(Debug, Clone, Copy, PartialEq, Eq, Structural)]
pub struct ControlArea {
    pub x: u32,
    pub y: u32,
    pub width: u32,
    pub height: u32,
}

/// What has to be started for a session once its output is chosen.
#[derive(Debug)]
pub struct StartPlan {
    /// The session that is started.
    pub session_handle: HandlePath,
    /// What the client is granted. Its clipboard is asked for where it is part of that.
    pub authorization: RemoteAuthorization,
    /// How long the grant persists.
    pub persist_mode: PersistMode,
    /// Whether the cursor is shown in the screen cast; `None` where there is none to start.
    pub show_cursor: Option<bool>,
    /// The size of the screen cast.
    pub size: (i32, i32),
    /// The area that the input thread is made for.
    pub area: ControlArea,
    /// The zone of the session.
    pub zone: Zone,
}

/// Whether `plan` is what has to be started for `session` on the chosen output.
pub open spec fn plans<W>(session: Session, info: RemoteInfo<W>, plan: StartPlan) -> bool {
    &&& plan.session_handle == session.handle_path
    &&& plan.authorization@ == granted(session, info.output_name@)
    &&& plan.persist_mode == plan.authorization.persist_mode
    &&& plan.show_cursor == (if session.screen_share_enabled {
        Some(session.cursor_mode != CursorMode::Hidden)
    } else {
        None
    })
    &&& plan.size == (info.width, info.height)
    &&& plan.area == (ControlArea {
        x: info.x as u32,
        y: info.y as u32,
        width: info.width as u32,
        height: info.height as u32,
    })
    &&& plan.zone == (Zone {
        x_offset: info.x,
        y_offset: info.y,
        width: info.width as u32,
        height: info.height as u32,
    })
}

/// Plans what has to be started once the output is chosen.
pub fn plan_start<W>(session: &Session, info: &RemoteInfo<W>) -> (r: StartPlan)
    ensures
        plans(*session, *info, r),
        r.show_cursor is Some <==> r.authorization.screen_share_enabled,
{
    let persist_mode = if info.output_name.as_str().is_empty()
        || info.output_name.as_str().as_bytes().len() > MAX_OUTPUT_NAME_LEN || (
    session.screen_share_enabled && (!session.source_type.contains(SourceType::Monitor)
        || session.multiple)) {
        PersistMode::DoNot
    } else {
        session.persist_mode
    };
    let authorization = RemoteAuthorization::new(
        info.output_name.clone(),
        session.device_type,
        session.screen_share_enabled,
        session.clipboard_requested,
        session.source_type,
        session.multiple,
        persist_mode,
    );
    let show_cursor = if authorization.screen_share_enabled {
        Some(session.cursor_mode.show_cursor())
    } else {
        None
    };
    StartPlan {
        session_handle: session.handle_path.clone(),
        authorization,
        persist_mode,
        show_cursor,
        size: (info.width, info.height),
        area: ControlArea {
            x: info.x as u32,
            y: info.y as u32,
            width: info.width as u32,
            height: info.height as u32,
        },
        zone: Zone {
            x_offset: info.x,
            y_offset: info.y,
            width: info.width as u32,
            height: info.height as u32,
        },
    }
}

/// The streams of a screen cast that has just been started.
pub open spec fn new_streams<K>(cast_thread: Option<CastThread<K>>, size: (i32, i32)) -> Seq<
    Stream,
> {
    match cast_thread {
        Some(cast_thread) => seq![
            Stream(
                cast_thread.node_id,
                StreamProperties {
                    id: None,
                    position: None,
                    size,
                    source_type: SourceType::Monitor,
                },
            ),
        ],
        None => Seq::empty(),
    }
}

/// Whether `started` is the record of a session that was started as planned.
pub open spec fn starts_as_planned<P: Desktop>(
    plan: StartPlan,
    cast_thread: Option<CastThread<P::Cast>>,
    remote_control: P::Control,
    started: RemoteSessionData<P>,
) -> bool {
    &&& started.session_handle@ == plan.session_handle@
    &&& started.cast_thread == cast_thread
    &&& started.remote_control == remote_control
    &&& started.zones@ == seq![plan.zone]
    &&& started.barriers@ == Seq::<P::Barrier>::empty()
    &&& started.authorization == plan.authorization
    &&& started.persist_mode == plan.persist_mode
    &&& call_ensures(<P::Coord as Default>::default, (), started.cursor.x)
    &&& call_ensures(<P::Coord as Default>::default, (), started.cursor.y)
    &&& started.activation_id == 0
}

/// Whether a started session records the screen just where it was granted to share it.
pub open spec fn casts_as_granted<P: Desktop>(remote: RemoteSessionData<P>) -> bool {
    remote.authorization.screen_share_enabled <==> remote.cast_thread is Some
}

/// Finishes the start of a session once everything planned has been started: the session is
/// recorded and the client told of it. A screen cast has been started just where the screen is
/// shared. `clipboard_ready` says whether its clipboard could be had,
/// and counts only where it was granted.
pub fn finish_start<P: Desktop>(
    remotes: &mut Vec<RemoteSessionData<P>>,
    ids: &mut ZoneIds,
    plan: StartPlan,
    cast_thread: Option<CastThread<P::Cast>>,
    remote_control: P::Control,
    clipboard_ready: bool,
) -> (r: Result<StartReply, PortalError>)
    requires
        cast_thread is Some <==> plan.authorization.screen_share_enabled,
    ensures
        r is Ok,
        casts_as_granted(final(remotes)@.last()),
        r->Ok_0.value.screen_share_enabled <==> r->Ok_0.value.streams@.len() == 1,
        !r->Ok_0.value.screen_share_enabled <==> r->Ok_0.value.streams@.len() == 0,
        tells_of(
            r->Ok_0.value,
            new_streams(cast_thread, plan.size),
            plan.authorization@,
            plan.persist_mode,
            plan.authorization.clipboard_enabled && clipboard_ready,
        ),
        forwards_as_told(r->Ok_0, plan.session_handle@),
        final(remotes)@.len() == old(remotes)@.len() + 1,
        final(remotes)@.drop_last() == old(remotes)@,
        starts_as_planned(plan, cast_thread, remote_control, final(remotes)@.last()),
        final(remotes)@.last().zone_id.number() == old(ids).upcoming(),
        final(ids).upcoming() == (old(ids).upcoming() + 1) % zone_id_count(),
{
    let mut streams: Vec<Stream> = Vec::new();
    if let Some(cast) = &cast_thread {
        streams.push(
            Stream(
                cast.node_id,
                StreamProperties {
                    id: None,
                    position: None,
                    size: plan.size,
                    source_type: SourceType::Monitor,
                },
            ),
        );
    }
    assert(streams@ =~= new_streams(cast_thread, plan.size));
    let clipboard_enabled = plan.authorization.clipboard_enabled && clipboard_ready;
    let mut zones: Vec<Zone> = Vec::new();
    zones.push(plan.zone);
    assert(zones@ =~= seq![plan.zone]);
    append_remote_session(
        remotes,
        RemoteSessionData::new(
            plan.session_handle.to_text(),
            cast_thread,
            remote_control,
            zones,
            plan.authorization.clone(),
            plan.persist_mode,
            ids,
        ),
    );
    assert(remotes@.drop_last() =~= old(remotes)@);
    match build_remote_start_value(
        streams,
        &plan.authorization,
        plan.persist_mode,
        clipboard_enabled,
    ) {
        Ok(value) => Ok(remote_start_response(&plan.session_handle, value)),
        Err(error) => Err(error),
    }
}

/// A grant that persists always has a target which can be found again.
pub proof fn persistent_grants_have_a_target(session: Session, output_name: Seq<char>)
    ensures
        granted(session, output_name).persist_mode != PersistMode::DoNot ==> granted(
            session,
            output_name,
        ).has_restorable_target(),
        granted(session, output_name).persist_mode.number() <= session.persist_mode.number(),
{
}

/// A token that a client was given brings it back: reading it gives the grant of that start.
pub proof fn given_tokens_restore_the_grant(
    session: Session,
    output_name: Seq<char>,
    value: RemoteStartReturnValue,
    streams: Seq<Stream>,
    clipboard_enabled: bool,
)
    requires
        tells_of(
            value,
            streams,
            granted(session, output_name),
            granted(session, output_name).persist_mode,
            clipboard_enabled,
        ),
    ensures
        value.restore_data matches Some(data) ==> restored(data) == Some(
            granted(session, output_name),
        ),
        value.restore_data is None <==> granted(session, output_name).persist_mode
            == PersistMode::DoNot,
{
    if let Some(data) = value.restore_data {
        persistent_grants_have_a_target(session, output_name);
        token_restores_its_grant(data, granted(session, output_name));
    }
}

/// A client that starts again with the token of its last start, and selects the same, restores
/// the output of its last start.
pub proof fn same_selection_restores_the_output(
    first: Session,
    output_name: Seq<char>,
    data: RestoreData,
    second: Session,
)
    requires
        granted(first, output_name).persist_mode != PersistMode::DoNot,
        is_token_of(data, granted(first, output_name)),
        second.remote_restore matches Some(authorization) && restored(data) == Some(
            authorization@,
        ),
        second.device_type@ == first.device_type@,
        second.screen_share_enabled == first.screen_share_enabled,
        second.clipboard_requested == first.clipboard_requested,
        second.source_type@ == first.source_type@,
        second.multiple == first.multiple,
        second.persist_mode.number() <= first.persist_mode.number(),
    ensures
        restored_name(second) == Some(output_name),
{
    token_restores_its_grant(data, granted(first, output_name));
}

/// A restored output that is there just once is taken without asking the user.
pub proof fn restored_output_is_taken_without_asking<W: Clone>(
    outputs: Seq<OutputInfo<W>>,
    session: Session,
    size: Size,
    step: Result<MonitorStep<W>, PortalError>,
    index: int,
)
    requires
        restored_name(session) is Some,
        is_only_place(output_names(outputs), restored_name(session)->0, index),
        decides(outputs, restored_name(session), Picked::NotAsked, size, step),
    ensures
        step matches Ok(MonitorStep::Chosen(info)) && info.output_name@ == restored_name(session)->0
            && info.x == outputs[index].x && info.y == outputs[index].y,
{
}

/// Starting a session that already runs grants nothing new: the client is told of the devices
/// and the screen sharing that the first start granted.
pub proof fn starting_again_grants_nothing_new<P: Desktop>(
    sessions: Seq<Session>,
    remotes: Seq<RemoteSessionData<P>>,
    session_handle: Seq<char>,
    step: StartStep,
    value: RemoteStartReturnValue,
    clipboard_enabled: bool,
)
    requires
        begins(sessions, remotes, session_handle, step),
        step matches StartStep::Running(start) && tells_of(
            value,
            start.streams@,
            start.authorization@,
            start.persist_mode,
            clipboard_enabled,
        ),
    ensures
        remote_handles(remotes).index_of_first(session_handle) matches Some(running) && {
            &&& value.devices@ == remotes[running].authorization.devices@
            &&& value.screen_share_enabled == remotes[running].authorization.screen_share_enabled
            &&& value.restore_data is Some <==> remotes[running].persist_mode != PersistMode::DoNot
        },
{
}

/// A started session shares the screen just where its client selected that, and just where it has
/// a screen cast and one stream. Without sharing there is no stream.
pub proof fn sharing_means_one_stream<P: Desktop, W>(
    session: Session,
    info: RemoteInfo<W>,
    plan: StartPlan,
    cast_thread: Option<CastThread<P::Cast>>,
    remote_control: P::Control,
    started: RemoteSessionData<P>,
    value: RemoteStartReturnValue,
    clipboard_enabled: bool,
)
    requires
        plans(session, info, plan),
        cast_thread is Some <==> plan.authorization.screen_share_enabled,
        starts_as_planned(plan, cast_thread, remote_control, started),
        tells_of(
            value,
            new_streams(cast_thread, plan.size),
            plan.authorization@,
            plan.persist_mode,
            clipboard_enabled,
        ),
    ensures
        value.screen_share_enabled == session.screen_share_enabled,
        value.screen_share_enabled <==> cast_thread is Some,
        value.screen_share_enabled <==> value.streams@.len() == 1,
        !value.screen_share_enabled <==> value.streams@.len() == 0,
        casts_as_granted(started),
{
}

/// A client that starts a running session again is told of one stream just where that session
/// shares the screen, too.
pub proof fn sharing_again_means_one_stream<P: Desktop>(
    sessions: Seq<Session>,
    remotes: Seq<RemoteSessionData<P>>,
    session_handle: Seq<char>,
    step: StartStep,
    value: RemoteStartReturnValue,
    clipboard_enabled: bool,
)
    requires
        forall|i: int| 0 <= i < remotes.len() ==> casts_as_granted(#[trigger] remotes[i]),
        begins(sessions, remotes, session_handle, step),
        step matches StartStep::Running(start) && tells_of(
            value,
            start.streams@,
            start.authorization@,
            start.persist_mode,
            clipboard_enabled,
        ),
    ensures
        value.screen_share_enabled <==> value.streams@.len() == 1,
        !value.screen_share_enabled <==> value.streams@.len() == 0,
{
    remote_handles(remotes).index_of_first_ensures(session_handle);
    let running = remote_handles(remotes).index_of_first(session_handle)->0;
    assert(casts_as_granted(remotes[running]));
}

/// Starting another session, input, and removing a session leave it so that every started session
/// records the screen just where it was granted to share it.
pub proof fn sessions_keep_casting_as_granted<
    P: Desktop,
    F: Fn(P::Coord, P::Coord) -> P::Coord,
>(
    before: Seq<RemoteSessionData<P>>,
    after: Seq<RemoteSessionData<P>>,
    session_handle: Seq<char>,
    event: InputRequest<P::Coord>,
    plus: F,
    removed: Option<RemoteSessionData<P>>,
)
    requires
        forall|i: int| 0 <= i < before.len() ==> casts_as_granted(#[trigger] before[i]),
        ({
            ||| after.len() == before.len() + 1 && after.drop_last() == before && casts_as_granted(
                after.last(),
            )
            ||| input_changes(before, after, session_handle, event, plus)
            ||| remote_removed(before, session_handle, after, removed)
        }),
    ensures
        forall|i: int| 0 <= i < after.len() ==> casts_as_granted(#[trigger] after[i]),
{
    if after.len() == before.len() + 1 && after.drop_last() == before {
        assert forall|i: int| 0 <= i < before.len() implies after[i] == #[trigger] before[i] by {
            assert(after.drop_last()[i] == before[i]);
        }
        assert forall|i: int| 0 <= i < after.len() implies casts_as_granted(
            #[trigger] after[i],
        ) by {
            if i < before.len() {
                assert(casts_as_granted(before[i]));
            }
        }
    } else {
        assert forall|i: int| 0 <= i < after.len() implies casts_as_granted(
            #[trigger] after[i],
        ) by {
            if input_changes(before, after, session_handle, event, plus) {
                assert(casts_as_granted(before[i]));
            } else {
                let index = remote_handles(before).index_of_first(session_handle);
                if index is Some && i >= index->0 {
                    assert(casts_as_granted(before[i + 1]));
                } else {
                    assert(casts_as_granted(before[i]));
                }
            }
        }
    }
}

} // verus!
