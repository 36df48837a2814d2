//! Sessions: which one a handle names, and what a client's selections leave in it.

use crate::backend::PortalResponse;
use crate::backend::RemoteDesktopBackend;
use crate::backend::SelectDevicesOptions;
use crate::backend::SessionCreateResult;
use crate::flags::BitFlags;
use crate::path::is_element_char;
use crate::path::is_object_path;
use crate::path::HandlePath;
use crate::remotedesktop::append_remote_session;
use crate::remotedesktop::remote_handles;
use crate::remotedesktop::remote_position;
use crate::remotedesktop::remove_remote_session;
use crate::remotedesktop::CastThread;
use crate::remotedesktop::Desktop;
use crate::remotedesktop::RemoteSessionData;
use crate::remotedesktop::Stopping;
use crate::remotedesktop::Stream;
use crate::remotedesktop::StreamProperties;
use crate::remotedesktop::Zone;
use crate::remotedesktop::ZoneId;
use crate::remotedesktop::ZoneIds;
use crate::eis_server::EisServerMsg;
use crate::restore::parse_restore_data;
use crate::restore::RemoteAuthorization;
use crate::session::append_session;
use crate::session::position;
use crate::session::remove_session;
use crate::session::session_paths;
use crate::session::CursorMode;
use crate::session::DeviceType;
use crate::session::PersistMode;
use crate::session::SelectSourcesOptions;
use crate::session::Session;
use crate::session::SessionType;
use crate::session::SourceType;
use crate::session::Teardown;
use vstd::prelude::*;

verus! {

/// Whether `index` is the place of the first session with the given handle.
pub open spec fn first_session(sessions: Seq<Session>, handle: Seq<char>, index: int) -> bool {
    &&& 0 <= index < sessions.len()
    &&& sessions[index].handle_path@ == handle
    &&& forall|i: int| 0 <= i < index ==> (#[trigger] sessions[i]).handle_path@ != handle
}

/// Whether no session has the given handle.
pub open spec fn no_session(sessions: Seq<Session>, handle: Seq<char>) -> bool {
    forall|i: int| 0 <= i < sessions.len() ==> (#[trigger] sessions[i]).handle_path@ != handle
}

/// Whether `index` is the place of the first started session with the given handle.
pub open spec fn first_remote<P: Desktop>(
    remotes: Seq<RemoteSessionData<P>>,
    handle: Seq<char>,
    index: int,
) -> bool {
    &&& 0 <= index < remotes.len()
    &&& remotes[index].session_handle@ == handle
    &&& forall|i: int| 0 <= i < index ==> (#[trigger] remotes[i]).session_handle@ != handle
}

/// Whether no started session has the given handle.
pub open spec fn no_remote<P: Desktop>(
    remotes: Seq<RemoteSessionData<P>>,
    handle: Seq<char>,
) -> bool {
    forall|i: int| 0 <= i < remotes.len() ==> (#[trigger] remotes[i]).session_handle@ != handle
}

pub(crate) proof fn lemma_first_session(sessions: Seq<Session>, handle: Seq<char>)
    ensures
        match session_paths(sessions).index_of_first(handle) {
            Some(index) => first_session(sessions, handle, index),
            None => no_session(sessions, handle),
        },
        forall|index: int| #[trigger]
            first_session(sessions, handle, index) ==> session_paths(sessions).index_of_first(
                handle,
            ) == Some(index),
        no_session(sessions, handle) ==> session_paths(sessions).index_of_first(handle) is None,
{
    let paths = session_paths(sessions);
    paths.index_of_first_ensures(handle);
    assert(forall|i: int|
        0 <= i < sessions.len() ==> paths[i] == (#[trigger] sessions[i]).handle_path@);
    assert forall|index: int| #[trigger] first_session(sessions, handle, index) implies
        paths.index_of_first(handle) == Some(index) by {
        assert(paths[index] == handle);
        let found = paths.index_of_first(handle)->0;
        if found < index {
            assert(sessions[found].handle_path@ == handle);
        }
    }
}

pub(crate) proof fn lemma_first_remote<P: Desktop>(
    remotes: Seq<RemoteSessionData<P>>,
    handle: Seq<char>,
)
    ensures
        match remote_handles(remotes).index_of_first(handle) {
            Some(index) => first_remote(remotes, handle, index),
            None => no_remote(remotes, handle),
        },
        forall|index: int| #[trigger]
            first_remote(remotes, handle, index) ==> remote_handles(remotes).index_of_first(handle)
                == Some(index),
        no_remote(remotes, handle) ==> remote_handles(remotes).index_of_first(handle) is None,
{
    let handles = remote_handles(remotes);
    handles.index_of_first_ensures(handle);
    assert(forall|i: int|
        0 <= i < remotes.len() ==> handles[i] == (#[trigger] remotes[i]).session_handle@);
    assert forall|index: int| #[trigger] first_remote(remotes, handle, index) implies
        handles.index_of_first(handle) == Some(index) by {
        assert(handles[index] == handle);
        let found = handles.index_of_first(handle)->0;
        if found < index {
            assert(remotes[found].session_handle@ == handle);
        }
    }
}

/// A handle names the first session that has it.
pub proof fn handles_name_the_first_session(
    sessions: &Vec<Session>,
    path: &HandlePath,
    r: Option<usize>,
)
    requires
        call_ensures(position, (sessions, path), r),
    ensures
        match r {
            Some(index) => first_session(sessions@, path@, index as int),
            None => no_session(sessions@, path@),
        },
{
    lemma_first_session(sessions@, path@);
}

/// A handle names the first started session that has it.
pub proof fn handles_name_the_first_started_session<P: Desktop>(
    remotes: &Vec<RemoteSessionData<P>>,
    handle: &str,
    r: Option<usize>,
)
    requires
        call_ensures(remote_position::<P>, (remotes, handle), r),
    ensures
        match r {
            Some(index) => first_remote(remotes@, handle@, index as int),
            None => no_remote(remotes@, handle@),
        },
{
    lemma_first_remote(remotes@, handle@);
}

/// A new session has a monitor as its source and nothing else selected.
pub proof fn new_sessions_select_nothing(
    path: HandlePath,
    session_type: SessionType,
    r: Session,
    device: DeviceType,
    source: SourceType,
)
    requires
        call_ensures(Session::new, (path, session_type), r),
    ensures
        r.handle_path@ == path@,
        r.session_type == session_type,
        !r.device_type@.contains(device),
        r.source_type@.contains(source) <==> source is Monitor,
        !r.multiple && !r.screen_share_enabled && !r.clipboard_requested,
        r.cursor_mode is Hidden,
        r.persist_mode is DoNot,
        r.remote_restore is None,
{
}

/// A session that is added stands behind the others, which stay as they are.
pub proof fn added_sessions_stand_last(sessions: &mut Vec<Session>, session: Session)
    requires
        call_ensures(append_session, (sessions, session), ()),
    ensures
        final(sessions)@.len() == old(sessions)@.len() + 1,
        final(sessions)@[old(sessions)@.len() as int] == session,
        forall|i: int|
            0 <= i < old(sessions)@.len() ==> #[trigger] final(sessions)@[i] == old(sessions)@[i],
{
}

/// A created session is a remote-desktop session of which nothing is selected, behind the others;
/// the client is told its handle.
pub proof fn created_sessions_are_new(
    backend: &RemoteDesktopBackend,
    sessions: &mut Vec<Session>,
    session_handle: HandlePath,
    r: PortalResponse<SessionCreateResult>,
    device: DeviceType,
    source: SourceType,
)
    requires
        call_ensures(
            RemoteDesktopBackend::create_session,
            (backend, sessions, session_handle),
            r,
        ),
    ensures
        r matches PortalResponse::Success(result) && result.handle_token@ == session_handle@,
        final(sessions)@.len() == old(sessions)@.len() + 1,
        forall|i: int|
            0 <= i < old(sessions)@.len() ==> #[trigger] final(sessions)@[i] == old(sessions)@[i],
        ({
            let session = final(sessions)@[old(sessions)@.len() as int];
            &&& session.handle_path@ == session_handle@
            &&& session.session_type is Remote
            &&& !session.device_type@.contains(device)
            &&& session.source_type@.contains(source) <==> source is Monitor
            &&& !session.multiple && !session.screen_share_enabled && !session.clipboard_requested
            &&& session.cursor_mode is Hidden
            &&& session.persist_mode is DoNot
            &&& session.remote_restore is None
        }),
{
    assert forall|i: int| 0 <= i < old(sessions)@.len() implies #[trigger] final(sessions)@[i]
        == old(sessions)@[i] by {
        assert(final(sessions)@.drop_last()[i] == old(sessions)@[i]);
    }
}

/// Selecting sources shares the screen. What is selected is recorded, what is left out stays, but
/// for `multiple`, which is off unless asked for. Only a screen-cast session takes its persistence
/// from there, and nothing of the remote control changes.
pub proof fn selected_sources_are_recorded(session: &mut Session, options: SelectSourcesOptions)
    requires
        call_ensures(Session::set_screencast_options, (session, options), ()),
    ensures
        final(session).screen_share_enabled,
        options.types matches Some(types) ==> final(session).source_type@ == types@,
        options.types is None ==> final(session).source_type@ == old(session).source_type@,
        final(session).multiple <==> options.multiple == Some(true),
        options.cursor_mode matches Some(mode) ==> final(session).cursor_mode == mode,
        options.cursor_mode is None ==> final(session).cursor_mode == old(session).cursor_mode,
        options.persist_mode matches Some(mode) ==> old(session).session_type is ScreenCast ==> final(session).persist_mode == mode,
        options.persist_mode is None || !(old(session).session_type is ScreenCast) ==> final(session).persist_mode == old(session).persist_mode,
        final(session).session_type == old(session).session_type,
        final(session).handle_path@ == old(session).handle_path@,
        final(session).device_type@ == old(session).device_type@,
        final(session).clipboard_requested == old(session).clipboard_requested,
        final(session).remote_restore == old(session).remote_restore,
{
}

/// Selecting devices records them, or all of them where none are named. The token is replaced,
/// the persistence only where one is named, and nothing of the screen cast changes.
pub proof fn selected_devices_are_recorded(
    session: &mut Session,
    types: Option<BitFlags<DeviceType>>,
    persist_mode: Option<PersistMode>,
    remote_restore: Option<RemoteAuthorization>,
    device: DeviceType,
)
    requires
        call_ensures(
            Session::set_remote_options,
            (session, types, persist_mode, remote_restore),
            (),
        ),
    ensures
        types matches Some(types) ==> (final(session).device_type@.contains(device)
            <==> types@.contains(device)),
        types is None ==> final(session).device_type@.contains(device),
        persist_mode matches Some(mode) ==> final(session).persist_mode == mode,
        persist_mode is None ==> final(session).persist_mode == old(session).persist_mode,
        final(session).remote_restore == remote_restore,
        final(session).session_type == old(session).session_type,
        final(session).handle_path@ == old(session).handle_path@,
        final(session).source_type@ == old(session).source_type@,
        final(session).multiple == old(session).multiple,
        final(session).cursor_mode == old(session).cursor_mode,
        final(session).screen_share_enabled == old(session).screen_share_enabled,
        final(session).clipboard_requested == old(session).clipboard_requested,
{
}

/// A request to select devices is answered with success just where its handle names a
/// remote-desktop session. That session then has the devices asked for, or all where none are
/// named, the persistence asked for, or its own where none is named, and what reading the token
/// gave. Nothing else of it changes, and no other session does.
pub proof fn requests_select_devices(
    backend: &RemoteDesktopBackend,
    sessions: &mut Vec<Session>,
    session_handle: &HandlePath,
    options: SelectDevicesOptions,
    r: PortalResponse<()>,
    index: int,
    device: DeviceType,
    read: Option<RemoteAuthorization>,
)
    requires
        call_ensures(
            RemoteDesktopBackend::select_devices,
            (backend, sessions, session_handle, options),
            r,
        ),
        first_session(old(sessions)@, session_handle@, index),
        options.restore_data matches Some(data) ==> call_ensures(
            parse_restore_data,
            (data,),
            read,
        ),
    ensures
        r == PortalResponse::Success(()) <==> old(sessions)@[index].session_type is Remote,
        r is Other <==> !(old(sessions)@[index].session_type is Remote),
        r is Other ==> final(sessions)@ == old(sessions)@,
        final(sessions)@.len() == old(sessions)@.len(),
        forall|i: int|
            0 <= i < old(sessions)@.len() && i != index ==> #[trigger] final(sessions)@[i] == old(sessions)@[i],
        !(r is Other) ==> {
            let before = old(sessions)@[index];
            let after = final(sessions)@[index];
            &&& options.types matches Some(types) ==> (after.device_type@.contains(device)
                <==> types@.contains(device))
            &&& options.types is None ==> after.device_type@.contains(device)
            &&& options.persist_mode matches Some(mode) ==> after.persist_mode == mode
            &&& options.persist_mode is None ==> after.persist_mode == before.persist_mode
            &&& options.restore_data is None ==> after.remote_restore is None
            &&& options.restore_data is Some ==> (after.remote_restore is Some <==> read is Some)
            &&& options.restore_data is Some && read is Some ==> {
                let kept = after.remote_restore->0;
                &&& kept.output_name@ == read->0.output_name@
                &&& kept.devices@ == read->0.devices@
                &&& kept.screen_share_enabled == read->0.screen_share_enabled
                &&& kept.clipboard_enabled == read->0.clipboard_enabled
                &&& kept.source_types@ == read->0.source_types@
                &&& kept.multiple == read->0.multiple
                &&& kept.persist_mode == read->0.persist_mode
            }
            &&& after.session_type == before.session_type
            &&& after.handle_path@ == before.handle_path@
            &&& after.source_type@ == before.source_type@
            &&& after.multiple == before.multiple
            &&& after.cursor_mode == before.cursor_mode
            &&& after.screen_share_enabled == before.screen_share_enabled
            &&& after.clipboard_requested == before.clipboard_requested
        },
{
    lemma_first_session(old(sessions)@, session_handle@);
}

/// A request to select devices for a handle that names no session changes nothing.
pub proof fn selecting_needs_a_session(
    backend: &RemoteDesktopBackend,
    sessions: &mut Vec<Session>,
    session_handle: &HandlePath,
    options: SelectDevicesOptions,
    r: PortalResponse<()>,
)
    requires
        call_ensures(
            RemoteDesktopBackend::select_devices,
            (backend, sessions, session_handle, options),
            r,
        ),
        no_session(old(sessions)@, session_handle@),
    ensures
        r is Other,
        final(sessions)@ == old(sessions)@,
{
    lemma_first_session(old(sessions)@, session_handle@);
}

/// Whether `after` is `before` without what stood at `index`.
pub open spec fn taken_out<A>(before: Seq<A>, after: Seq<A>, index: int) -> bool {
    &&& after.len() == before.len() - 1
    &&& forall|i: int| 0 <= i < index ==> #[trigger] after[i] == before[i]
    &&& forall|i: int| index <= i < after.len() ==> #[trigger] after[i] == before[i + 1]
}

/// Closing a session takes it out, and with it what it has started; all others stay.
pub proof fn closed_sessions_are_taken_out<P: Desktop>(
    sessions: &mut Vec<Session>,
    remotes: &mut Vec<RemoteSessionData<P>>,
    session: &Session,
    r: Option<Teardown<P>>,
    index: int,
)
    requires
        call_ensures(remove_session::<P>, (sessions, remotes, session), r),
        first_session(old(sessions)@, session.handle_path@, index),
    ensures
        taken_out(old(sessions)@, final(sessions)@, index),
        r matches Some(teardown) && {
            &&& teardown.session_handle@ == session.handle_path@
            &&& teardown.remote is None <==> no_remote(old(remotes)@, session.handle_path@)
            &&& teardown.remote is None ==> final(remotes)@ == old(remotes)@
            &&& forall|i: int| #[trigger]
                first_remote(old(remotes)@, session.handle_path@, i) ==> teardown.remote == Some(
                    old(remotes)@[i],
                ) && taken_out(old(remotes)@, final(remotes)@, i)
        },
{
    lemma_first_session(old(sessions)@, session.handle_path@);
    lemma_first_remote(old(remotes)@, session.handle_path@);
}

/// Closing a session that is not there changes nothing.
pub proof fn closing_needs_a_session<P: Desktop>(
    sessions: &mut Vec<Session>,
    remotes: &mut Vec<RemoteSessionData<P>>,
    session: &Session,
    r: Option<Teardown<P>>,
)
    requires
        call_ensures(remove_session::<P>, (sessions, remotes, session), r),
        no_session(old(sessions)@, session.handle_path@),
    ensures
        r is None,
        final(sessions)@ == old(sessions)@,
        final(remotes)@ == old(remotes)@,
{
    lemma_first_session(old(sessions)@, session.handle_path@);
}

/// Removing a started session takes the first one of its handle out; all others stay.
pub proof fn removed_sessions_are_taken_out<P: Desktop>(
    remotes: &mut Vec<RemoteSessionData<P>>,
    path: &str,
    r: Option<RemoteSessionData<P>>,
)
    requires
        call_ensures(remove_remote_session::<P>, (remotes, path), r),
    ensures
        r is None <==> no_remote(old(remotes)@, path@),
        r is None ==> final(remotes)@ == old(remotes)@,
        forall|i: int| #[trigger]
            first_remote(old(remotes)@, path@, i) ==> r == Some(old(remotes)@[i]) && taken_out(
                old(remotes)@,
                final(remotes)@,
                i,
            ),
{
    lemma_first_remote(old(remotes)@, path@);
}

/// A started session that is added stands behind the others, which stay as they are.
pub proof fn added_started_sessions_stand_last<P: Desktop>(
    remotes: &mut Vec<RemoteSessionData<P>>,
    session: RemoteSessionData<P>,
)
    requires
        call_ensures(append_remote_session::<P>, (remotes, session), ()),
    ensures
        final(remotes)@.len() == old(remotes)@.len() + 1,
        final(remotes)@[old(remotes)@.len() as int] == session,
        forall|i: int|
            0 <= i < old(remotes)@.len() ==> #[trigger] final(remotes)@[i] == old(remotes)@[i],
{
}

/// A started session carries what it was made with, has no barriers and no activation yet, and
/// takes the next zone id.
pub proof fn started_sessions_carry_what_they_were_made_with<P: Desktop>(
    session_handle: String,
    cast_thread: Option<CastThread<P::Cast>>,
    remote_control: P::Control,
    zones: Vec<Zone>,
    authorization: RemoteAuthorization,
    persist_mode: PersistMode,
    ids: &mut ZoneIds,
    r: RemoteSessionData<P>,
)
    requires
        call_ensures(
            RemoteSessionData::<P>::new,
            (
                session_handle,
                cast_thread,
                remote_control,
                zones,
                authorization,
                persist_mode,
                ids,
            ),
            r,
        ),
    ensures
        r.session_handle@ == session_handle@,
        r.cast_thread == cast_thread,
        r.remote_control == remote_control,
        r.zones@ == zones@,
        r.authorization == authorization,
        r.persist_mode == persist_mode,
        r.barriers@.len() == 0,
        r.activation_id == 0,
        r.zone_id.number() == old(ids).upcoming(),
        call_ensures(<P::Coord as Default>::default, (), r.cursor.x),
        call_ensures(<P::Coord as Default>::default, (), r.cursor.y),
{
}

/// Stopping a session stops its threads and has the server forget its listener.
pub proof fn stopping_ends_everything<P: Desktop>(session: RemoteSessionData<P>, r: Stopping<P>)
    requires
        call_ensures(RemoteSessionData::<P>::stop, (session,), r),
    ensures
        r.remote_control == session.remote_control,
        r.cast_thread == session.cast_thread,
        r.message matches EisServerMsg::RemoveListener(handle) && handle@
            == session.session_handle@,
{
}

/// A running session has one stream where it records the screen, of the node that it feeds, and
/// none otherwise.
pub proof fn running_streams_are_those_of_the_cast<P: Desktop>(
    session: &RemoteSessionData<P>,
    r: Vec<Stream>,
)
    requires
        call_ensures(RemoteSessionData::<P>::streams, (session,), r),
    ensures
        session.cast_thread is None ==> r@.len() == 0,
        session.cast_thread matches Some(cast) ==> {
            &&& r@.len() == 1
            &&& r@[0].0 == cast.node_id
            &&& r@[0].1.id is None
            &&& r@[0].1.position is None
            &&& r@[0].1.size == (0i32, 0i32)
            &&& r@[0].1.source_type is Monitor
        },
{
}

/// A started session has the devices that it was granted.
pub proof fn started_sessions_have_their_devices<P: Desktop>(
    session: &RemoteSessionData<P>,
    r: BitFlags<DeviceType>,
    device: DeviceType,
)
    requires
        call_ensures(RemoteSessionData::<P>::devices, (session,), r),
    ensures
        r@.contains(device) <==> session.authorization.devices@.contains(device),
{
}

/// Activations are counted one by one, and nothing else changes.
pub proof fn activations_are_counted<P: Desktop>(session: &mut RemoteSessionData<P>, before: u32)
    requires
        call_ensures(RemoteSessionData::<P>::step, (session,), ()),
        old(session).activation_id < u32::MAX,
        call_ensures(RemoteSessionData::<P>::activation_id, (&*old(session),), before),
    ensures
        before == old(session).activation_id,
        final(session).activation_id == before + 1,
        final(session).session_handle == old(session).session_handle,
        final(session).authorization == old(session).authorization,
        final(session).cursor == old(session).cursor,
        final(session).cast_thread == old(session).cast_thread,
        final(session).remote_control == old(session).remote_control,
{
}

/// Zone ids count up from zero, one by one, and start over only behind the largest number.
pub proof fn zone_ids_count_up(ids: &mut ZoneIds, id: ZoneId, value: u32, fresh: ZoneIds)
    requires
        call_ensures(ZoneId::unique, (ids,), id),
        call_ensures(ZoneId::value, (&id,), value),
        call_ensures(ZoneIds::new, (), fresh),
    ensures
        fresh.upcoming() == 0,
        value == old(ids).upcoming(),
        old(ids).upcoming() < u32::MAX ==> final(ids).upcoming() == old(ids).upcoming() + 1,
        old(ids).upcoming() == u32::MAX ==> final(ids).upcoming() == 0,
{
}

/// Where nothing is said, nothing is selected: a monitor as source, a hidden cursor, no
/// persistence, and no options.
pub proof fn defaults_select_nothing(
    source: SourceType,
    cursor: CursorMode,
    mode: PersistMode,
    sources: SelectSourcesOptions,
    devices: SelectDevicesOptions,
    properties: StreamProperties,
)
    requires
        call_ensures(<SourceType as Default>::default, (), source),
        call_ensures(<CursorMode as Default>::default, (), cursor),
        call_ensures(<PersistMode as Default>::default, (), mode),
        call_ensures(<SelectSourcesOptions as Default>::default, (), sources),
        call_ensures(<SelectDevicesOptions as Default>::default, (), devices),
        call_ensures(<StreamProperties as Default>::default, (), properties),
    ensures
        source is Monitor,
        cursor is Hidden,
        mode is DoNot,
        sources.types is None && sources.multiple is None,
        sources.cursor_mode is None && sources.persist_mode is None,
        devices.types is None && devices.restore_data is None && devices.persist_mode is None,
        properties.id is None && properties.position is None,
        properties.size == (0i32, 0i32),
        properties.source_type is Monitor,
{
}

/// The session interface is in its second version.
pub proof fn sessions_are_in_their_second_version(session: &Session, r: u32)
    requires
        call_ensures(Session::version, (session,), r),
    ensures
        r == 2,
{
}

/// A path keeps its text.
pub proof fn paths_keep_their_text(text: String, r: Option<HandlePath>, again: String, seen: &str)
    requires
        call_ensures(HandlePath::parse, (text,), r),
        r is Some,
        call_ensures(HandlePath::to_text, (&r->0,), again),
        call_ensures(HandlePath::as_str, (&r->0,), seen),
    ensures
        again@ == text@,
        seen@ == text@,
{
}

/// Object paths are made of elements: the root is one, and behind a path and a slash further
/// letters, digits and underscores make a longer path.
pub proof fn paths_are_made_of_elements(path: Seq<char>, element: Seq<char>)
    requires
        element.len() > 0,
        forall|i: int|
            0 <= i < element.len() ==> {
                let c = #[trigger] element[i];
                'a' <= c <= 'z' || 'A' <= c <= 'Z' || '0' <= c <= '9' || c == '_'
            },
    ensures
        is_object_path(seq!['/']),
        is_object_path(seq!['/'] + element),
        is_object_path(path) && path != seq!['/'] ==> is_object_path(path + seq!['/'] + element),
{
    assert(forall|i: int| 0 <= i < element.len() ==> is_element_char(#[trigger] element[i])
        && element[i] != '/');
    let short = seq!['/'] + element;
    assert forall|i: int| 0 <= i < short.len() implies is_element_char(#[trigger] short[i])
        || short[i] == '/' by {
        if i > 0 {
            assert(short[i] == element[i - 1]);
        }
    }
    assert forall|i: int, j: int|
        0 <= i < short.len() && j == i + 1 && j < short.len() && #[trigger] short[i]
            == '/' implies #[trigger] short[j] != '/' by {
        assert(short[j] == element[j - 1]);
    }
    assert(short.last() == element.last());
    if is_object_path(path) && path != seq!['/'] {
        let long = path + seq!['/'] + element;
        let n = path.len() as int;
        if path.len() == 1 {
            assert(path =~= seq!['/']);
        }
        assert(forall|i: int| 0 <= i < n ==> long[i] == path[i]);
        assert(forall|i: int| n < i < long.len() ==> long[i] == element[i - n - 1]);
        assert(long.last() == element.last());
        assert forall|i: int| 0 <= i < long.len() implies is_element_char(#[trigger] long[i])
            || long[i] == '/' by {
            if i < n {
                assert(long[i] == path[i]);
            } else if i > n {
                assert(long[i] == element[i - n - 1]);
            }
        }
        assert forall|i: int, j: int|
            0 <= i < long.len() && j == i + 1 && j < long.len() && #[trigger] long[i]
                == '/' implies #[trigger] long[j] != '/' by {
            if j < n {
                assert(path[i] == '/');
                assert(path[j] != '/');
            } else if j == n {
                assert(long[i] == path.last());
            } else {
                assert(long[j] == element[j - n - 1]);
            }
        }
    }
}

/// Texts with two slashes in a row, with a slash at their end, without one at their start, or with
/// any other character than letters, digits and underscores are no object paths.
pub proof fn other_texts_are_no_paths(text: String, r: Option<HandlePath>, i: int)
    requires
        call_ensures(HandlePath::parse, (text,), r),
        r is Some,
        0 <= i < text@.len(),
    ensures
        r->0@ == text@,
        text@[0] == '/',
        text@[i] == '/' || 'a' <= text@[i] <= 'z' || 'A' <= text@[i] <= 'Z' || '0' <= text@[i]
            <= '9' || text@[i] == '_',
        i + 1 < text@.len() && text@[i] == '/' ==> text@[i + 1] != '/',
        text@.len() > 1 ==> text@[text@.len() - 1] != '/',
{
}

} // verus!
