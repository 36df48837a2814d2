//! Started remote-desktop sessions, and the input that their clients send.

use crate::eis_server::EisServerMsg;
use crate::error::PortalError;
use crate::flags::BitFlags;
use crate::input::handle_of;
use crate::input::input_request_is_authorized;
use crate::input::is_authorized;
use crate::input::request_from_event;
use crate::input::request_of;
use crate::input::InputEvent;
use crate::input::InputRequest;
use crate::path::is_object_path;
use crate::path::HandlePath;
use crate::restore::RemoteAuthorization;
use crate::session::DeviceType;
use crate::session::PersistMode;
use crate::session::SourceType;
use crate::text::same_text;
use vstd::prelude::*;

verus! {

/// The types of what sessions carry for the process around them, which is passed on without being
/// looked at.
pub trait Desktop {
    /// A coordinate.
    type Coord: Copy + Default;

    /// A thread that records the screen.
    type Cast;

    /// A thread that performs input.
    type Control;

    /// A pointer barrier.
    type Barrier;

    /// A socket that listens for emulated-input clients.
    type Listener;
}

/// How many zone ids there are before they repeat.
pub open spec fn zone_id_count() -> int {
    0x1_0000_0000
}

/// The id of a set of zones.
#[derive(Debug, Clone, Copy, PartialEq, Eq, Hash, PartialOrd, Ord)]
pub struct ZoneId(u32);

/// Where new zone ids come from.
#[derive(Debug)]
pub struct ZoneIds {
    next: u32,
}

impl ZoneIds {
    /// The number of the next id.
    pub closed spec fn upcoming(self) -> u32 {
        self.next
    }

    /// A source that starts at zero.
    pub fn new() -> (r: Self)
        ensures
            r.upcoming() == 0,
    {
        ZoneIds { next: 0 }
    }
}

impl ZoneId {
    /// The number of the id.
    pub closed spec fn number(self) -> u32 {
        self.0
    }

    /// Creates a new unique id. The numbers count up and start over at zero after the largest.
    pub fn unique(ids: &mut ZoneIds) -> (r: ZoneId)
        ensures
            r.number() == old(ids).upcoming(),
            final(ids).upcoming() == (old(ids).upcoming() + 1) % zone_id_count(),
    {
        let id = ZoneId(ids.next);
        ids.next = ids.next.wrapping_add(1);
        id
    }

    /// The number of the id.
    pub fn value(&self) -> (r: u32)
        ensures
            r == self.number(),
    {
        self.0
    }
}

/// The number of the id that the source gives after `calls` further calls.
pub open spec fn upcoming_after(start: int, calls: nat) -> int
    decreases calls,
{
    if calls == 0 {
        start
    } else {
        (upcoming_after(start, (calls - 1) as nat) + 1) % zone_id_count()
    }
}

proof fn lemma_upcoming_after(start: int, calls: nat)
    requires
        0 <= start < zone_id_count(),
    ensures
        upcoming_after(start, calls) == (start + calls) % zone_id_count(),
    decreases calls,
{
    if calls > 0 {
        lemma_upcoming_after(start, (calls - 1) as nat);
    }
}

/// Zone ids are unique: no two calls give the same one, as long as fewer calls lie between them
/// than there are ids.
pub proof fn zone_ids_are_unique(start: int, first: nat, second: nat)
    requires
        0 <= start < zone_id_count(),
        first < second < first + zone_id_count(),
    ensures
        upcoming_after(start, first) != upcoming_after(start, second),
{
    lemma_upcoming_after(start, first);
    lemma_upcoming_after(start, second);
}

/// The stream properties.
#[derive(Debug, PartialEq, Eq)]
pub struct StreamProperties {
    pub id: Option<String>,
    pub position: Option<(i32, i32)>,
    pub size: (i32, i32),
    pub source_type: SourceType,
}

impl Default for StreamProperties {
    fn default() -> (r: Self)
        ensures
            r == (StreamProperties {
                id: None,
                position: None,
                size: (0, 0),
                source_type: SourceType::Monitor,
            }),
    {
        StreamProperties { id: None, position: None, size: (0, 0), source_type: SourceType::Monitor }
    }
}

/// A PipeWire stream.
#[derive(Debug, PartialEq, Eq)]
pub struct Stream(pub u32, pub StreamProperties);

/// A running screen cast.
#[derive(Debug)]
pub struct CastThread<K> {
    /// The node that the cast feeds.
    pub node_id: u32,
    /// The thread that feeds it.
    pub thread: K,
}

/// Where the cursor is.
#[derive(Debug, PartialEq, Eq)]
pub struct CursorPosition<C> {
    pub x: C,
    pub y: C,
}

impl<C: Copy> Clone for CursorPosition<C> {
    fn clone(&self) -> (r: Self)
        ensures
            r == *self,
    {
        *self
    }
}

impl<C: Copy> Copy for CursorPosition<C> {

}

/// A part of the desktop.
#[derive(Debug, Clone, Copy, PartialEq, Eq, Structural)]
pub struct Zone {
    pub width: u32,
    pub height: u32,
    pub x_offset: i32,
    pub y_offset: i32,
}

/// A session that has been started.
pub struct RemoteSessionData<P: Desktop> {
    pub session_handle: String,
    pub cast_thread: Option<CastThread<P::Cast>>,
    pub remote_control: P::Control,
    pub zones: Vec<Zone>,
    pub zone_id: ZoneId,
    pub barriers: Vec<P::Barrier>,
    pub authorization: RemoteAuthorization,
    pub persist_mode: PersistMode,
    pub cursor: CursorPosition<P::Coord>,
    pub activation_id: u32,
}

/// What has to be stopped when a session ends, and whom to tell.
pub struct Stopping<P: Desktop> {
    pub remote_control: P::Control,
    pub cast_thread: Option<CastThread<P::Cast>>,
    pub message: EisServerMsg<P::Listener>,
}

/// Whether input moves the cursor from `before` to `after`. A coordinate and a distance are put
/// together by `plus`.
pub open spec fn cursor_moves<C, F: Fn(C, C) -> C>(
    event: InputRequest<C>,
    plus: F,
    before: CursorPosition<C>,
    after: CursorPosition<C>,
) -> bool {
    match event {
        InputRequest::PointerMotionAbsolute { x, y } => after == (CursorPosition { x, y }),
        InputRequest::PointerMotion { dx, dy } => {
            &&& call_ensures(plus, (before.x, dx), after.x)
            &&& call_ensures(plus, (before.y, dy), after.y)
        },
        _ => after == before,
    }
}

impl<P: Desktop> RemoteSessionData<P> {
    /// A session that has just been started.
    pub fn new(
        session_handle: String,
        cast_thread: Option<CastThread<P::Cast>>,
        remote_control: P::Control,
        zones: Vec<Zone>,
        authorization: RemoteAuthorization,
        persist_mode: PersistMode,
        ids: &mut ZoneIds,
    ) -> (r: Self)
        ensures
            r.session_handle == session_handle,
            r.cast_thread == cast_thread,
            r.remote_control == remote_control,
            r.zones == zones,
            r.zone_id.number() == old(ids).upcoming(),
            final(ids).upcoming() == (old(ids).upcoming() + 1) % zone_id_count(),
            r.barriers@ == Seq::<P::Barrier>::empty(),
            r.authorization == authorization,
            r.persist_mode == persist_mode,
            call_ensures(<P::Coord as Default>::default, (), r.cursor.x),
            call_ensures(<P::Coord as Default>::default, (), r.cursor.y),
            r.activation_id == 0,
    {
        RemoteSessionData {
            session_handle,
            cast_thread,
            remote_control,
            zones,
            zone_id: ZoneId::unique(ids),
            barriers: Vec::new(),
            authorization,
            persist_mode,
            cursor: CursorPosition { x: P::Coord::default(), y: P::Coord::default() },
            activation_id: 0,
        }
    }

    /// Goes on to the next activation.
    pub fn step(&mut self)
        requires
            old(self).activation_id < u32::MAX,
        ensures
            *final(self) == (RemoteSessionData {
                activation_id: (old(self).activation_id + 1) as u32,
                ..*old(self)
            }),
    {
        self.activation_id = self.activation_id + 1;
    }

    /// The current activation.
    pub fn activation_id(&self) -> (r: u32)
        ensures
            r == self.activation_id,
    {
        self.activation_id
    }

    /// Where the cursor is.
    pub fn cursor_position(&self) -> (r: CursorPosition<P::Coord>)
        ensures
            r == self.cursor,
    {
        self.cursor
    }

    /// The devices that the client may use.
    pub fn devices(&self) -> (r: BitFlags<DeviceType>)
        ensures
            r == self.authorization.devices,
    {
        self.authorization.devices
    }

    /// Follows the cursor. `plus` adds a distance to a coordinate.
    pub fn update_cursor<F: Fn(P::Coord, P::Coord) -> P::Coord>(
        &mut self,
        event: InputRequest<P::Coord>,
        plus: &F,
    )
        requires
            forall|a: P::Coord, b: P::Coord| call_requires(*plus, (a, b)),
        ensures
            *final(self) == (RemoteSessionData { cursor: final(self).cursor, ..*old(self) }),
            cursor_moves(event, *plus, old(self).cursor, final(self).cursor),
    {
        match event {
            InputRequest::PointerMotionAbsolute { x, y } => {
                self.cursor = CursorPosition { x, y };
            },
            InputRequest::PointerMotion { dx, dy } => {
                let x = plus(self.cursor.x, dx);
                let y = plus(self.cursor.y, dy);
                self.cursor = CursorPosition { x, y };
            },
            _ => {},
        }
    }

    /// The streams of the session. Those of a session that already runs are given without their
    /// size.
    pub open spec fn running_streams(self) -> Seq<Stream> {
        match self.cast_thread {
            Some(cast_thread) => seq![
                Stream(
                    cast_thread.node_id,
                    StreamProperties {
                        id: None,
                        position: None,
                        size: (0, 0),
                        source_type: SourceType::Monitor,
                    },
                ),
            ],
            None => Seq::empty(),
        }
    }

    /// The streams of the session.
    pub fn streams(&self) -> (r: Vec<Stream>)
        ensures
            r@ == self.running_streams(),
    {
        let mut streams: Vec<Stream> = Vec::new();
        if let Some(cast_thread) = &self.cast_thread {
            streams.push(Stream(cast_thread.node_id, StreamProperties::default()));
        }
        assert(streams@ =~= self.running_streams());
        streams
    }

    /// What has to be stopped when the session ends, and the message that its listener is gone.
    pub fn stop(self) -> (r: Stopping<P>)
        ensures
            r.remote_control == self.remote_control,
            r.cast_thread == self.cast_thread,
            r.message == EisServerMsg::<P::Listener>::RemoveListener(self.session_handle),
    {
        Stopping {
            remote_control: self.remote_control,
            cast_thread: self.cast_thread,
            message: EisServerMsg::RemoveListener(self.session_handle),
        }
    }
}

/// The handles of started sessions, in their order.
pub open spec fn remote_handles<P: Desktop>(remotes: Seq<RemoteSessionData<P>>) -> Seq<Seq<char>> {
    remotes.map_values(|remote: RemoteSessionData<P>| remote.session_handle@)
}

/// The place of the first started session whose handle is `handle`.
pub fn remote_position<P: Desktop>(remotes: &Vec<RemoteSessionData<P>>, handle: &str) -> (r: Option<
    usize,
>)
    ensures
        match r {
            Some(index) => remote_handles(remotes@).index_of_first(handle@) == Some(index as int)
                && index < remotes@.len(),
            None => remote_handles(remotes@).index_of_first(handle@) is None,
        },
{
    let ghost handles = remote_handles(remotes@);
    proof {
        handles.index_of_first_ensures(handle@);
    }
    let mut i: usize = 0;
    while i < remotes.len()
        invariant
            i <= remotes@.len(),
            handles == remote_handles(remotes@),
            forall|j: int| 0 <= j < i ==> handles[j] != handle@,
            match handles.index_of_first(handle@) {
                Some(index) => {
                    &&& 0 <= index < handles.len()
                    &&& handles[index] == handle@
                    &&& forall|j: int| 0 <= j < index < handles.len() ==> handles[j] != handle@
                },
                None => !handles.contains(handle@),
            },
        decreases remotes@.len() - i,
    {
        if same_text(remotes[i].session_handle.as_str(), handle) {
            assert(handles[i as int] == handle@);
            return Some(i);
        }
        i = i + 1;
    }
    None
}

/// Adds a started session behind the others.
pub fn append_remote_session<P: Desktop>(
    remotes: &mut Vec<RemoteSessionData<P>>,
    session: RemoteSessionData<P>,
)
    ensures
        final(remotes)@ == old(remotes)@.push(session),
{
    remotes.push(session)
}

/// Whether `removed` is the first of the started sessions `before` whose handle is `path`, and
/// `after` are the others in their order. Where there is none, nothing is removed.
pub open spec fn remote_removed<P: Desktop>(
    before: Seq<RemoteSessionData<P>>,
    path: Seq<char>,
    after: Seq<RemoteSessionData<P>>,
    removed: Option<RemoteSessionData<P>>,
) -> bool {
    match remote_handles(before).index_of_first(path) {
        Some(index) => {
            &&& 0 <= index < before.len()
            &&& removed == Some(before[index])
            &&& after == before.remove(index)
        },
        None => removed is None && after == before,
    }
}

/// Takes the first started session whose handle is `path` away from the others.
pub fn remove_remote_session<P: Desktop>(
    remotes: &mut Vec<RemoteSessionData<P>>,
    path: &str,
) -> (r: Option<RemoteSessionData<P>>)
    ensures
        remote_removed(old(remotes)@, path@, final(remotes)@, r),
{
    match remote_position(remotes, path) {
        Some(index) => Some(remotes.remove(index)),
        None => None,
    }
}

/// The message that has a session accept emulated-input clients.
pub fn enable_eis_listener<L>(session_handle: &HandlePath) -> (r: EisServerMsg<L>)
    ensures
        r matches EisServerMsg::ActiveListener(session) && session@ == session_handle@,
{
    EisServerMsg::ActiveListener(session_handle.to_text())
}

/// The message that has a session accept no more emulated-input clients.
pub fn disable_eis_listener<L>(session_handle: &HandlePath) -> (r: EisServerMsg<L>)
    ensures
        r matches EisServerMsg::StopListener(session) && session@ == session_handle@,
{
    EisServerMsg::StopListener(session_handle.to_text())
}

/// The session that performs a client's input; `None` where the client has no started session, and
/// an error where its grant does not cover the input.
pub open spec fn performer<P: Desktop>(
    remotes: Seq<RemoteSessionData<P>>,
    session_handle: Seq<char>,
    event: InputRequest<P::Coord>,
) -> Result<Option<int>, PortalError> {
    match remote_handles(remotes).index_of_first(session_handle) {
        Some(index) => if is_authorized(remotes[index].authorization.devices@, event) {
            Ok(Some(index))
        } else {
            Err(PortalError::InputNotAuthorized)
        },
        None => Ok(None),
    }
}

/// Whether input changes the started sessions from `before` to `after`: the cursor of the session
/// that performs it follows, and nothing else changes.
pub open spec fn input_changes<P: Desktop, F: Fn(P::Coord, P::Coord) -> P::Coord>(
    before: Seq<RemoteSessionData<P>>,
    after: Seq<RemoteSessionData<P>>,
    session_handle: Seq<char>,
    event: InputRequest<P::Coord>,
    plus: F,
) -> bool {
    match performer(before, session_handle, event) {
        Ok(Some(index)) => {
            &&& 0 <= index < before.len()
            &&& after == before.update(
                index,
                (RemoteSessionData { cursor: after[index].cursor, ..before[index] }),
            )
            &&& cursor_moves(event, plus, before[index].cursor, after[index].cursor)
        },
        _ => after == before,
    }
}

/// Input that has to be sent to the thread of a session.
pub struct Delivery<C> {
    /// The place of the session.
    pub index: usize,
    /// The input.
    pub request: InputRequest<C>,
}

/// Whether `r` says that `event` has to be sent to the session which performs it.
pub open spec fn delivers<P: Desktop>(
    remotes: Seq<RemoteSessionData<P>>,
    session_handle: Seq<char>,
    event: InputRequest<P::Coord>,
    r: Result<Option<Delivery<P::Coord>>, PortalError>,
) -> bool {
    match performer(remotes, session_handle, event) {
        Ok(Some(index)) => r matches Ok(Some(delivery)) && delivery.index == index
            && delivery.request == event,
        Ok(None) => r matches Ok(None),
        Err(error) => r == Err::<Option<Delivery<P::Coord>>, PortalError>(error),
    }
}

/// Takes input of a client: checks it against the client's grant, follows the cursor, and says
/// which session has to perform it. Input for a session that has not been started is dropped.
pub fn notify_input_event<P: Desktop, F: Fn(P::Coord, P::Coord) -> P::Coord>(
    remotes: &mut Vec<RemoteSessionData<P>>,
    session_handle: &HandlePath,
    event: InputRequest<P::Coord>,
    plus: &F,
) -> (r: Result<Option<Delivery<P::Coord>>, PortalError>)
    requires
        forall|a: P::Coord, b: P::Coord| call_requires(*plus, (a, b)),
    ensures
        delivers(old(remotes)@, session_handle@, event, r),
        input_changes(old(remotes)@, final(remotes)@, session_handle@, event, *plus),
{
    match remote_position(remotes, session_handle.as_str()) {
        Some(index) => {
            if !input_request_is_authorized(remotes[index].authorization.devices, &event) {
                return Err(PortalError::InputNotAuthorized);
            }
            remotes[index].update_cursor(event, plus);
            Ok(Some(Delivery { index, request: event }))
        },
        None => Ok(None),
    }
}

/// What a client is told once its input has been handed to the thread of its session, or could
/// not be.
pub fn delivery_result(sent: bool) -> (r: Result<(), PortalError>)
    ensures
        r == (if sent {
            Ok::<(), PortalError>(())
        } else {
            Err::<(), PortalError>(PortalError::SendFailed)
        }),
{
    if sent {
        Ok(())
    } else {
        Err(PortalError::SendFailed)
    }
}

/// Takes an event of an emulated-input client. One whose session handle is no object path, which
/// the grant of its session does not cover, or whose session has not been started, is dropped.
pub fn handle_input_event<P: Desktop, F: Fn(P::Coord, P::Coord) -> P::Coord>(
    remotes: &mut Vec<RemoteSessionData<P>>,
    event: InputEvent<P::Coord>,
    plus: &F,
) -> (r: Option<Delivery<P::Coord>>)
    requires
        forall|a: P::Coord, b: P::Coord| call_requires(*plus, (a, b)),
    ensures
        if is_object_path(handle_of(event)) {
            &&& match performer(old(remotes)@, handle_of(event), request_of(event)) {
                Ok(Some(index)) => r matches Some(delivery) && delivery.index == index
                    && delivery.request == request_of(event),
                _ => r is None,
            }
            &&& input_changes(
                old(remotes)@,
                final(remotes)@,
                handle_of(event),
                request_of(event),
                *plus,
            )
        } else {
            r is None && final(remotes)@ == old(remotes)@
        },
{
    let (session_handle, request) = request_from_event(event);
    match HandlePath::parse(session_handle) {
        Some(path) => match notify_input_event(remotes, &path, request, plus) {
            Ok(delivery) => delivery,
            Err(_) => None,
        },
        None => None,
    }
}

/// Input that the grant of its session does not cover reaches no session and changes nothing.
pub proof fn unauthorized_input_changes_nothing<
    P: Desktop,
    F: Fn(P::Coord, P::Coord) -> P::Coord,
>(
    before: Seq<RemoteSessionData<P>>,
    after: Seq<RemoteSessionData<P>>,
    session_handle: Seq<char>,
    event: InputRequest<P::Coord>,
    plus: F,
    r: Result<Option<Delivery<P::Coord>>, PortalError>,
)
    requires
        delivers(before, session_handle, event, r),
        input_changes(before, after, session_handle, event, plus),
        remote_handles(before).index_of_first(session_handle) matches Some(index) && !is_authorized(
            before[index].authorization.devices@,
            event,
        ),
    ensures
        r is Err,
        r->Err_0 == PortalError::InputNotAuthorized,
        after == before,
{
}

/// Input is delivered only to a session of the handle that it names, and only where the grant of
/// that session covers it.
pub proof fn delivered_input_is_authorized<P: Desktop>(
    remotes: Seq<RemoteSessionData<P>>,
    session_handle: Seq<char>,
    event: InputRequest<P::Coord>,
    r: Result<Option<Delivery<P::Coord>>, PortalError>,
)
    requires
        delivers(remotes, session_handle, event, r),
    ensures
        r matches Ok(Some(delivery)) ==> {
            &&& delivery.index < remotes.len()
            &&& remotes[delivery.index as int].session_handle@ == session_handle
            &&& is_authorized(remotes[delivery.index as int].authorization.devices@, event)
            &&& delivery.request == event
        },
{
    remote_handles(remotes).index_of_first_ensures(session_handle);
}

/// Input never changes which sessions there are, what they were granted, or any cursor but that
/// of the session which performs it.
pub proof fn input_keeps_grants<P: Desktop, F: Fn(P::Coord, P::Coord) -> P::Coord>(
    before: Seq<RemoteSessionData<P>>,
    after: Seq<RemoteSessionData<P>>,
    session_handle: Seq<char>,
    event: InputRequest<P::Coord>,
    plus: F,
    i: int,
)
    requires
        input_changes(before, after, session_handle, event, plus),
        0 <= i < before.len(),
    ensures
        after.len() == before.len(),
        after[i].session_handle == before[i].session_handle,
        after[i].authorization == before[i].authorization,
        remote_handles(before).index_of_first(session_handle) != Some(i) ==> after[i] == before[i],
{
}

/// A session that is started under a handle which no other has is the one found by that handle,
/// and removing it gives the sessions before it was started.
pub proof fn removing_undoes_appending<P: Desktop>(
    before: Seq<RemoteSessionData<P>>,
    session: RemoteSessionData<P>,
    after: Seq<RemoteSessionData<P>>,
    removed: Option<RemoteSessionData<P>>,
)
    requires
        !remote_handles(before).contains(session.session_handle@),
        remote_removed(before.push(session), session.session_handle@, after, removed),
    ensures
        removed == Some(session),
        after == before,
{
    let handles = remote_handles(before.push(session));
    handles.index_of_first_ensures(session.session_handle@);
    assert(handles[before.len() as int] == session.session_handle@);
    let index = handles.index_of_first(session.session_handle@)->0;
    if index < before.len() {
        assert(remote_handles(before)[index] == session.session_handle@);
    }
    assert(before.push(session).remove(before.len() as int) =~= before);
}

/// Where a handle names one started session, no input for that handle is delivered once the
/// session is removed.
pub proof fn removed_sessions_get_no_input<P: Desktop>(
    before: Seq<RemoteSessionData<P>>,
    path: Seq<char>,
    after: Seq<RemoteSessionData<P>>,
    removed: Option<RemoteSessionData<P>>,
    event: InputRequest<P::Coord>,
)
    requires
        remote_removed(before, path, after, removed),
        remote_handles(before).no_duplicates(),
    ensures
        performer(after, path, event) == Ok::<Option<int>, PortalError>(None),
        remote_handles(after).no_duplicates(),
{
    let handles = remote_handles(before);
    handles.index_of_first_ensures(path);
    remote_handles(after).index_of_first_ensures(path);
    if let Some(index) = handles.index_of_first(path) {
        assert(remote_handles(after) =~= handles.remove(index));
        if remote_handles(after).contains(path) {
            let j = choose|j: int|
                0 <= j < remote_handles(after).len() && remote_handles(after)[j] == path;
            if j < index {
                assert(handles[j] == path);
            } else {
                assert(handles[j + 1] == path);
            }
        }
    }
}

} // verus!
