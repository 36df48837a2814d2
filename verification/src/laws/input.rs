//! Input: who may make it, whom it reaches, and what it leaves behind.

use crate::backend::EisGrant;
use crate::backend::RemoteDesktopBackend;
use crate::eis_server::EisServerMsg;
use crate::error::PortalError;
use crate::flags::BitFlags;
use crate::input::input_request_device;
use crate::input::input_request_is_authorized;
use crate::input::request_from_event;
use crate::input::InputEvent;
use crate::input::InputRequest;
use crate::laws::sessions::first_remote;
use crate::laws::sessions::lemma_first_remote;
use crate::laws::sessions::no_remote;
use crate::path::is_object_path;
use crate::path::HandlePath;
use crate::remotedesktop::delivers;
use crate::remotedesktop::delivery_result;
use crate::remotedesktop::disable_eis_listener;
use crate::remotedesktop::enable_eis_listener;
use crate::remotedesktop::handle_input_event;
use crate::remotedesktop::input_changes;
use crate::remotedesktop::notify_input_event;
use crate::remotedesktop::CursorPosition;
use crate::remotedesktop::Delivery;
use crate::remotedesktop::Desktop;
use crate::remotedesktop::RemoteSessionData;
use crate::session::DeviceType;
use crate::variant::held_flag;
use crate::variant::option_bool;
use crate::variant::Options;
use vstd::prelude::*;

verus! {

/// Whether a request is made with a pointer.
pub open spec fn is_pointer_input<C>(event: InputRequest<C>) -> bool {
    event is PointerMotion || event is PointerMotionAbsolute || event is PointerButton
        || event is PointerAxis || event is PointerAxisDiscrete
}

/// Whether a request is made with a keyboard.
pub open spec fn is_keyboard_input<C>(event: InputRequest<C>) -> bool {
    event is KeyboardKeycode || event is KeyboardKeysym
}

/// Whether a request is made with a touch screen.
pub open spec fn is_touch_input<C>(event: InputRequest<C>) -> bool {
    event is TouchDown || event is TouchMotion || event is TouchUp
}

/// Whether the devices suffice for a request.
pub open spec fn suffice_for<C>(devices: Set<DeviceType>, event: InputRequest<C>) -> bool {
    &&& is_pointer_input(event) ==> devices.contains(DeviceType::Pointer)
    &&& is_keyboard_input(event) ==> devices.contains(DeviceType::Keyboard)
    &&& is_touch_input(event) ==> devices.contains(DeviceType::TouchScreen)
}

/// Each request needs the device that it is made with, and ending needs none.
pub proof fn requests_need_their_device<C>(event: &InputRequest<C>, r: Option<DeviceType>)
    requires
        call_ensures(input_request_device::<C>, (event,), r),
    ensures
        is_pointer_input(*event) <==> r == Some(DeviceType::Pointer),
        is_keyboard_input(*event) <==> r == Some(DeviceType::Keyboard),
        is_touch_input(*event) <==> r == Some(DeviceType::TouchScreen),
        *event is Exit <==> r is None,
{
}

/// A request is allowed just where the devices suffice for it.
pub proof fn requests_are_allowed_by_device<C>(
    devices: BitFlags<DeviceType>,
    event: &InputRequest<C>,
    r: bool,
)
    requires
        call_ensures(input_request_is_authorized::<C>, (devices, event), r),
    ensures
        r <==> suffice_for(devices@, *event),
{
}

/// An event is split into its session and a request with the same content.
pub proof fn events_keep_their_content<C>(event: InputEvent<C>, r: (String, InputRequest<C>))
    requires
        call_ensures(request_from_event::<C>, (event,), r),
    ensures
        event matches InputEvent::PointerMotion { session_handle, dx, dy } ==> r.0@
            == session_handle@ && r.1 == (InputRequest::PointerMotion { dx, dy }),
        event matches InputEvent::PointerMotionAbsolute { session_handle, x, y } ==> r.0@
            == session_handle@ && r.1 == (InputRequest::PointerMotionAbsolute { x, y }),
        event matches InputEvent::PointerButton { session_handle, button, state } ==> r.0@
            == session_handle@ && r.1 == (InputRequest::<C>::PointerButton { button, state }),
        event matches InputEvent::PointerAxis { session_handle, dx, dy } ==> r.0@
            == session_handle@ && r.1 == (InputRequest::PointerAxis { dx, dy, finish: false }),
        event matches InputEvent::PointerAxisDiscrete { session_handle, axis, steps } ==> r.0@
            == session_handle@ && r.1 == (InputRequest::<C>::PointerAxisDiscrete { axis, steps }),
        event matches InputEvent::KeyboardKeycode { session_handle, keycode, state } ==> r.0@
            == session_handle@ && r.1 == (InputRequest::<C>::KeyboardKeycode { keycode, state }),
        event matches InputEvent::TouchMotion { session_handle, slot, x, y } ==> r.0@
            == session_handle@ && r.1 == (InputRequest::TouchMotion { slot, x, y }),
        event matches InputEvent::TouchDown { session_handle, slot, x, y } ==> r.0@
            == session_handle@ && r.1 == (InputRequest::TouchDown { slot, x, y }),
        event matches InputEvent::TouchUp { session_handle, slot } ==> r.0@ == session_handle@
            && r.1 == (InputRequest::<C>::TouchUp { slot }),
{
}

/// Whether the cursor goes from `before` to `after` by a request: an absolute motion takes it
/// there, a relative one adds to it, and nothing else moves it.
pub open spec fn cursor_goes<C, F: Fn(C, C) -> C>(
    before: CursorPosition<C>,
    after: CursorPosition<C>,
    event: InputRequest<C>,
    plus: F,
) -> bool {
    &&& event matches InputRequest::PointerMotionAbsolute { x, y } ==> after.x == x && after.y == y
    &&& event matches InputRequest::PointerMotion { dx, dy } ==> call_ensures(
        plus,
        (before.x, dx),
        after.x,
    ) && call_ensures(plus, (before.y, dy), after.y)
    &&& !(event is PointerMotion) && !(event is PointerMotionAbsolute) ==> after == before
}

/// Whether two records of a started session differ in the cursor at most.
pub open spec fn same_but_cursor<P: Desktop>(
    before: RemoteSessionData<P>,
    after: RemoteSessionData<P>,
) -> bool {
    &&& after.session_handle == before.session_handle
    &&& after.cast_thread == before.cast_thread
    &&& after.remote_control == before.remote_control
    &&& after.zones == before.zones
    &&& after.zone_id == before.zone_id
    &&& after.barriers == before.barriers
    &&& after.authorization == before.authorization
    &&& after.persist_mode == before.persist_mode
    &&& after.activation_id == before.activation_id
}

/// Motions move the cursor, and nothing else of the session changes.
pub proof fn motions_move_the_cursor<P: Desktop, F: Fn(P::Coord, P::Coord) -> P::Coord>(
    session: &mut RemoteSessionData<P>,
    event: InputRequest<P::Coord>,
    plus: &F,
    seen: CursorPosition<P::Coord>,
)
    requires
        call_ensures(RemoteSessionData::<P>::update_cursor::<F>, (session, event, plus), ()),
        call_ensures(RemoteSessionData::<P>::cursor_position, (&*final(session),), seen),
    ensures
        same_but_cursor(*old(session), *final(session)),
        cursor_goes(old(session).cursor, seen, event, *plus),
        seen == final(session).cursor,
{
}

/// Whether every session but the one at `index` is the same before and after.
pub open spec fn others_stay<P: Desktop>(
    before: Seq<RemoteSessionData<P>>,
    after: Seq<RemoteSessionData<P>>,
    index: int,
) -> bool {
    &&& after.len() == before.len()
    &&& forall|i: int| 0 <= i < before.len() && i != index ==> #[trigger] after[i] == before[i]
}

/// Whether input of a client is taken as it should be. Where its handle names a started session
/// whose devices suffice, that session gets the very input, every time, and its cursor follows.
/// Where the devices do not suffice the client is told so. Where no session is named nothing
/// happens. No other session changes, and none where the input is not taken.
pub open spec fn input_is_taken<P: Desktop, F: Fn(P::Coord, P::Coord) -> P::Coord>(
    before: Seq<RemoteSessionData<P>>,
    after: Seq<RemoteSessionData<P>>,
    handle: Seq<char>,
    event: InputRequest<P::Coord>,
    plus: F,
    r: Result<Option<Delivery<P::Coord>>, PortalError>,
) -> bool {
    &&& forall|index: int| #[trigger]
        first_remote(before, handle, index) ==> if suffice_for(
            before[index].authorization.devices@,
            event,
        ) {
            &&& r matches Ok(Some(delivery)) && delivery.index == index && delivery.request == event
            &&& others_stay(before, after, index)
            &&& same_but_cursor(before[index], after[index])
            &&& cursor_goes(before[index].cursor, after[index].cursor, event, plus)
        } else {
            &&& r matches Err(error) && error is InputNotAuthorized
            &&& after == before
        }
    &&& no_remote(before, handle) ==> (r matches Ok(None)) && after == before
}

proof fn lemma_input_is_taken<P: Desktop, F: Fn(P::Coord, P::Coord) -> P::Coord>(
    before: Seq<RemoteSessionData<P>>,
    after: Seq<RemoteSessionData<P>>,
    handle: Seq<char>,
    event: InputRequest<P::Coord>,
    plus: F,
    r: Result<Option<Delivery<P::Coord>>, PortalError>,
)
    requires
        delivers(before, handle, event, r),
        input_changes(before, after, handle, event, plus),
    ensures
        input_is_taken(before, after, handle, event, plus, r),
{
    lemma_first_remote(before, handle);
}

/// Input of a client reaches its session just where it may.
pub proof fn input_reaches_its_session<P: Desktop, F: Fn(P::Coord, P::Coord) -> P::Coord>(
    remotes: &mut Vec<RemoteSessionData<P>>,
    session_handle: &HandlePath,
    event: InputRequest<P::Coord>,
    plus: &F,
    r: Result<Option<Delivery<P::Coord>>, PortalError>,
)
    requires
        call_ensures(
            notify_input_event::<P, F>,
            (remotes, session_handle, event, plus),
            r,
        ),
    ensures
        input_is_taken(old(remotes)@, final(remotes)@, session_handle@, event, *plus, r),
{
    lemma_input_is_taken(old(remotes)@, final(remotes)@, session_handle@, event, *plus, r);
}

/// A relative pointer motion is taken as input with the same distances.
pub proof fn relative_motions_are_taken<P: Desktop, F: Fn(P::Coord, P::Coord) -> P::Coord>(
    backend: &RemoteDesktopBackend,
    remotes: &mut Vec<RemoteSessionData<P>>,
    session_handle: &HandlePath,
    dx: P::Coord,
    dy: P::Coord,
    plus: &F,
    r: Result<Option<Delivery<P::Coord>>, PortalError>,
)
    requires
        call_ensures(
            RemoteDesktopBackend::notify_pointer_motion::<P, F>,
            (backend, remotes, session_handle, dx, dy, plus),
            r,
        ),
    ensures
        input_is_taken(
            old(remotes)@,
            final(remotes)@,
            session_handle@,
            (InputRequest::<P::Coord>::PointerMotion { dx, dy }),
            *plus,
            r,
        ),
{
    lemma_input_is_taken(
        old(remotes)@,
        final(remotes)@,
        session_handle@,
        InputRequest::<P::Coord>::PointerMotion { dx, dy },
        *plus,
        r,
    );
}

/// An absolute pointer motion is taken as input with the same coordinates.
pub proof fn absolute_motions_are_taken<P: Desktop, F: Fn(P::Coord, P::Coord) -> P::Coord>(
    backend: &RemoteDesktopBackend,
    remotes: &mut Vec<RemoteSessionData<P>>,
    session_handle: &HandlePath,
    x: P::Coord,
    y: P::Coord,
    plus: &F,
    r: Result<Option<Delivery<P::Coord>>, PortalError>,
)
    requires
        call_ensures(
            RemoteDesktopBackend::notify_pointer_motion_absolute::<P, F>,
            (backend, remotes, session_handle, x, y, plus),
            r,
        ),
    ensures
        input_is_taken(
            old(remotes)@,
            final(remotes)@,
            session_handle@,
            (InputRequest::<P::Coord>::PointerMotionAbsolute { x, y }),
            *plus,
            r,
        ),
{
    lemma_input_is_taken(
        old(remotes)@,
        final(remotes)@,
        session_handle@,
        InputRequest::<P::Coord>::PointerMotionAbsolute { x, y },
        *plus,
        r,
    );
}

/// A pointer button is taken as input with the same button and state, pressed or released.
pub proof fn buttons_are_taken<P: Desktop, F: Fn(P::Coord, P::Coord) -> P::Coord>(
    backend: &RemoteDesktopBackend,
    remotes: &mut Vec<RemoteSessionData<P>>,
    session_handle: &HandlePath,
    button: i32,
    state: u32,
    plus: &F,
    r: Result<Option<Delivery<P::Coord>>, PortalError>,
)
    requires
        call_ensures(
            RemoteDesktopBackend::notify_pointer_button::<P, F>,
            (backend, remotes, session_handle, button, state, plus),
            r,
        ),
    ensures
        input_is_taken(
            old(remotes)@,
            final(remotes)@,
            session_handle@,
            (InputRequest::<P::Coord>::PointerButton { button, state }),
            *plus,
            r,
        ),
{
    lemma_input_is_taken(
        old(remotes)@,
        final(remotes)@,
        session_handle@,
        InputRequest::<P::Coord>::PointerButton { button, state },
        *plus,
        r,
    );
}

/// Scrolling in steps is taken as input with the same axis and steps.
pub proof fn scroll_steps_are_taken<P: Desktop, F: Fn(P::Coord, P::Coord) -> P::Coord>(
    backend: &RemoteDesktopBackend,
    remotes: &mut Vec<RemoteSessionData<P>>,
    session_handle: &HandlePath,
    axis: u32,
    steps: i32,
    plus: &F,
    r: Result<Option<Delivery<P::Coord>>, PortalError>,
)
    requires
        call_ensures(
            RemoteDesktopBackend::notify_pointer_axis_discrete::<P, F>,
            (backend, remotes, session_handle, axis, steps, plus),
            r,
        ),
    ensures
        input_is_taken(
            old(remotes)@,
            final(remotes)@,
            session_handle@,
            (InputRequest::<P::Coord>::PointerAxisDiscrete { axis, steps }),
            *plus,
            r,
        ),
{
    lemma_input_is_taken(
        old(remotes)@,
        final(remotes)@,
        session_handle@,
        InputRequest::<P::Coord>::PointerAxisDiscrete { axis, steps },
        *plus,
        r,
    );
}

/// A key code is taken as input with the same code and state, pressed or released.
pub proof fn keycodes_are_taken<P: Desktop, F: Fn(P::Coord, P::Coord) -> P::Coord>(
    backend: &RemoteDesktopBackend,
    remotes: &mut Vec<RemoteSessionData<P>>,
    session_handle: &HandlePath,
    keycode: i32,
    state: u32,
    plus: &F,
    r: Result<Option<Delivery<P::Coord>>, PortalError>,
)
    requires
        call_ensures(
            RemoteDesktopBackend::notify_keyboard_keycode::<P, F>,
            (backend, remotes, session_handle, keycode, state, plus),
            r,
        ),
    ensures
        input_is_taken(
            old(remotes)@,
            final(remotes)@,
            session_handle@,
            (InputRequest::<P::Coord>::KeyboardKeycode { keycode, state }),
            *plus,
            r,
        ),
{
    lemma_input_is_taken(
        old(remotes)@,
        final(remotes)@,
        session_handle@,
        InputRequest::<P::Coord>::KeyboardKeycode { keycode, state },
        *plus,
        r,
    );
}

/// A key symbol is taken as input with the same symbol and state, pressed or released.
pub proof fn keysyms_are_taken<P: Desktop, F: Fn(P::Coord, P::Coord) -> P::Coord>(
    backend: &RemoteDesktopBackend,
    remotes: &mut Vec<RemoteSessionData<P>>,
    session_handle: &HandlePath,
    keysym: i32,
    state: u32,
    plus: &F,
    r: Result<Option<Delivery<P::Coord>>, PortalError>,
)
    requires
        call_ensures(
            RemoteDesktopBackend::notify_keyboard_keysym::<P, F>,
            (backend, remotes, session_handle, keysym, state, plus),
            r,
        ),
    ensures
        input_is_taken(
            old(remotes)@,
            final(remotes)@,
            session_handle@,
            (InputRequest::<P::Coord>::KeyboardKeysym { keysym, state }),
            *plus,
            r,
        ),
{
    lemma_input_is_taken(
        old(remotes)@,
        final(remotes)@,
        session_handle@,
        InputRequest::<P::Coord>::KeyboardKeysym { keysym, state },
        *plus,
        r,
    );
}

/// A new touch point is taken as input with the same slot and coordinates.
pub proof fn new_touches_are_taken<P: Desktop, F: Fn(P::Coord, P::Coord) -> P::Coord>(
    backend: &RemoteDesktopBackend,
    remotes: &mut Vec<RemoteSessionData<P>>,
    session_handle: &HandlePath,
    slot: u32,
    x: P::Coord,
    y: P::Coord,
    plus: &F,
    r: Result<Option<Delivery<P::Coord>>, PortalError>,
)
    requires
        call_ensures(
            RemoteDesktopBackend::notify_touch_down::<P, F>,
            (backend, remotes, session_handle, slot, x, y, plus),
            r,
        ),
    ensures
        input_is_taken(
            old(remotes)@,
            final(remotes)@,
            session_handle@,
            (InputRequest::<P::Coord>::TouchDown { slot, x, y }),
            *plus,
            r,
        ),
{
    lemma_input_is_taken(
        old(remotes)@,
        final(remotes)@,
        session_handle@,
        InputRequest::<P::Coord>::TouchDown { slot, x, y },
        *plus,
        r,
    );
}

/// A moved touch point is taken as input with the same slot and coordinates.
pub proof fn moved_touches_are_taken<P: Desktop, F: Fn(P::Coord, P::Coord) -> P::Coord>(
    backend: &RemoteDesktopBackend,
    remotes: &mut Vec<RemoteSessionData<P>>,
    session_handle: &HandlePath,
    slot: u32,
    x: P::Coord,
    y: P::Coord,
    plus: &F,
    r: Result<Option<Delivery<P::Coord>>, PortalError>,
)
    requires
        call_ensures(
            RemoteDesktopBackend::notify_touch_motion::<P, F>,
            (backend, remotes, session_handle, slot, x, y, plus),
            r,
        ),
    ensures
        input_is_taken(
            old(remotes)@,
            final(remotes)@,
            session_handle@,
            (InputRequest::<P::Coord>::TouchMotion { slot, x, y }),
            *plus,
            r,
        ),
{
    lemma_input_is_taken(
        old(remotes)@,
        final(remotes)@,
        session_handle@,
        InputRequest::<P::Coord>::TouchMotion { slot, x, y },
        *plus,
        r,
    );
}

/// The end of a touch point is taken as input with the same slot.
pub proof fn ended_touches_are_taken<P: Desktop, F: Fn(P::Coord, P::Coord) -> P::Coord>(
    backend: &RemoteDesktopBackend,
    remotes: &mut Vec<RemoteSessionData<P>>,
    session_handle: &HandlePath,
    slot: u32,
    plus: &F,
    r: Result<Option<Delivery<P::Coord>>, PortalError>,
)
    requires
        call_ensures(
            RemoteDesktopBackend::notify_touch_up::<P, F>,
            (backend, remotes, session_handle, slot, plus),
            r,
        ),
    ensures
        input_is_taken(
            old(remotes)@,
            final(remotes)@,
            session_handle@,
            (InputRequest::<P::Coord>::TouchUp { slot }),
            *plus,
            r,
        ),
{
    lemma_input_is_taken(
        old(remotes)@,
        final(remotes)@,
        session_handle@,
        InputRequest::<P::Coord>::TouchUp { slot },
        *plus,
        r,
    );
}

/// Smooth scrolling is taken as input with the same distances. It ends where the option `finish` is
/// given and holds true.
pub proof fn smooth_scrolling_is_taken<P: Desktop, F: Fn(P::Coord, P::Coord) -> P::Coord>(
    backend: &RemoteDesktopBackend,
    remotes: &mut Vec<RemoteSessionData<P>>,
    session_handle: &HandlePath,
    options: &Options,
    dx: P::Coord,
    dy: P::Coord,
    plus: &F,
    r: Result<Option<Delivery<P::Coord>>, PortalError>,
)
    requires
        call_ensures(
            RemoteDesktopBackend::notify_pointer_axis::<P, F>,
            (backend, remotes, session_handle, options, dx, dy, plus),
            r,
        ),
    ensures
        input_is_taken(
            old(remotes)@,
            final(remotes)@,
            session_handle@,
            (InputRequest::<P::Coord>::PointerAxis { dx, dy, finish: options@.contains_key("finish"@) && held_flag(options@["finish"@]) == Some(true) }),
            *plus,
            r,
        ),
{
    lemma_input_is_taken(
        old(remotes)@,
        final(remotes)@,
        session_handle@,
        InputRequest::<P::Coord>::PointerAxis { dx, dy, finish: options@.contains_key("finish"@) && held_flag(options@["finish"@]) == Some(true) },
        *plus,
        r,
    );
}

/// An event of an emulated-input client reaches the session that it names just where it may. One
/// that names no object path reaches nobody.
pub proof fn emulated_input_reaches_its_session<
    P: Desktop,
    F: Fn(P::Coord, P::Coord) -> P::Coord,
>(
    remotes: &mut Vec<RemoteSessionData<P>>,
    event: InputEvent<P::Coord>,
    plus: &F,
    r: Option<Delivery<P::Coord>>,
    split: (String, InputRequest<P::Coord>),
    index: int,
)
    requires
        call_ensures(handle_input_event::<P, F>, (remotes, event, plus), r),
        call_ensures(request_from_event::<P::Coord>, (event,), split),
    ensures
        !is_object_path(split.0@) ==> r is None && final(remotes)@ == old(remotes)@,
        no_remote(old(remotes)@, split.0@) ==> r is None && final(remotes)@ == old(remotes)@,
        is_object_path(split.0@) && first_remote(old(remotes)@, split.0@, index) ==> {
            let before = old(remotes)@[index];
            if suffice_for(before.authorization.devices@, split.1) {
                &&& r matches Some(delivery) && delivery.index == index && delivery.request
                    == split.1
                &&& others_stay(old(remotes)@, final(remotes)@, index)
                &&& same_but_cursor(before, final(remotes)@[index])
                &&& cursor_goes(before.cursor, final(remotes)@[index].cursor, split.1, *plus)
            } else {
                r is None && final(remotes)@ == old(remotes)@
            }
        },
{
    lemma_first_remote(old(remotes)@, split.0@);
}

/// A client is told that its input could not be sent just where it could not.
pub proof fn failed_sends_are_told(sent: bool, r: Result<(), PortalError>)
    requires
        call_ensures(delivery_result, (sent,), r),
    ensures
        sent <==> r is Ok,
        r matches Err(error) ==> error is SendFailed,
{
}

/// An option counts as set where it is given and holds true.
pub proof fn options_are_set_by_true(options: &Options, key: &str, r: bool)
    requires
        call_ensures(option_bool, (options, key), r),
    ensures
        !options@.contains_key(key@) ==> !r,
        options@.contains_key(key@) ==> (r <==> held_flag(options@[key@]) == Some(true)),
{
}

/// Only a started session lets emulated-input clients connect, and only with its own devices.
pub proof fn emulated_input_needs_a_started_session<P: Desktop>(
    backend: &RemoteDesktopBackend,
    remotes: &Vec<RemoteSessionData<P>>,
    session_handle: &HandlePath,
    r: Result<EisGrant, PortalError>,
    index: int,
)
    requires
        call_ensures(
            RemoteDesktopBackend::connect_to_eis::<P>,
            (backend, remotes, session_handle),
            r,
        ),
    ensures
        no_remote(remotes@, session_handle@) ==> (r matches Err(error) && error is NotStarted),
        first_remote(remotes@, session_handle@, index) ==> (r matches Ok(grant) && {
            &&& grant.session_handle@ == session_handle@
            &&& grant.devices@ == remotes@[index].authorization.devices@
        }),
{
    lemma_first_remote(remotes@, session_handle@);
}

/// The server is told the listener, the session and the devices of the grant.
pub proof fn grants_are_passed_to_the_server<L>(grant: EisGrant, listener: L, r: EisServerMsg<L>)
    requires
        call_ensures(EisGrant::message::<L>, (grant, listener), r),
    ensures
        r matches EisServerMsg::NewListener(passed, session, devices) && passed == listener
            && session@ == grant.session_handle@ && devices@ == grant.devices@,
{
}

/// Enabling and disabling name the session that they are for.
pub proof fn listeners_are_switched_by_session<L>(
    session_handle: &HandlePath,
    on: EisServerMsg<L>,
    off: EisServerMsg<L>,
)
    requires
        call_ensures(enable_eis_listener::<L>, (session_handle,), on),
        call_ensures(disable_eis_listener::<L>, (session_handle,), off),
    ensures
        on matches EisServerMsg::ActiveListener(session) && session@ == session_handle@,
        off matches EisServerMsg::StopListener(session) && session@ == session_handle@,
{
}

/// The interface offers all three devices in its second version.
pub proof fn all_devices_are_offered(backend: &RemoteDesktopBackend, version: u32, bits: u32)
    requires
        call_ensures(RemoteDesktopBackend::version, (backend,), version),
        call_ensures(RemoteDesktopBackend::available_device_types, (backend,), bits),
    ensures
        version == 2,
        bits == 1 + 2 + 4,
{
}

} // verus!
