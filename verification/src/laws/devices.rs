//! Emulated input: what a client is offered, which devices it has, what its requests make, and
//! which listener a message is about.

use crate::eis_server::device_capabilities;
use crate::eis_server::handle_new_connection;
use crate::eis_server::input_events;
use crate::eis_server::action_views;
use crate::eis_server::input_of;
use crate::eis_server::start;
use crate::eis_server::ClientConnection;
use crate::eis_server::Clients;
use crate::eis_server::ContextState;
use crate::eis_server::ContextType;
use crate::eis_server::ContextView;
use crate::eis_server::DeviceAction;
use crate::eis_server::DeviceCapability;
use crate::eis_server::DeviceSlot;
use crate::eis_server::EisRequest;
use crate::eis_server::EisRequestSourceEvent;
use crate::eis_server::EisServerMsg;
use crate::eis_server::ListenerAction;
use crate::eis_server::PostAction;
use crate::eis_server::Reaction;
use crate::eis_server::SEAT_NAME;
use crate::flags::BitFlags;
use crate::input::request_of;
use crate::input::InputEvent;
use crate::laws::outputs::signed;
use crate::session::DeviceType;
use vstd::prelude::*;

verus! {

/// Whether a capability is one of a pointer.
pub open spec fn of_a_pointer(capability: DeviceCapability) -> bool {
    capability is Pointer || capability is PointerAbsolute || capability is Button
        || capability is Scroll
}

/// Whether a client that may use `devices` may have a capability.
pub open spec fn may_have(devices: Set<DeviceType>, capability: DeviceCapability) -> bool {
    &&& !(capability is Text)
    &&& capability is Keyboard ==> devices.contains(DeviceType::Keyboard)
    &&& of_a_pointer(capability) ==> devices.contains(DeviceType::Pointer)
    &&& capability is Touch ==> devices.contains(DeviceType::TouchScreen)
}

/// A client is offered the capabilities of its devices and no others.
pub proof fn clients_are_offered_what_they_may_have(
    devices: BitFlags<DeviceType>,
    r: BitFlags<DeviceCapability>,
    capability: DeviceCapability,
)
    requires
        call_ensures(device_capabilities, (devices,), r),
    ensures
        r@.contains(capability) <==> may_have(devices@, capability),
{
}

/// Whether the device in a slot has a capability.
pub open spec fn slot_has(
    state: ContextState,
    slot: DeviceSlot,
    capability: DeviceCapability,
) -> bool {
    match slot {
        DeviceSlot::Keyboard => state.device_keyboard && capability is Keyboard,
        DeviceSlot::Pointer => state.device_pointer && state.pointer_capabilities@.contains(
            capability,
        ),
        DeviceSlot::Touch => state.device_touch && capability is Touch,
    }
}

/// Whether there is a device in a slot.
pub open spec fn slot_taken(state: ContextState, slot: DeviceSlot) -> bool {
    match slot {
        DeviceSlot::Keyboard => state.device_keyboard,
        DeviceSlot::Pointer => state.device_pointer,
        DeviceSlot::Touch => state.device_touch,
    }
}

/// Whether there is a pointer just where it can do something.
pub open spec fn pointer_is_settled(state: ContextState) -> bool {
    state.device_pointer <==> exists|c: DeviceCapability| state.pointer_capabilities@.contains(c)
}

/// A new connection has no devices and may have the capabilities of `devices`.
pub proof fn new_connections_have_no_devices(
    devices: BitFlags<DeviceType>,
    r: ContextState,
    slot: DeviceSlot,
    capability: DeviceCapability,
)
    requires
        call_ensures(ContextState::new, (devices,), r),
    ensures
        r.capabilities@.contains(capability) <==> may_have(devices@, capability),
        !slot_taken(r, slot),
        !r.pointer_capabilities@.contains(capability),
        pointer_is_settled(r),
        r.sequence == 0,
{
}

/// After a client has bound to capabilities, its devices have just those that it asked for and may
/// have; each belongs to the device that it is of.
pub proof fn bound_devices_have_what_was_asked_for<C>(
    state: &mut ContextState,
    context_type: ContextType,
    request: &EisRequest<C>,
    r: (PostAction, Vec<DeviceAction>),
    capability: DeviceCapability,
)
    requires
        call_ensures(ContextState::handle_request::<C>, (state, context_type, request), r),
        *request is Bind,
        pointer_is_settled(*old(state)),
    ensures
        r.0 is Continue,
        final(state).capabilities@ == old(state).capabilities@,
        pointer_is_settled(*final(state)),
        slot_has(*final(state), DeviceSlot::Keyboard, capability) <==> capability is Keyboard
            && request->capabilities@.contains(capability) && old(state).capabilities@.contains(
            capability,
        ),
        slot_has(*final(state), DeviceSlot::Pointer, capability) <==> of_a_pointer(capability)
            && request->capabilities@.contains(capability) && old(state).capabilities@.contains(
            capability,
        ),
        slot_has(*final(state), DeviceSlot::Touch, capability) <==> capability is Touch
            && request->capabilities@.contains(capability) && old(state).capabilities@.contains(
            capability,
        ),
        final(state).pointer_capabilities@.contains(capability) ==> final(state).device_pointer,
{
    let asked = request->capabilities@.intersect(old(state).capabilities@);
    let pointer = final(state).pointer_capabilities@;
    assert forall|c: DeviceCapability| pointer.contains(c) <==> asked.contains(c) && of_a_pointer(
        c,
    ) by {}
    if pointer =~= Set::<DeviceCapability>::empty() {
        assert(forall|c: DeviceCapability| !pointer.contains(c));
    } else {
        let c = choose|c: DeviceCapability| pointer.contains(c);
        assert(pointer.contains(c));
    }
    if exists|c: DeviceCapability| old(state).pointer_capabilities@.contains(c) {
        assert(old(state).pointer_capabilities@ != Set::<DeviceCapability>::empty());
    } else {
        assert(old(state).pointer_capabilities@ =~= Set::<DeviceCapability>::empty());
    }
}

/// The slot that an action is about.
pub open spec fn slot_of(action: DeviceAction) -> DeviceSlot {
    match action {
        DeviceAction::Remove { slot } => slot,
        DeviceAction::Add { slot, .. } => slot,
    }
}

/// The order in which slots are settled.
pub open spec fn rank(slot: DeviceSlot) -> int {
    match slot {
        DeviceSlot::Keyboard => 0,
        DeviceSlot::Pointer => 1,
        DeviceSlot::Touch => 2,
    }
}

/// Where the actions of a bind come from: keyboard, pointer and touch, in this order.
proof fn lemma_action_at(
    before: ContextView,
    requested: Set<DeviceCapability>,
    context_type: ContextType,
    actions: Seq<DeviceAction>,
    i: int,
)
    requires
        action_views(actions) == before.bind_actions(requested, context_type),
        0 <= i < actions.len(),
    ensures
        ({
            let keyboard = before.keyboard_actions(requested, context_type);
            let pointer = before.pointer_actions(requested, context_type);
            let touch = before.touch_actions(requested, context_type);
            let n = keyboard.len() as int;
            let m = n + pointer.len();
            &&& actions.len() == m + touch.len()
            &&& i < n ==> actions[i]@ == keyboard[i]
            &&& n <= i < m ==> actions[i]@ == pointer[i - n]
            &&& m <= i ==> actions[i]@ == touch[i - m]
        }),
{
    let views = action_views(actions);
    assert(views.len() == actions.len());
    assert(views[i] == actions[i]@);
}

/// A device is removed only where there is one, and added only where there is none any more.
#[verifier::spinoff_prover]
#[verifier::rlimit(30)]
pub proof fn devices_are_removed_before_they_are_added<C>(
    state: &mut ContextState,
    context_type: ContextType,
    request: &EisRequest<C>,
    r: (PostAction, Vec<DeviceAction>),
    i: int,
)
    requires
        call_ensures(ContextState::handle_request::<C>, (state, context_type, request), r),
        *request is Bind,
        pointer_is_settled(*old(state)),
        0 <= i < r.1@.len(),
    ensures
        r.1@[i] is Remove ==> slot_taken(*old(state), slot_of(r.1@[i])),
        r.1@[i] is Add ==> slot_taken(*final(state), slot_of(r.1@[i])),
        r.1@[i] is Add && slot_taken(*old(state), slot_of(r.1@[i])) ==> i > 0 && r.1@[i
            - 1] is Remove && slot_of(r.1@[i - 1]) == slot_of(r.1@[i]),
{
    let requested = request->capabilities@;
    let before = old(state)@;
    lemma_settled(*old(state));
    lemma_action_at(before, requested, context_type, r.1@, i);
    let keyboard = before.keyboard_actions(requested, context_type);
    let pointer = before.pointer_actions(requested, context_type);
    let n = keyboard.len() as int;
    let m = n + pointer.len();
    assert(final(state)@ == before.bound(requested, context_type));
    if i < n {
        assert(i == 0);
        assert(slot_of(r.1@[i]) is Keyboard);
    } else if i < m {
        assert(slot_of(r.1@[i]) is Pointer);
        assert(pointer.len() <= 2);
        if i > n {
            assert(i == n + 1);
            lemma_action_at(before, requested, context_type, r.1@, i - 1);
            assert(r.1@[i - 1]@ == pointer[0]);
            assert(slot_of(r.1@[i - 1]) is Pointer);
        }
    } else {
        assert(slot_of(r.1@[i]) is Touch);
    }
}

/// A keyboard and a touch device are added as such, and a pointer with the capabilities that it has
/// then.
#[verifier::spinoff_prover]
#[verifier::rlimit(30)]
pub proof fn devices_are_added_with_their_capabilities<C>(
    state: &mut ContextState,
    context_type: ContextType,
    request: &EisRequest<C>,
    r: (PostAction, Vec<DeviceAction>),
    i: int,
)
    requires
        call_ensures(ContextState::handle_request::<C>, (state, context_type, request), r),
        *request is Bind,
        0 <= i < r.1@.len(),
    ensures
        r.1@[i] matches DeviceAction::Add { slot, capabilities, .. } ==> {
            &&& slot is Keyboard ==> capabilities@ == Set::empty().insert(
                DeviceCapability::Keyboard,
            )
            &&& slot is Pointer ==> capabilities@ == final(state).pointer_capabilities@
            &&& slot is Touch ==> capabilities@ == Set::empty().insert(DeviceCapability::Touch)
        },
{
    let requested = request->capabilities@;
    let before = old(state)@;
    lemma_action_at(before, requested, context_type, r.1@, i);
    assert(final(state)@ == before.bound(requested, context_type));
}

proof fn lemma_settled(state: ContextState)
    requires
        pointer_is_settled(state),
    ensures
        state.device_pointer <==> state.pointer_capabilities@ != Set::<DeviceCapability>::empty(),
{
    if exists|c: DeviceCapability| state.pointer_capabilities@.contains(c) {
        assert(state.pointer_capabilities@ != Set::<DeviceCapability>::empty());
    } else {
        assert(state.pointer_capabilities@ =~= Set::<DeviceCapability>::empty());
    }
}

/// The keyboard is settled first, then the pointer, then the touch device; and what is about the
/// same slot is its removal, then its addition.
#[verifier::spinoff_prover]
pub proof fn devices_are_settled_in_order<C>(
    state: &mut ContextState,
    context_type: ContextType,
    request: &EisRequest<C>,
    r: (PostAction, Vec<DeviceAction>),
    i: int,
    j: int,
)
    requires
        call_ensures(ContextState::handle_request::<C>, (state, context_type, request), r),
        *request is Bind,
        0 <= i < j < r.1@.len(),
    ensures
        rank(slot_of(r.1@[i])) <= rank(slot_of(r.1@[j])),
        slot_of(r.1@[i]) == slot_of(r.1@[j]) ==> r.1@[i] is Remove && r.1@[j] is Add,
{
    let requested = request->capabilities@;
    lemma_action_at(old(state)@, requested, context_type, r.1@, i);
    lemma_action_at(old(state)@, requested, context_type, r.1@, j);
}

/// Whether one of the actions adds a device to the slot.
pub open spec fn adds_to(actions: Seq<DeviceAction>, slot: DeviceSlot) -> bool {
    exists|k: int| 0 <= k < actions.len() && #[trigger] actions[k] is Add && slot_of(actions[k])
        == slot
}

/// Whether one of the actions removes the device of the slot.
pub open spec fn removes_from(actions: Seq<DeviceAction>, slot: DeviceSlot) -> bool {
    exists|k: int| 0 <= k < actions.len() && #[trigger] actions[k] is Remove && slot_of(
        actions[k],
    ) == slot
}

/// A device is added just where its slot is filled or its capabilities change, and removed just
/// where its slot is emptied or its capabilities change. One that stays as it is is left alone.
#[verifier::spinoff_prover]
pub proof fn every_change_has_its_action<C>(
    state: &mut ContextState,
    context_type: ContextType,
    request: &EisRequest<C>,
    r: (PostAction, Vec<DeviceAction>),
    slot: DeviceSlot,
)
    requires
        call_ensures(ContextState::handle_request::<C>, (state, context_type, request), r),
        *request is Bind,
        pointer_is_settled(*old(state)),
    ensures
        adds_to(r.1@, slot) <==> slot_taken(*final(state), slot) && (!slot_taken(*old(state), slot)
            || (slot is Pointer && final(state).pointer_capabilities@
            != old(state).pointer_capabilities@)),
        removes_from(r.1@, slot) <==> slot_taken(*old(state), slot) && (!slot_taken(
            *final(state),
            slot,
        ) || (slot is Pointer && final(state).pointer_capabilities@
            != old(state).pointer_capabilities@)),
{
    let requested = request->capabilities@;
    let before = old(state)@;
    let keyboard = before.keyboard_actions(requested, context_type);
    let pointer = before.pointer_actions(requested, context_type);
    let touch = before.touch_actions(requested, context_type);
    let n = keyboard.len() as int;
    let m = n + pointer.len();
    lemma_settled(*old(state));
    assert(action_views(r.1@).len() == r.1@.len());
    assert(r.1@.len() == m + touch.len());
    assert forall|k: int| 0 <= k < r.1@.len() implies {
        &&& k < n ==> (#[trigger] r.1@[k])@ == keyboard[k]
        &&& n <= k < m ==> r.1@[k]@ == pointer[k - n]
        &&& m <= k ==> r.1@[k]@ == touch[k - m]
    } by {
        lemma_action_at(before, requested, context_type, r.1@, k);
    }
    match slot {
        DeviceSlot::Keyboard => {
            if n > 0 {
                assert(r.1@[0]@ == keyboard[0]);
            }
        },
        DeviceSlot::Pointer => {
            if n < m {
                assert(r.1@[n]@ == pointer[0]);
                assert(r.1@[m - 1]@ == pointer[m - 1 - n]);
            }
        },
        DeviceSlot::Touch => {
            if m < r.1@.len() {
                assert(r.1@[m]@ == touch[0]);
            }
        },
    }
}

/// A client that binds while it has no devices gets devices whose capabilities together are those
/// that it asked for and may have.
pub proof fn first_bindings_add_all_that_was_asked_for<C>(
    devices: BitFlags<DeviceType>,
    fresh: ContextState,
    state: &mut ContextState,
    context_type: ContextType,
    request: &EisRequest<C>,
    r: (PostAction, Vec<DeviceAction>),
    capability: DeviceCapability,
)
    requires
        call_ensures(ContextState::new, (devices,), fresh),
        *old(state) == fresh,
        call_ensures(ContextState::handle_request::<C>, (state, context_type, request), r),
        *request is Bind,
    ensures
        (exists|k: int|
            0 <= k < r.1@.len() && #[trigger] r.1@[k] is Add
                && r.1@[k]->capabilities@.contains(capability))
            <==> request->capabilities@.contains(capability) && may_have(devices@, capability),
{
    let kb = DeviceSlot::Keyboard;
    let pt = DeviceSlot::Pointer;
    let tc = DeviceSlot::Touch;
    new_connections_have_no_devices(devices, fresh, kb, capability);
    assert forall|c: DeviceCapability| !fresh.pointer_capabilities@.contains(c) by {
        new_connections_have_no_devices(devices, fresh, kb, c);
    }
    bound_devices_have_what_was_asked_for(state, context_type, request, r, capability);
    bound_devices_have_what_was_asked_for(
        state,
        context_type,
        request,
        r,
        DeviceCapability::Keyboard,
    );
    bound_devices_have_what_was_asked_for(state, context_type, request, r, DeviceCapability::Touch);
    every_change_has_its_action(state, context_type, request, r, kb);
    every_change_has_its_action(state, context_type, request, r, pt);
    every_change_has_its_action(state, context_type, request, r, tc);
    assert forall|k: int| 0 <= k < r.1@.len() && #[trigger] r.1@[k] is Add implies (
    r.1@[k]->capabilities@.contains(capability) <==> slot_has(
        *final(state),
        slot_of(r.1@[k]),
        capability,
    )) by {
        devices_are_added_with_their_capabilities(state, context_type, request, r, k);
        devices_are_removed_before_they_are_added(state, context_type, request, r, k);
    }
    if slot_has(*final(state), kb, capability) {
        let k = choose|k: int|
            0 <= k < r.1@.len() && #[trigger] r.1@[k] is Add && slot_of(r.1@[k]) == kb;
        assert(r.1@[k] is Add);
    }
    if slot_has(*final(state), pt, capability) {
        let k = choose|k: int|
            0 <= k < r.1@.len() && #[trigger] r.1@[k] is Add && slot_of(r.1@[k]) == pt;
        assert(r.1@[k] is Add);
    }
    if slot_has(*final(state), tc, capability) {
        let k = choose|k: int|
            0 <= k < r.1@.len() && #[trigger] r.1@[k] is Add && slot_of(r.1@[k]) == tc;
        assert(r.1@[k] is Add);
    }
}

/// The number under which an action has a device start emulating.
pub open spec fn started_under(action: DeviceAction) -> Option<u32> {
    match action {
        DeviceAction::Add { start_emulating, .. } => start_emulating,
        DeviceAction::Remove { .. } => None,
    }
}

/// Where the client receives input, every device that is added starts emulating under the next
/// number. Where it sends input none does, and the numbers stay.
pub proof fn added_devices_are_numbered<C>(
    state: &mut ContextState,
    context_type: ContextType,
    request: &EisRequest<C>,
    r: (PostAction, Vec<DeviceAction>),
    i: int,
    j: int,
)
    requires
        call_ensures(ContextState::handle_request::<C>, (state, context_type, request), r),
        *request is Bind,
    ensures
        context_type is Sender ==> final(state).sequence == old(state).sequence,
        context_type is Sender && 0 <= i < r.1@.len() ==> started_under(r.1@[i]) is None,
        context_type is Receiver && 0 <= i < r.1@.len() && r.1@[i] is Add ==> started_under(
            r.1@[i],
        ) is Some,
        context_type is Receiver && 0 <= i < r.1@.len() && r.1@[i] is Add && (forall|k: int|
            0 <= k < i ==> #[trigger] r.1@[k] is Remove) ==> started_under(r.1@[i])->0 == old(state).sequence + 1,
        context_type is Receiver && 0 <= i < j < r.1@.len() && r.1@[i] is Add && r.1@[j] is Add && (
        forall|k: int| i < k < j ==> #[trigger] r.1@[k] is Remove) ==> started_under(r.1@[j])->0
            == started_under(r.1@[i])->0 + 1,
        context_type is Receiver && 0 <= i < r.1@.len() && r.1@[i] is Add && (forall|k: int|
            i < k < r.1@.len() ==> #[trigger] r.1@[k] is Remove) ==> final(state).sequence
            == started_under(r.1@[i])->0,
        (forall|k: int| 0 <= k < r.1@.len() ==> #[trigger] r.1@[k] is Remove) ==> final(state).sequence == old(state).sequence,
{
    let views = action_views(r.1@);
    let requested = request->capabilities@;
    let before = old(state)@;
    let keyboard = before.keyboard_actions(requested, context_type);
    let pointer = before.pointer_actions(requested, context_type);
    let touch = before.touch_actions(requested, context_type);
    assert(views == keyboard + pointer + touch);
    assert(keyboard.len() <= 1 && pointer.len() <= 2 && touch.len() <= 1);
    assert(forall|k: int| 0 <= k < r.1@.len() ==> views[k] == (#[trigger] r.1@[k])@);
    let n = keyboard.len() as int;
    let m = n + pointer.len();
    if keyboard.len() == 1 {
        assert(views[0] == keyboard[0] && views[0] == r.1@[0]@);
    }
    if pointer.len() > 0 {
        assert(views[n] == pointer[0] && views[n] == r.1@[n]@);
        if pointer.len() == 2 {
            assert(views[n + 1] == pointer[1] && views[n + 1] == r.1@[n + 1]@);
        }
    }
    if touch.len() == 1 {
        assert(views[m] == touch[0] && views[m] == r.1@[m]@);
    }
    if 0 <= i < r.1@.len() {
        assert(views[i] == r.1@[i]@);
    }
    if 0 <= j < r.1@.len() {
        assert(views[j] == r.1@[j]@);
    }
}

/// A request other than binding leaves the devices as they are, and only disconnecting ends the
/// connection.
pub proof fn other_requests_leave_the_devices<C>(
    state: &mut ContextState,
    context_type: ContextType,
    request: &EisRequest<C>,
    r: (PostAction, Vec<DeviceAction>),
    slot: DeviceSlot,
    capability: DeviceCapability,
)
    requires
        call_ensures(ContextState::handle_request::<C>, (state, context_type, request), r),
        !(*request is Bind),
    ensures
        r.0 is Remove <==> *request is Disconnect,
        r.1@.len() == 0,
        final(state).capabilities@ == old(state).capabilities@,
        slot_taken(*final(state), slot) == slot_taken(*old(state), slot),
        slot_has(*final(state), slot, capability) == slot_has(*old(state), slot, capability),
        final(state).pointer_capabilities@ == old(state).pointer_capabilities@,
        final(state).sequence == old(state).sequence,
{
    assert(action_views(r.1@).len() == r.1@.len());
}

/// What the input of a request is, event by event.
pub open spec fn makes<C>(
    request: EisRequest<C>,
    events: Seq<InputEvent<C>>,
    session: Seq<char>,
) -> bool {
    match request {
        EisRequest::PointerMotion { dx, dy } => events.len() == 1 && (
        events[0] matches InputEvent::PointerMotion { session_handle, dx: x, dy: y }
            && session_handle@ == session && x == dx && y == dy),
        EisRequest::PointerMotionAbsolute { dx_absolute, dy_absolute } => events.len() == 1 && (
        events[0] matches InputEvent::PointerMotionAbsolute { session_handle, x, y }
            && session_handle@ == session && x == dx_absolute && y == dy_absolute),
        EisRequest::Button { button, state } => events.len() == 1 && (
        events[0] matches InputEvent::PointerButton { session_handle, button: b, state: s }
            && session_handle@ == session && b == signed(button) && (s == 1 <==> state is Press) && (
        s == 0 <==> state is Released)),
        EisRequest::ScrollDelta { dx, dy } => events.len() == 1 && (
        events[0] matches InputEvent::PointerAxis { session_handle, dx: x, dy: y }
            && session_handle@ == session && x == dx && y == dy),
        EisRequest::ScrollDiscrete { discrete_dx, discrete_dy } => {
            let horizontal: int = if discrete_dx != 0 {
                1
            } else {
                0
            };
            let vertical: int = if discrete_dy != 0 {
                1
            } else {
                0
            };
            &&& events.len() == horizontal + vertical
            &&& discrete_dx != 0 ==> (
            events[0] matches InputEvent::PointerAxisDiscrete { session_handle, axis, steps }
                && session_handle@ == session && axis == 1 && steps == discrete_dx)
            &&& discrete_dy != 0 ==> (
            events[horizontal] matches InputEvent::PointerAxisDiscrete {
                session_handle,
                axis,
                steps,
            } && session_handle@ == session && axis == 0 && steps == discrete_dy)
        },
        EisRequest::KeyboardKey { key, state } => events.len() == 1 && (
        events[0] matches InputEvent::KeyboardKeycode { session_handle, keycode, state: s }
            && session_handle@ == session && keycode == signed(key) && (s == 1 <==> state is Press)
            && (s == 0 <==> state is Released)),
        EisRequest::TouchDown { touch_id, x, y } => events.len() == 1 && (
        events[0] matches InputEvent::TouchDown { session_handle, slot, x: a, y: b }
            && session_handle@ == session && slot == touch_id && a == x && b == y),
        EisRequest::TouchMotion { touch_id, x, y } => events.len() == 1 && (
        events[0] matches InputEvent::TouchMotion { session_handle, slot, x: a, y: b }
            && session_handle@ == session && slot == touch_id && a == x && b == y),
        EisRequest::TouchUp { touch_id } => events.len() == 1 && (
        events[0] matches InputEvent::TouchUp { session_handle, slot } && session_handle@ == session
            && slot == touch_id),
        EisRequest::Disconnect | EisRequest::Bind { .. } | EisRequest::Other => events.len() == 0,
    }
}

proof fn lemma_makes<C>(request: EisRequest<C>, events: Seq<InputEvent<C>>, session: Seq<char>)
    requires
        crate::eis_server::are_input_of(events, request, session),
    ensures
        makes(request, events, session),
{
    let requests = events.map_values(|event: InputEvent<C>| request_of(event));
    assert(requests == input_of(request));
    assert(requests.len() == events.len());
    assert(forall|i: int| 0 <= i < events.len() ==> requests[i] == request_of(#[trigger] events[i]));
    if events.len() > 0 {
        assert(requests[0] == request_of(events[0]));
    }
    if events.len() > 1 {
        assert(requests[1] == request_of(events[1]));
    }
    match request {
        EisRequest::Button { button, .. } => {
            assert(button >= 0x8000_0000 ==> (button as i32) == button - 0x1_0000_0000)
                by (bit_vector);
        },
        EisRequest::KeyboardKey { key, .. } => {
            assert(key >= 0x8000_0000 ==> (key as i32) == key - 0x1_0000_0000) by (bit_vector);
        },
        _ => {},
    }
}

/// A request makes input with its own content, on behalf of the session. Buttons and keys are
/// pressed by one and released by zero. Scrolling in steps makes one input for each axis that
/// moves, the horizontal one first; other requests make none.
pub proof fn requests_make_their_input<C: Copy>(
    request: &EisRequest<C>,
    session_handle: &str,
    r: Vec<InputEvent<C>>,
)
    requires
        call_ensures(input_events::<C>, (request, session_handle), r),
    ensures
        makes(*request, r@, session_handle@),
{
    lemma_makes(*request, r@, session_handle@);
}

/// Requests that make input and differ make different input: nothing is mixed up, above all no
/// press with a release.
pub proof fn different_requests_make_different_input<C: Copy>(
    first: &EisRequest<C>,
    second: &EisRequest<C>,
    session_handle: &str,
    from_first: Vec<InputEvent<C>>,
    from_second: Vec<InputEvent<C>>,
)
    requires
        call_ensures(input_events::<C>, (first, session_handle), from_first),
        call_ensures(input_events::<C>, (second, session_handle), from_second),
        *first != *second,
        from_first@.len() > 0,
    ensures
        from_first@ != from_second@,
{
    lemma_makes(*first, from_first@, session_handle@);
    lemma_makes(*second, from_second@, session_handle@);
}

/// A finished handshake is answered with a seat of all that the client may have, and changes
/// nothing.
pub proof fn connected_clients_get_a_seat<C: Copy>(
    state: &mut ContextState,
    context_type: ContextType,
    event: &EisRequestSourceEvent<C>,
    session_handle: &str,
    r: Reaction<C>,
    capability: DeviceCapability,
)
    requires
        call_ensures(
            ContextState::handle_request_source_event::<C>,
            (state, context_type, event, session_handle),
            r,
        ),
        *event is Connected,
    ensures
        r.add_seat matches Some(offered) && (offered@.contains(capability) <==> old(state).capabilities@.contains(capability)),
        r.events@.len() == 0,
        r.actions@.len() == 0,
        r.flush,
        r.post_action is Continue,
        final(state).capabilities@ == old(state).capabilities@,
        final(state).device_keyboard == old(state).device_keyboard,
        final(state).device_pointer == old(state).device_pointer,
        final(state).pointer_capabilities@ == old(state).pointer_capabilities@,
        final(state).device_touch == old(state).device_touch,
        final(state).sequence == old(state).sequence,
{
}

/// What has to be done about a request is what handling it asks for, and its input. What has been
/// written is sent unless the client disconnects.
pub proof fn requests_are_answered<C: Copy>(
    state: &mut ContextState,
    twin: &mut ContextState,
    context_type: ContextType,
    event: &EisRequestSourceEvent<C>,
    request: &EisRequest<C>,
    session_handle: &str,
    r: Reaction<C>,
    handled: (PostAction, Vec<DeviceAction>),
    i: int,
)
    requires
        call_ensures(
            ContextState::handle_request_source_event::<C>,
            (state, context_type, event, session_handle),
            r,
        ),
        *event == EisRequestSourceEvent::Request(*request),
        old(twin)@ == old(state)@,
        call_ensures(ContextState::handle_request::<C>, (twin, context_type, request), handled),
    ensures
        r.add_seat is None,
        makes(*request, r.events@, session_handle@),
        r.post_action == handled.0,
        r.post_action is Remove <==> *request is Disconnect,
        r.flush <==> !(*request is Disconnect),
        r.actions@.len() == handled.1@.len(),
        0 <= i < r.actions@.len() ==> r.actions@[i]@ == handled.1@[i]@,
        final(state)@ == final(twin)@,
{
    lemma_makes(*request, r.events@, session_handle@);
    let mine = action_views(r.actions@);
    let theirs = action_views(handled.1@);
    assert(mine == theirs);
    assert(mine.len() == r.actions@.len() && theirs.len() == handled.1@.len());
    if 0 <= i < r.actions@.len() {
        assert(mine[i] == r.actions@[i]@ && theirs[i] == handled.1@[i]@);
    }
}

/// Device actions look the same where they are: for the same slot, and where a device is added,
/// with the same capabilities and the same number.
pub proof fn actions_are_told_apart(a: DeviceAction, b: DeviceAction)
    requires
        a@ == b@,
    ensures
        slot_of(a) == slot_of(b),
        a is Add <==> b is Add,
        started_under(a) == started_under(b),
        a matches DeviceAction::Add { capabilities, .. } ==> (
        b matches DeviceAction::Add { capabilities: others, .. } && capabilities@ == others@),
{
}

/// Connections that look the same have the same devices.
pub proof fn connections_are_told_apart(a: ContextState, b: ContextState, slot: DeviceSlot)
    requires
        a@ == b@,
    ensures
        a.capabilities@ == b.capabilities@,
        slot_taken(a, slot) == slot_taken(b, slot),
        a.pointer_capabilities@ == b.pointer_capabilities@,
        a.sequence == b.sequence,
{
}

/// A new connection acts for the session and within the devices of its listener.
pub proof fn new_connections_act_for_their_listener(
    session_handle: String,
    devices: BitFlags<DeviceType>,
    r: ClientConnection,
    slot: DeviceSlot,
    capability: DeviceCapability,
)
    requires
        call_ensures(handle_new_connection, (session_handle, devices), r),
    ensures
        r.session_handle@ == session_handle@,
        r.context.capabilities@.contains(capability) <==> may_have(devices@, capability),
        !slot_taken(r.context, slot),
        !r.context.pointer_capabilities@.contains(capability),
        r.context.sequence == 0,
{
}

/// An error ends the connection and does nothing else.
pub proof fn errors_end_connections<C: Copy, E>(
    connection: &mut ClientConnection,
    context_type: ContextType,
    report: &Result<EisRequestSourceEvent<C>, E>,
    r: Reaction<C>,
)
    requires
        call_ensures(
            ClientConnection::handle_report::<C, E>,
            (connection, context_type, report),
            r,
        ),
        *report is Err,
    ensures
        r.post_action is Remove,
        !r.flush,
        r.add_seat is None,
        r.events@.len() == 0,
        r.actions@.len() == 0,
        final(connection).session_handle@ == old(connection).session_handle@,
        final(connection).context == old(connection).context,
{
}

/// A report of a client's request is handled for the session of the connection: its input is made
/// on behalf of that session, and only disconnecting ends it.
pub proof fn reports_are_handled_for_the_session<C: Copy, E>(
    connection: &mut ClientConnection,
    context_type: ContextType,
    report: &Result<EisRequestSourceEvent<C>, E>,
    r: Reaction<C>,
    request: EisRequest<C>,
)
    requires
        call_ensures(
            ClientConnection::handle_report::<C, E>,
            (connection, context_type, report),
            r,
        ),
        report matches Ok(event) && *event == EisRequestSourceEvent::Request(request),
    ensures
        final(connection).session_handle@ == old(connection).session_handle@,
        final(connection).context.capabilities@ == old(connection).context.capabilities@,
        makes(request, r.events@, old(connection).session_handle@),
        r.post_action is Remove <==> request is Disconnect,
        r.flush <==> !(request is Disconnect),
        r.add_seat is None,
{
    lemma_makes(request, r.events@, old(connection).session_handle@);
}

/// A report of an event does with the devices what handling the event on its own does.
pub proof fn reports_do_what_their_events_do<C: Copy, E>(
    connection: &mut ClientConnection,
    context_type: ContextType,
    report: &Result<EisRequestSourceEvent<C>, E>,
    r: Reaction<C>,
    twin: &mut ContextState,
    session_handle: &str,
    alone: Reaction<C>,
    i: int,
)
    requires
        *report is Ok,
        call_ensures(
            ClientConnection::handle_report::<C, E>,
            (connection, context_type, report),
            r,
        ),
        old(twin)@ == old(connection).context@,
        session_handle@ == old(connection).session_handle@,
        call_ensures(
            ContextState::handle_request_source_event::<C>,
            (twin, context_type, &report->Ok_0, session_handle),
            alone,
        ),
    ensures
        final(connection).context@ == final(twin)@,
        r.actions@.len() == alone.actions@.len(),
        0 <= i < r.actions@.len() ==> r.actions@[i]@ == alone.actions@[i]@,
        r.events@.len() == alone.events@.len(),
        r.flush == alone.flush,
        r.post_action == alone.post_action,
        r.add_seat is Some <==> alone.add_seat is Some,
        r.add_seat matches Some(offered) ==> offered@ == alone.add_seat->0@,
{
    let mine = action_views(r.actions@);
    let theirs = action_views(alone.actions@);
    assert(mine.len() == r.actions@.len() && theirs.len() == alone.actions@.len());
    if let EisRequestSourceEvent::Request(request) = report->Ok_0 {
        assert(mine == theirs);
        lemma_makes(request, r.events@, session_handle@);
        lemma_makes(request, alone.events@, session_handle@);
        if 0 <= i < r.actions@.len() {
            assert(mine[i] == r.actions@[i]@ && theirs[i] == alone.actions@[i]@);
        }
    }
}

/// Every client gets the seat of the same name.
pub proof fn seats_have_one_name()
    ensures
        SEAT_NAME@ == "default"@,
{
}

/// A finished handshake gives the client a seat of what its listener's devices are worth.
pub proof fn reported_handshakes_give_a_seat<C: Copy, E>(
    connection: &mut ClientConnection,
    context_type: ContextType,
    report: &Result<EisRequestSourceEvent<C>, E>,
    r: Reaction<C>,
    capability: DeviceCapability,
)
    requires
        call_ensures(
            ClientConnection::handle_report::<C, E>,
            (connection, context_type, report),
            r,
        ),
        report matches Ok(event) && event is Connected,
    ensures
        r.add_seat matches Some(offered) && (offered@.contains(capability) <==> old(connection).context.capabilities@.contains(capability)),
        r.events@.len() == 0,
        r.actions@.len() == 0,
        r.flush,
        r.post_action is Continue,
        final(connection).session_handle@ == old(connection).session_handle@,
{
}

/// What the pointer is to be able to do once a client has bound to `asked`.
pub open spec fn pointer_asked_for(
    asked: Set<DeviceCapability>,
    may: Set<DeviceCapability>,
) -> Set<DeviceCapability> {
    Set::new(|c: DeviceCapability| of_a_pointer(c) && asked.contains(c) && may.contains(c))
}

/// One where something holds.
pub open spec fn one_if(holds: bool) -> int {
    if holds {
        1
    } else {
        0
    }
}

/// Numbers are left for an event unless it is a bind of a receiving client, and the devices that it
/// would add count beyond the largest number.
pub proof fn numbers_are_left_for_what_is_added<C>(
    state: &ContextState,
    context_type: ContextType,
    event: &EisRequestSourceEvent<C>,
    r: bool,
)
    requires
        call_ensures(ContextState::has_numbers_for::<C>, (state, context_type, event), r),
    ensures
        context_type is Sender ==> r,
        *event is Connected ==> r,
        *event matches EisRequestSourceEvent::Request(request) ==> !(request is Bind) ==> r,
        context_type is Receiver ==> (*event matches EisRequestSourceEvent::Request(request) ==> (
        request matches EisRequest::Bind { capabilities } ==> {
            let may = state.capabilities@;
            let pointer = pointer_asked_for(capabilities@, may);
            let keyboard = capabilities@.contains(DeviceCapability::Keyboard) && may.contains(
                DeviceCapability::Keyboard,
            );
            let touch = capabilities@.contains(DeviceCapability::Touch) && may.contains(
                DeviceCapability::Touch,
            );
            r <==> state.sequence + one_if(keyboard && !state.device_keyboard) + one_if(
                pointer != state.pointer_capabilities@ && pointer != Set::<
                    DeviceCapability,
                >::empty(),
            ) + one_if(touch && !state.device_touch) <= u32::MAX
        })),
{
    if let EisRequestSourceEvent::Request(EisRequest::Bind { capabilities }) = *event {
        let pointer = pointer_asked_for(capabilities@, state.capabilities@);
        assert(pointer =~= state@.granted(capabilities@).intersect(
            crate::eis_server::pointer_group(),
        ));
    }
}

/// The server starts without listeners.
pub proof fn servers_start_without_listeners<T: Copy>(r: Clients<T>, session: Seq<char>)
    requires
        call_ensures(start::<T>, (), r) || call_ensures(Clients::<T>::new, (), r),
    ensures
        !r@.contains_key(session),
        r.history().len() == 0,
{
}

/// A registered listener is found under its session until another takes its place; those of other
/// sessions stay.
pub proof fn registered_listeners_are_found<T: Copy>(
    clients: &mut Clients<T>,
    session_handle: String,
    token: T,
    asked: &str,
    found: Option<T>,
    before: Option<T>,
)
    requires
        call_ensures(Clients::<T>::registered, (clients, session_handle, token), ()),
        call_ensures(Clients::<T>::token, (&*final(clients), asked), found),
        call_ensures(Clients::<T>::token, (&*old(clients), asked), before),
    ensures
        asked@ == session_handle@ ==> found == Some(token),
        asked@ != session_handle@ ==> found == before,
{
}

/// A message acts on the listener of the session that it names, if that has one: stopping disables
/// it, activating enables it, and removing removes it, so that it is not found any more. Without
/// one, nothing happens. A new listener is to be registered as it comes. Listeners of other
/// sessions stay.
pub proof fn messages_act_on_the_listener_they_name<L, T: Copy>(
    clients: &mut Clients<T>,
    message: EisServerMsg<L>,
    r: ListenerAction<L, T>,
    named: &str,
    token: Option<T>,
    asked: &str,
    before: Option<T>,
    after: Option<T>,
)
    requires
        call_ensures(Clients::<T>::handle_message::<L>, (clients, message), r),
        call_ensures(Clients::<T>::token, (&*old(clients), named), token),
        call_ensures(Clients::<T>::token, (&*old(clients), asked), before),
        call_ensures(Clients::<T>::token, (&*final(clients), asked), after),
    ensures
        message matches EisServerMsg::NewListener(listener, session, devices) ==> (
        r matches ListenerAction::Register { listener: passed, session_handle, devices: granted }
            && passed == listener && session_handle@ == session@ && granted@ == devices@),
        message matches EisServerMsg::StopListener(session) ==> session@ == named@ ==> match token {
            Some(token) => r == ListenerAction::<L, T>::Disable(token),
            None => r == ListenerAction::<L, T>::Ignore,
        },
        message matches EisServerMsg::ActiveListener(session) ==> session@ == named@
            ==> match token {
            Some(token) => r == ListenerAction::<L, T>::Enable(token),
            None => r == ListenerAction::<L, T>::Ignore,
        },
        message matches EisServerMsg::RemoveListener(session) ==> session@ == named@
            ==> match token {
            Some(token) => r == ListenerAction::<L, T>::Remove(token),
            None => r == ListenerAction::<L, T>::Ignore,
        },
        message matches EisServerMsg::RemoveListener(session) ==> session@ == asked@
            ==> after is None,
        !(message is RemoveListener) ==> after == before,
        message matches EisServerMsg::RemoveListener(session) ==> session@ != asked@ ==> after
            == before,
{
}

} // verus!
