//! Input events, and which device each belongs to.
//!
//! Coordinates are carried without being looked at: `C` is their type.

use crate::flags::BitFlags;
use crate::session::DeviceType;
use vstd::prelude::*;

verus! {

/// Input that the remote-control thread performs.
#[derive(Debug, PartialEq, Eq)]
pub enum InputRequest<C> {
    PointerMotion { dx: C, dy: C },
    PointerMotionAbsolute { x: C, y: C },
    PointerButton { button: i32, state: u32 },
    PointerAxis { dx: C, dy: C, finish: bool },
    PointerAxisDiscrete { axis: u32, steps: i32 },
    KeyboardKeycode { keycode: i32, state: u32 },
    KeyboardKeysym { keysym: i32, state: u32 },
    TouchMotion { slot: u32, x: C, y: C },
    TouchDown { slot: u32, x: C, y: C },
    TouchUp { slot: u32 },
    Exit,
}

impl<C: Copy> Clone for InputRequest<C> {
    fn clone(&self) -> (r: Self)
        ensures
            r == *self,
    {
        *self
    }
}

impl<C: Copy> Copy for InputRequest<C> {

}

/// The device that performs a request; `None` where none is needed.
pub open spec fn device_of<C>(event: InputRequest<C>) -> Option<DeviceType> {
    match event {
        InputRequest::PointerMotion { .. }
        | InputRequest::PointerMotionAbsolute { .. }
        | InputRequest::PointerButton { .. }
        | InputRequest::PointerAxis { .. }
        | InputRequest::PointerAxisDiscrete { .. } => Some(DeviceType::Pointer),
        InputRequest::KeyboardKeycode { .. } | InputRequest::KeyboardKeysym { .. } => Some(
            DeviceType::Keyboard,
        ),
        InputRequest::TouchMotion { .. }
        | InputRequest::TouchDown { .. }
        | InputRequest::TouchUp { .. } => Some(DeviceType::TouchScreen),
        InputRequest::Exit => None,
    }
}

/// The device that performs a request; `None` where none is needed.
pub fn input_request_device<C>(event: &InputRequest<C>) -> (r: Option<DeviceType>)
    ensures
        r == device_of(*event),
{
    match event {
        InputRequest::PointerMotion { .. }
        | InputRequest::PointerMotionAbsolute { .. }
        | InputRequest::PointerButton { .. }
        | InputRequest::PointerAxis { .. }
        | InputRequest::PointerAxisDiscrete { .. } => Some(DeviceType::Pointer),
        InputRequest::KeyboardKeycode { .. } | InputRequest::KeyboardKeysym { .. } => Some(
            DeviceType::Keyboard,
        ),
        InputRequest::TouchMotion { .. }
        | InputRequest::TouchDown { .. }
        | InputRequest::TouchUp { .. } => Some(DeviceType::TouchScreen),
        InputRequest::Exit => None,
    }
}

/// Whether a client that may use `devices` may make the request.
pub open spec fn is_authorized<C>(devices: Set<DeviceType>, event: InputRequest<C>) -> bool {
    match device_of(event) {
        Some(device) => devices.contains(device),
        None => true,
    }
}

/// Whether a client that may use `devices` may make the request.
pub fn input_request_is_authorized<C>(
    devices: BitFlags<DeviceType>,
    event: &InputRequest<C>,
) -> (r: bool)
    ensures
        r == is_authorized(devices@, *event),
{
    match input_request_device(event) {
        Some(device) => devices.contains(device),
        None => true,
    }
}

/// Input that arrives from an emulated-input client of a session.
#[derive(Debug, PartialEq, Eq)]
pub enum InputEvent<C> {
    PointerMotion { session_handle: String, dx: C, dy: C },
    PointerMotionAbsolute { session_handle: String, x: C, y: C },
    PointerButton { session_handle: String, button: i32, state: u32 },
    PointerAxis { session_handle: String, dx: C, dy: C },
    PointerAxisDiscrete { session_handle: String, axis: u32, steps: i32 },
    KeyboardKeycode { session_handle: String, keycode: i32, state: u32 },
    TouchMotion { session_handle: String, slot: u32, x: C, y: C },
    TouchDown { session_handle: String, slot: u32, x: C, y: C },
    TouchUp { session_handle: String, slot: u32 },
}

/// The session that an event belongs to.
pub open spec fn handle_of<C>(event: InputEvent<C>) -> Seq<char> {
    match event {
        InputEvent::PointerMotion { session_handle, .. } => session_handle@,
        InputEvent::PointerMotionAbsolute { session_handle, .. } => session_handle@,
        InputEvent::PointerButton { session_handle, .. } => session_handle@,
        InputEvent::PointerAxis { session_handle, .. } => session_handle@,
        InputEvent::PointerAxisDiscrete { session_handle, .. } => session_handle@,
        InputEvent::KeyboardKeycode { session_handle, .. } => session_handle@,
        InputEvent::TouchMotion { session_handle, .. } => session_handle@,
        InputEvent::TouchDown { session_handle, .. } => session_handle@,
        InputEvent::TouchUp { session_handle, .. } => session_handle@,
    }
}

/// The request that an event makes. Scrolling never ends by such an event.
pub open spec fn request_of<C>(event: InputEvent<C>) -> InputRequest<C> {
    match event {
        InputEvent::PointerMotion { dx, dy, .. } => InputRequest::PointerMotion { dx, dy },
        InputEvent::PointerMotionAbsolute { x, y, .. } => InputRequest::PointerMotionAbsolute {
            x,
            y,
        },
        InputEvent::PointerButton { button, state, .. } => InputRequest::PointerButton {
            button,
            state,
        },
        InputEvent::PointerAxis { dx, dy, .. } => InputRequest::PointerAxis {
            dx,
            dy,
            finish: false,
        },
        InputEvent::PointerAxisDiscrete { axis, steps, .. } => InputRequest::PointerAxisDiscrete {
            axis,
            steps,
        },
        InputEvent::KeyboardKeycode { keycode, state, .. } => InputRequest::KeyboardKeycode {
            keycode,
            state,
        },
        InputEvent::TouchMotion { slot, x, y, .. } => InputRequest::TouchMotion { slot, x, y },
        InputEvent::TouchDown { slot, x, y, .. } => InputRequest::TouchDown { slot, x, y },
        InputEvent::TouchUp { slot, .. } => InputRequest::TouchUp { slot },
    }
}

/// Splits an event into its session and its request.
pub fn request_from_event<C>(event: InputEvent<C>) -> (r: (String, InputRequest<C>))
    ensures
        r.0@ == handle_of(event),
        r.1 == request_of(event),
{
    match event {
        InputEvent::PointerMotion { session_handle, dx, dy } => (
            session_handle,
            InputRequest::PointerMotion { dx, dy },
        ),
        InputEvent::PointerMotionAbsolute { session_handle, x, y } => (
            session_handle,
            InputRequest::PointerMotionAbsolute { x, y },
        ),
        InputEvent::PointerButton { session_handle, button, state } => (
            session_handle,
            InputRequest::PointerButton { button, state },
        ),
        InputEvent::PointerAxis { session_handle, dx, dy } => (
            session_handle,
            InputRequest::PointerAxis { dx, dy, finish: false },
        ),
        InputEvent::PointerAxisDiscrete { session_handle, axis, steps } => (
            session_handle,
            InputRequest::PointerAxisDiscrete { axis, steps },
        ),
        InputEvent::KeyboardKeycode { session_handle, keycode, state } => (
            session_handle,
            InputRequest::KeyboardKeycode { keycode, state },
        ),
        InputEvent::TouchDown { session_handle, slot, x, y } => (
            session_handle,
            InputRequest::TouchDown { slot, x, y },
        ),
        InputEvent::TouchMotion { session_handle, slot, x, y } => (
            session_handle,
            InputRequest::TouchMotion { slot, x, y },
        ),
        InputEvent::TouchUp { session_handle, slot } => (
            session_handle,
            InputRequest::TouchUp { slot },
        ),
    }
}

/// Every event of an emulated-input client needs a device: none passes unchecked.
pub proof fn every_event_needs_a_device<C>(event: InputEvent<C>, devices: Set<DeviceType>)
    ensures
        device_of(request_of(event)) is Some,
        devices == Set::<DeviceType>::empty() ==> !is_authorized(devices, request_of(event)),
{
}

/// A client that may use more devices may make every request that it could make before.
pub proof fn more_devices_allow_more<C>(
    fewer: Set<DeviceType>,
    more: Set<DeviceType>,
    event: InputRequest<C>,
)
    requires
        fewer.subset_of(more),
        is_authorized(fewer, event),
    ensures
        is_authorized(more, event),
{
}

} // verus!
