//! The emulated-input server: which input devices a client gets, and what its requests turn into.

use crate::flags::BitFlag;
use crate::flags::BitFlags;
use crate::input::device_of;
use crate::input::handle_of;
use crate::input::is_authorized;
use crate::input::request_of;
use crate::input::InputEvent;
use crate::input::InputRequest;
use crate::session::DeviceType;
use vstd::hash_map::StringHashMap;
use vstd::prelude::*;

verus! {

/// What an emulated-input device can do.
#[derive(Debug, Clone, Copy, PartialEq, Eq, Structural)]
pub enum DeviceCapability {
    /// Relative pointer motion.
    Pointer,
    /// Absolute pointer motion.
    PointerAbsolute,
    /// Key presses.
    Keyboard,
    /// Touch points.
    Touch,
    /// Scrolling.
    Scroll,
    /// Pointer buttons.
    Button,
    /// Text.
    Text,
}

impl BitFlag for DeviceCapability {
    open spec fn mask(self) -> u32 {
        match self {
            DeviceCapability::Pointer => 1,
            DeviceCapability::PointerAbsolute => 2,
            DeviceCapability::Keyboard => 4,
            DeviceCapability::Touch => 8,
            DeviceCapability::Scroll => 16,
            DeviceCapability::Button => 32,
            DeviceCapability::Text => 64,
        }
    }

    open spec fn all_mask() -> u32 {
        127
    }

    fn bit(self) -> (bit: u32) {
        match self {
            DeviceCapability::Pointer => 1,
            DeviceCapability::PointerAbsolute => 2,
            DeviceCapability::Keyboard => 4,
            DeviceCapability::Touch => 8,
            DeviceCapability::Scroll => 16,
            DeviceCapability::Button => 32,
            DeviceCapability::Text => 64,
        }
    }

    fn all_bits() -> (bits: u32) {
        127
    }

    proof fn owns_one_known_bit(self) {
        let m = self.mask();
        assert(m != 0 && m & ((m - 1) as u32) == 0 && m & !127u32 == 0) by (bit_vector)
            requires
                m == 1 || m == 2 || m == 4 || m == 8 || m == 16 || m == 32 || m == 64,
        ;
    }

    proof fn owns_bit_alone(self, other: Self) {
        let m = self.mask();
        let n = other.mask();
        assert((m & n != 0) == (m == n)) by (bit_vector)
            requires
                m == 1 || m == 2 || m == 4 || m == 8 || m == 16 || m == 32 || m == 64,
                n == 1 || n == 2 || n == 4 || n == 8 || n == 16 || n == 32 || n == 64,
        ;
    }

    proof fn flags_fix_the_word(a: u32, b: u32) {
        assert((a & DeviceCapability::Pointer.mask() != 0) == (b & DeviceCapability::Pointer.mask()
            != 0));
        assert((a & DeviceCapability::PointerAbsolute.mask() != 0) == (b
            & DeviceCapability::PointerAbsolute.mask() != 0));
        assert((a & DeviceCapability::Keyboard.mask() != 0) == (b
            & DeviceCapability::Keyboard.mask() != 0));
        assert((a & DeviceCapability::Touch.mask() != 0) == (b & DeviceCapability::Touch.mask()
            != 0));
        assert((a & DeviceCapability::Scroll.mask() != 0) == (b & DeviceCapability::Scroll.mask()
            != 0));
        assert((a & DeviceCapability::Button.mask() != 0) == (b & DeviceCapability::Button.mask()
            != 0));
        assert((a & DeviceCapability::Text.mask() != 0) == (b & DeviceCapability::Text.mask()
            != 0));
        assert(a == b) by (bit_vector)
            requires
                a & !127u32 == 0,
                b & !127u32 == 0,
                (a & 1 != 0) == (b & 1 != 0),
                (a & 2 != 0) == (b & 2 != 0),
                (a & 4 != 0) == (b & 4 != 0),
                (a & 8 != 0) == (b & 8 != 0),
                (a & 16 != 0) == (b & 16 != 0),
                (a & 32 != 0) == (b & 32 != 0),
                (a & 64 != 0) == (b & 64 != 0),
        ;
    }
}

/// The portal device that a capability is part of; `None` where no portal device covers it.
pub open spec fn device_behind(capability: DeviceCapability) -> Option<DeviceType> {
    match capability {
        DeviceCapability::Keyboard => Some(DeviceType::Keyboard),
        DeviceCapability::Pointer
        | DeviceCapability::PointerAbsolute
        | DeviceCapability::Scroll
        | DeviceCapability::Button => Some(DeviceType::Pointer),
        DeviceCapability::Touch => Some(DeviceType::TouchScreen),
        DeviceCapability::Text => None,
    }
}

/// The capabilities that are part of one of `devices`.
pub open spec fn capabilities_of(devices: Set<DeviceType>) -> Set<DeviceCapability> {
    Set::new(
        |capability: DeviceCapability|
            device_behind(capability) matches Some(device) && devices.contains(device),
    )
}

/// The capabilities that a client which may use `devices` is offered.
pub fn device_capabilities(devices: BitFlags<DeviceType>) -> (r: BitFlags<DeviceCapability>)
    ensures
        r@ == capabilities_of(devices@),
{
    let mut capabilities = BitFlags::<DeviceCapability>::empty();
    if devices.contains(DeviceType::Keyboard) {
        capabilities = capabilities.with(DeviceCapability::Keyboard);
    }
    if devices.contains(DeviceType::Pointer) {
        capabilities =
        capabilities.with(DeviceCapability::Pointer).with(DeviceCapability::PointerAbsolute).with(
            DeviceCapability::Scroll,
        ).with(DeviceCapability::Button);
    }
    if devices.contains(DeviceType::TouchScreen) {
        capabilities = capabilities.with(DeviceCapability::Touch);
    }
    assert(capabilities@ =~= capabilities_of(devices@));
    capabilities
}

/// The capabilities that make up the pointer device.
pub open spec fn pointer_group() -> Set<DeviceCapability> {
    Set::new(|capability: DeviceCapability| device_behind(capability) == Some(DeviceType::Pointer))
}

/// The capabilities that make up the pointer device.
fn pointer_capabilities() -> (r: BitFlags<DeviceCapability>)
    ensures
        r@ == pointer_group(),
{
    let group = BitFlags::from_flag(DeviceCapability::Pointer).with(
        DeviceCapability::PointerAbsolute,
    ).with(DeviceCapability::Button).with(DeviceCapability::Scroll);
    assert(group@ =~= pointer_group());
    group
}

/// Whether a button or key is held.
#[derive(Debug, Clone, Copy, PartialEq, Eq, Structural)]
pub enum PressState {
    Released,
    Press,
}

impl PressState {
    /// The number that stands for the state in input requests.
    pub open spec fn number(self) -> u32 {
        match self {
            PressState::Released => 0,
            PressState::Press => 1,
        }
    }

    /// The number that stands for the state in input requests.
    pub fn value(self) -> (r: u32)
        ensures
            r == self.number(),
    {
        match self {
            PressState::Released => 0,
            PressState::Press => 1,
        }
    }
}

/// A request of an emulated-input client.
#[derive(Debug)]
pub enum EisRequest<C> {
    Disconnect,
    Bind { capabilities: BitFlags<DeviceCapability> },
    PointerMotion { dx: C, dy: C },
    PointerMotionAbsolute { dx_absolute: C, dy_absolute: C },
    Button { button: u32, state: PressState },
    ScrollDelta { dx: C, dy: C },
    ScrollDiscrete { discrete_dx: i32, discrete_dy: i32 },
    KeyboardKey { key: u32, state: PressState },
    TouchDown { touch_id: u32, x: C, y: C },
    TouchMotion { touch_id: u32, x: C, y: C },
    TouchUp { touch_id: u32 },
    /// A request that is not acted upon.
    Other,
}

impl<C: Copy> Clone for EisRequest<C> {
    fn clone(&self) -> (r: Self)
        ensures
            r == *self,
    {
        *self
    }
}

impl<C: Copy> Copy for EisRequest<C> {

}

/// The axis number of horizontal scrolling.
pub const AXIS_HORIZONTAL: u32 = 1;

/// The axis number of vertical scrolling.
pub const AXIS_VERTICAL: u32 = 0;

/// The input that a client's request makes, in order. A discrete scroll makes one input per axis
/// that moves, the horizontal one first.
pub open spec fn input_of<C>(request: EisRequest<C>) -> Seq<InputRequest<C>> {
    match request {
        EisRequest::PointerMotion { dx, dy } => seq![InputRequest::PointerMotion { dx, dy }],
        EisRequest::PointerMotionAbsolute { dx_absolute, dy_absolute } => seq![
            InputRequest::PointerMotionAbsolute { x: dx_absolute, y: dy_absolute },
        ],
        EisRequest::Button { button, state } => seq![
            InputRequest::PointerButton { button: button as i32, state: state.number() },
        ],
        EisRequest::ScrollDelta { dx, dy } => seq![
            InputRequest::PointerAxis { dx, dy, finish: false },
        ],
        EisRequest::ScrollDiscrete { discrete_dx, discrete_dy } => {
            let horizontal = InputRequest::PointerAxisDiscrete {
                axis: AXIS_HORIZONTAL,
                steps: discrete_dx,
            };
            let vertical = InputRequest::PointerAxisDiscrete {
                axis: AXIS_VERTICAL,
                steps: discrete_dy,
            };
            if discrete_dx != 0 && discrete_dy != 0 {
                seq![horizontal, vertical]
            } else if discrete_dx != 0 {
                seq![horizontal]
            } else if discrete_dy != 0 {
                seq![vertical]
            } else {
                Seq::empty()
            }
        },
        EisRequest::KeyboardKey { key, state } => seq![
            InputRequest::KeyboardKeycode { keycode: key as i32, state: state.number() },
        ],
        EisRequest::TouchDown { touch_id, x, y } => seq![
            InputRequest::TouchDown { slot: touch_id, x, y },
        ],
        EisRequest::TouchMotion { touch_id, x, y } => seq![
            InputRequest::TouchMotion { slot: touch_id, x, y },
        ],
        EisRequest::TouchUp { touch_id } => seq![InputRequest::TouchUp { slot: touch_id }],
        EisRequest::Disconnect | EisRequest::Bind { .. } | EisRequest::Other => Seq::empty(),
    }
}

/// Whether `events` are the input of `request`, on behalf of the session `session_handle`.
pub open spec fn are_input_of<C>(
    events: Seq<InputEvent<C>>,
    request: EisRequest<C>,
    session_handle: Seq<char>,
) -> bool {
    &&& events.map_values(|event: InputEvent<C>| request_of(event)) == input_of(request)
    &&& forall|i: int| 0 <= i < events.len() ==> handle_of(#[trigger] events[i]) == session_handle
}

/// The input events that a client's request makes.
pub fn input_events<C: Copy>(request: &EisRequest<C>, session_handle: &str) -> (r: Vec<
    InputEvent<C>,
>)
    ensures
        are_input_of(r@, *request, session_handle@),
{
    let mut events: Vec<InputEvent<C>> = Vec::new();
    match request {
        EisRequest::PointerMotion { dx, dy } => {
            events.push(
                InputEvent::PointerMotion {
                    session_handle: session_handle.to_owned(),
                    dx: *dx,
                    dy: *dy,
                },
            );
        },
        EisRequest::PointerMotionAbsolute { dx_absolute, dy_absolute } => {
            events.push(
                InputEvent::PointerMotionAbsolute {
                    session_handle: session_handle.to_owned(),
                    x: *dx_absolute,
                    y: *dy_absolute,
                },
            );
        },
        EisRequest::Button { button, state } => {
            events.push(
                InputEvent::PointerButton {
                    session_handle: session_handle.to_owned(),
                    button: *button as i32,
                    state: state.value(),
                },
            );
        },
        EisRequest::ScrollDelta { dx, dy } => {
            events.push(
                InputEvent::PointerAxis {
                    session_handle: session_handle.to_owned(),
                    dx: *dx,
                    dy: *dy,
                },
            );
        },
        EisRequest::ScrollDiscrete { discrete_dx, discrete_dy } => {
            if *discrete_dx != 0 {
                events.push(
                    InputEvent::PointerAxisDiscrete {
                        session_handle: session_handle.to_owned(),
                        axis: AXIS_HORIZONTAL,
                        steps: *discrete_dx,
                    },
                );
            }
            if *discrete_dy != 0 {
                events.push(
                    InputEvent::PointerAxisDiscrete {
                        session_handle: session_handle.to_owned(),
                        axis: AXIS_VERTICAL,
                        steps: *discrete_dy,
                    },
                );
            }
        },
        EisRequest::KeyboardKey { key, state } => {
            events.push(
                InputEvent::KeyboardKeycode {
                    session_handle: session_handle.to_owned(),
                    keycode: *key as i32,
                    state: state.value(),
                },
            );
        },
        EisRequest::TouchDown { touch_id, x, y } => {
            events.push(
                InputEvent::TouchDown {
                    session_handle: session_handle.to_owned(),
                    slot: *touch_id,
                    x: *x,
                    y: *y,
                },
            );
        },
        EisRequest::TouchMotion { touch_id, x, y } => {
            events.push(
                InputEvent::TouchMotion {
                    session_handle: session_handle.to_owned(),
                    slot: *touch_id,
                    x: *x,
                    y: *y,
                },
            );
        },
        EisRequest::TouchUp { touch_id } => {
            events.push(
                InputEvent::TouchUp {
                    session_handle: session_handle.to_owned(),
                    slot: *touch_id,
                },
            );
        },
        EisRequest::Disconnect | EisRequest::Bind { .. } | EisRequest::Other => {},
    }
    assert(events@.map_values(|event: InputEvent<C>| request_of(event)) =~= input_of(*request));
    events
}

/// Which way input flows over a connection.
#[derive(Debug, Clone, Copy, PartialEq, Eq, Structural)]
pub enum ContextType {
    /// The client receives input.
    Receiver,
    /// The client sends input.
    Sender,
}

/// What becomes of an event source after an event.
#[derive(Debug, Clone, Copy, PartialEq, Eq, Structural)]
pub enum PostAction {
    /// It stays registered.
    Continue,
    /// It is removed.
    Remove,
}

/// The device slots of a connection.
#[derive(Debug, Clone, Copy, PartialEq, Eq, Structural)]
pub enum DeviceSlot {
    Keyboard,
    Pointer,
    Touch,
}

impl DeviceSlot {
    /// The name under which the device of the slot is advertised.
    pub open spec fn text(self) -> Seq<char> {
        match self {
            DeviceSlot::Keyboard => "keyboard"@,
            DeviceSlot::Pointer => "pointer"@,
            DeviceSlot::Touch => "touch"@,
        }
    }

    /// The name under which the device of the slot is advertised.
    pub fn name(self) -> (r: &'static str)
        ensures
            r@ == self.text(),
    {
        match self {
            DeviceSlot::Keyboard => "keyboard",
            DeviceSlot::Pointer => "pointer",
            DeviceSlot::Touch => "touch",
        }
    }
}

/// What has to be done with a device of a connection.
#[derive(Debug, Clone, Copy, PartialEq, Eq)]
pub enum DeviceAction {
    /// Remove the device of the slot.
    Remove { slot: DeviceSlot },
    /// Add a device to the slot and resume it; then, where there is a number, start emulating
    /// under it.
    Add {
        slot: DeviceSlot,
        capabilities: BitFlags<DeviceCapability>,
        start_emulating: Option<u32>,
    },
}

/// A device action as a mathematical value.
pub enum ActionView {
    Remove { slot: DeviceSlot },
    Add { slot: DeviceSlot, capabilities: Set<DeviceCapability>, start_emulating: Option<int> },
}

impl View for DeviceAction {
    type V = ActionView;

    open spec fn view(&self) -> ActionView {
        match self {
            DeviceAction::Remove { slot } => ActionView::Remove { slot: *slot },
            DeviceAction::Add { slot, capabilities, start_emulating } => ActionView::Add {
                slot: *slot,
                capabilities: capabilities@,
                start_emulating: match start_emulating {
                    Some(number) => Some(*number as int),
                    None => None,
                },
            },
        }
    }
}

/// The devices that a connection has.
#[derive(Debug, Clone, Copy, PartialEq, Eq)]
pub struct ContextState {
    /// What the client may have.
    pub capabilities: BitFlags<DeviceCapability>,
    /// Whether there is a keyboard.
    pub device_keyboard: bool,
    /// Whether there is a pointer.
    pub device_pointer: bool,
    /// What the pointer can do; nothing where there is none.
    pub pointer_capabilities: BitFlags<DeviceCapability>,
    /// Whether there is a touch device.
    pub device_touch: bool,
    /// The number under which emulation was last started.
    pub sequence: u32,
}

/// The devices of a connection as a mathematical value.
#[verifier::ext_equal]
pub struct ContextView {
    pub capabilities: Set<DeviceCapability>,
    pub device_keyboard: bool,
    pub device_pointer: bool,
    pub pointer_capabilities: Set<DeviceCapability>,
    pub device_touch: bool,
    pub sequence: int,
}

impl View for ContextState {
    type V = ContextView;

    open spec fn view(&self) -> ContextView {
        ContextView {
            capabilities: self.capabilities@,
            device_keyboard: self.device_keyboard,
            device_pointer: self.device_pointer,
            pointer_capabilities: self.pointer_capabilities@,
            device_touch: self.device_touch,
            sequence: self.sequence as int,
        }
    }
}

/// The number under which a new device starts emulating: the next one where the client
/// receives input, none where it sends input.
pub open spec fn emulation_number(context_type: ContextType, sequence: int) -> Option<int> {
    if context_type == ContextType::Receiver {
        Some(sequence + 1)
    } else {
        None
    }
}

/// The last number used after `actions`, where the last one before was `sequence`.
pub open spec fn number_after(actions: Seq<ActionView>, sequence: int) -> int {
    if actions.len() > 0 && actions.last() is Add && actions.last()->start_emulating is Some {
        actions.last()->start_emulating->0
    } else {
        sequence
    }
}

/// What brings the device of a slot in line with whether it is wanted.
pub open spec fn switch_actions(
    slot: DeviceSlot,
    capability: DeviceCapability,
    wanted: bool,
    present: bool,
    context_type: ContextType,
    sequence: int,
) -> Seq<ActionView> {
    if wanted && !present {
        seq![
            ActionView::Add {
                slot,
                capabilities: Set::empty().insert(capability),
                start_emulating: emulation_number(context_type, sequence),
            },
        ]
    } else if !wanted && present {
        seq![ActionView::Remove { slot }]
    } else {
        Seq::empty()
    }
}

/// What brings the pointer in line with what it shall be able to do. A pointer that can do
/// something else is replaced.
pub open spec fn pointer_actions(
    wanted: Set<DeviceCapability>,
    current: Set<DeviceCapability>,
    present: bool,
    context_type: ContextType,
    sequence: int,
) -> Seq<ActionView> {
    if wanted == current {
        Seq::empty()
    } else {
        (if present {
            seq![ActionView::Remove { slot: DeviceSlot::Pointer }]
        } else {
            Seq::empty()
        }) + (if wanted == Set::<DeviceCapability>::empty() {
            Seq::empty()
        } else {
            seq![
                ActionView::Add {
                    slot: DeviceSlot::Pointer,
                    capabilities: wanted,
                    start_emulating: emulation_number(context_type, sequence),
                },
            ]
        })
    }
}

impl ContextView {
    /// What the client gets of what it asks for.
    pub open spec fn granted(self, requested: Set<DeviceCapability>) -> Set<DeviceCapability> {
        requested.intersect(self.capabilities)
    }

    /// What happens to the keyboard when the client binds to `requested`.
    pub open spec fn keyboard_actions(
        self,
        requested: Set<DeviceCapability>,
        context_type: ContextType,
    ) -> Seq<ActionView> {
        switch_actions(
            DeviceSlot::Keyboard,
            DeviceCapability::Keyboard,
            self.granted(requested).contains(DeviceCapability::Keyboard),
            self.device_keyboard,
            context_type,
            self.sequence,
        )
    }

    /// The last number used once the keyboard is settled.
    pub open spec fn sequence_after_keyboard(
        self,
        requested: Set<DeviceCapability>,
        context_type: ContextType,
    ) -> int {
        number_after(self.keyboard_actions(requested, context_type), self.sequence)
    }

    /// What happens to the pointer when the client binds to `requested`.
    pub open spec fn pointer_actions(
        self,
        requested: Set<DeviceCapability>,
        context_type: ContextType,
    ) -> Seq<ActionView> {
        pointer_actions(
            self.granted(requested).intersect(pointer_group()),
            self.pointer_capabilities,
            self.device_pointer,
            context_type,
            self.sequence_after_keyboard(requested, context_type),
        )
    }

    /// The last number used once keyboard and pointer are settled.
    pub open spec fn sequence_after_pointer(
        self,
        requested: Set<DeviceCapability>,
        context_type: ContextType,
    ) -> int {
        number_after(
            self.pointer_actions(requested, context_type),
            self.sequence_after_keyboard(requested, context_type),
        )
    }

    /// What happens to the touch device when the client binds to `requested`.
    pub open spec fn touch_actions(
        self,
        requested: Set<DeviceCapability>,
        context_type: ContextType,
    ) -> Seq<ActionView> {
        switch_actions(
            DeviceSlot::Touch,
            DeviceCapability::Touch,
            self.granted(requested).contains(DeviceCapability::Touch),
            self.device_touch,
            context_type,
            self.sequence_after_pointer(requested, context_type),
        )
    }

    /// All that happens when the client binds to `requested`: keyboard, pointer, touch.
    pub open spec fn bind_actions(
        self,
        requested: Set<DeviceCapability>,
        context_type: ContextType,
    ) -> Seq<ActionView> {
        self.keyboard_actions(requested, context_type) + self.pointer_actions(
            requested,
            context_type,
        ) + self.touch_actions(requested, context_type)
    }

    /// The devices after the client has bound to `requested`.
    pub open spec fn bound(
        self,
        requested: Set<DeviceCapability>,
        context_type: ContextType,
    ) -> ContextView {
        let pointer = self.granted(requested).intersect(pointer_group());
        ContextView {
            capabilities: self.capabilities,
            device_keyboard: self.granted(requested).contains(DeviceCapability::Keyboard),
            device_pointer: if pointer == self.pointer_capabilities {
                self.device_pointer
            } else {
                pointer != Set::<DeviceCapability>::empty()
            },
            pointer_capabilities: pointer,
            device_touch: self.granted(requested).contains(DeviceCapability::Touch),
            sequence: number_after(
                self.touch_actions(requested, context_type),
                self.sequence_after_pointer(requested, context_type),
            ),
        }
    }

    /// The devices after a request.
    pub open spec fn after<C>(
        self,
        request: EisRequest<C>,
        context_type: ContextType,
    ) -> ContextView {
        match request {
            EisRequest::Bind { capabilities } => self.bound(capabilities@, context_type),
            _ => self,
        }
    }

    /// What a request does to the devices.
    pub open spec fn actions<C>(
        self,
        request: EisRequest<C>,
        context_type: ContextType,
    ) -> Seq<ActionView> {
        match request {
            EisRequest::Bind { capabilities } => self.bind_actions(capabilities@, context_type),
            _ => Seq::empty(),
        }
    }

    /// The devices are within what the client may have, and there is a pointer just where it can
    /// do something.
    pub open spec fn wf(self) -> bool {
        &&& self.device_keyboard ==> self.capabilities.contains(DeviceCapability::Keyboard)
        &&& self.device_touch ==> self.capabilities.contains(DeviceCapability::Touch)
        &&& self.pointer_capabilities.subset_of(self.capabilities.intersect(pointer_group()))
        &&& self.device_pointer <==> self.pointer_capabilities
            != Set::<DeviceCapability>::empty()
    }
}

/// The views of device actions.
pub open spec fn action_views(actions: Seq<DeviceAction>) -> Seq<ActionView> {
    actions.map_values(|action: DeviceAction| action@)
}

/// The action that adds a device. Where the client receives input the device starts emulating
/// under the next number.
fn add_device(
    slot: DeviceSlot,
    capabilities: BitFlags<DeviceCapability>,
    context_type: ContextType,
    sequence: &mut u32,
) -> (r: DeviceAction)
    requires
        context_type == ContextType::Receiver ==> *old(sequence) < u32::MAX,
    ensures
        r@ == (ActionView::Add {
            slot,
            capabilities: capabilities@,
            start_emulating: emulation_number(context_type, *old(sequence) as int),
        }),
        *final(sequence) == (match emulation_number(context_type, *old(sequence) as int) {
            Some(number) => number,
            None => *old(sequence) as int,
        }),
{
    if context_type == ContextType::Receiver {
        *sequence = *sequence + 1;
        DeviceAction::Add { slot, capabilities, start_emulating: Some(*sequence) }
    } else {
        DeviceAction::Add { slot, capabilities, start_emulating: None }
    }
}

/// Brings the device of a slot in line with whether it is wanted.
fn switch_device(
    slot: DeviceSlot,
    capability: DeviceCapability,
    wanted: bool,
    present: bool,
    context_type: ContextType,
    sequence: &mut u32,
    actions: &mut Vec<DeviceAction>,
)
    requires
        number_after(
            switch_actions(slot, capability, wanted, present, context_type, *old(sequence) as int),
            *old(sequence) as int,
        ) <= u32::MAX,
    ensures
        *final(sequence) == number_after(
            switch_actions(slot, capability, wanted, present, context_type, *old(sequence) as int),
            *old(sequence) as int,
        ),
        action_views(final(actions)@) == action_views(old(actions)@) + switch_actions(
            slot,
            capability,
            wanted,
            present,
            context_type,
            *old(sequence) as int,
        ),
{
    if !wanted {
        if present {
            actions.push(DeviceAction::Remove { slot });
        }
    } else if !present {
        let action = add_device(slot, BitFlags::from_flag(capability), context_type, sequence);
        actions.push(action);
    }
    assert(action_views(actions@) =~= action_views(old(actions)@) + switch_actions(
        slot,
        capability,
        wanted,
        present,
        context_type,
        *old(sequence) as int,
    ));
}

/// Brings the pointer in line with what it shall be able to do; says whether there is one then.
fn change_pointer(
    wanted: BitFlags<DeviceCapability>,
    current: BitFlags<DeviceCapability>,
    present: bool,
    context_type: ContextType,
    sequence: &mut u32,
    actions: &mut Vec<DeviceAction>,
) -> (r: bool)
    requires
        number_after(
            pointer_actions(wanted@, current@, present, context_type, *old(sequence) as int),
            *old(sequence) as int,
        ) <= u32::MAX,
    ensures
        r == (if wanted@ == current@ {
            present
        } else {
            wanted@ != Set::<DeviceCapability>::empty()
        }),
        *final(sequence) == number_after(
            pointer_actions(wanted@, current@, present, context_type, *old(sequence) as int),
            *old(sequence) as int,
        ),
        action_views(final(actions)@) == action_views(old(actions)@) + pointer_actions(
            wanted@,
            current@,
            present,
            context_type,
            *old(sequence) as int,
        ),
{
    let mut there = present;
    if wanted != current {
        if there {
            there = false;
            actions.push(DeviceAction::Remove { slot: DeviceSlot::Pointer });
        }
        if !wanted.is_empty() {
            there = true;
            let action = add_device(DeviceSlot::Pointer, wanted, context_type, sequence);
            actions.push(action);
        }
    }
    assert(action_views(actions@) =~= action_views(old(actions)@) + pointer_actions(
        wanted@,
        current@,
        present,
        context_type,
        *old(sequence) as int,
    ));
    there
}

/// A connection without devices, for a client that may use `devices`.
pub open spec fn new_context(devices: Set<DeviceType>) -> ContextView {
    ContextView {
        capabilities: capabilities_of(devices),
        device_keyboard: false,
        device_pointer: false,
        pointer_capabilities: Set::empty(),
        device_touch: false,
        sequence: 0,
    }
}

impl ContextState {
    /// A connection without devices, for a client that may use `devices`.
    pub fn new(devices: BitFlags<DeviceType>) -> (r: Self)
        ensures
            r@ == new_context(devices@),
            r@.wf(),
    {
        ContextState {
            capabilities: device_capabilities(devices),
            device_keyboard: false,
            device_pointer: false,
            pointer_capabilities: BitFlags::empty(),
            device_touch: false,
            sequence: 0,
        }
    }

    /// Brings the devices in line with what the client binds to.
    fn bind(
        &mut self,
        requested: BitFlags<DeviceCapability>,
        context_type: ContextType,
    ) -> (r: Vec<DeviceAction>)
        requires
            old(self)@.bound(requested@, context_type).sequence <= u32::MAX,
        ensures
            final(self)@ == old(self)@.bound(requested@, context_type),
            action_views(r@) == old(self)@.bind_actions(requested@, context_type),
    {
        let capabilities = requested.intersection(self.capabilities);
        let group = pointer_capabilities();
        let keyboard_enabled = capabilities.contains(DeviceCapability::Keyboard);
        let pointer_capabilities = capabilities.intersection(group);
        let touch_enabled = capabilities.contains(DeviceCapability::Touch);

        let mut actions: Vec<DeviceAction> = Vec::new();
        let mut sequence: u32 = self.sequence;
        switch_device(
            DeviceSlot::Keyboard,
            DeviceCapability::Keyboard,
            keyboard_enabled,
            self.device_keyboard,
            context_type,
            &mut sequence,
            &mut actions,
        );
        let device_pointer = change_pointer(
            pointer_capabilities,
            self.pointer_capabilities,
            self.device_pointer,
            context_type,
            &mut sequence,
            &mut actions,
        );
        switch_device(
            DeviceSlot::Touch,
            DeviceCapability::Touch,
            touch_enabled,
            self.device_touch,
            context_type,
            &mut sequence,
            &mut actions,
        );
        self.device_keyboard = keyboard_enabled;
        self.device_pointer = device_pointer;
        self.pointer_capabilities = pointer_capabilities;
        self.device_touch = touch_enabled;
        self.sequence = sequence;
        assert(self@ =~= old(self)@.bound(requested@, context_type));
        assert(action_views(actions@) =~= old(self)@.bind_actions(requested@, context_type));
        actions
    }

    /// Handles a request of the client: its devices follow what it binds to, and its connection
    /// ends when it disconnects.
    pub fn handle_request<C>(&mut self, context_type: ContextType, request: &EisRequest<C>) -> (r: (
        PostAction,
        Vec<DeviceAction>,
    ))
        requires
            old(self)@.after(*request, context_type).sequence <= u32::MAX,
        ensures
            final(self)@ == old(self)@.after(*request, context_type),
            r.0 == (if request is Disconnect {
                PostAction::Remove
            } else {
                PostAction::Continue
            }),
            action_views(r.1@) == old(self)@.actions(*request, context_type),
    {
        match request {
            EisRequest::Disconnect => {
                let none: Vec<DeviceAction> = Vec::new();
                assert(action_views(none@) =~= Seq::empty());
                (PostAction::Remove, none)
            },
            EisRequest::Bind { capabilities } => (
                PostAction::Continue,
                self.bind(*capabilities, context_type),
            ),
            _ => {
                let none: Vec<DeviceAction> = Vec::new();
                assert(action_views(none@) =~= Seq::empty());
                (PostAction::Continue, none)
            },
        }
    }
}

/// What a connection reports.
#[derive(Debug)]
pub enum EisRequestSourceEvent<C> {
    /// The handshake is done.
    Connected,
    /// The client makes a request.
    Request(EisRequest<C>),
}

/// The name of the seat that every client gets.
pub const SEAT_NAME: &'static str = "default";

/// What has to be done about an event of a connection, in this order.
#[derive(Debug)]
pub struct Reaction<C> {
    /// Add a seat with these capabilities.
    pub add_seat: Option<BitFlags<DeviceCapability>>,
    /// Pass these events on.
    pub events: Vec<InputEvent<C>>,
    /// Do this with the devices.
    pub actions: Vec<DeviceAction>,
    /// Send what has been written to the client.
    pub flush: bool,
    /// What becomes of the connection.
    pub post_action: PostAction,
}

impl ContextView {
    /// The devices after an event.
    pub open spec fn after_event<C>(
        self,
        event: EisRequestSourceEvent<C>,
        context_type: ContextType,
    ) -> ContextView {
        match event {
            EisRequestSourceEvent::Connected => self,
            EisRequestSourceEvent::Request(request) => self.after(request, context_type),
        }
    }

    /// Whether `reaction` is what has to be done about an event.
    pub open spec fn reacts<C>(
        self,
        event: EisRequestSourceEvent<C>,
        context_type: ContextType,
        session_handle: Seq<char>,
        reaction: Reaction<C>,
    ) -> bool {
        match event {
            EisRequestSourceEvent::Connected => {
                &&& reaction.add_seat matches Some(capabilities) && capabilities@
                    == self.capabilities
                &&& reaction.events@.len() == 0
                &&& reaction.actions@.len() == 0
                &&& reaction.flush
                &&& reaction.post_action == PostAction::Continue
            },
            EisRequestSourceEvent::Request(request) => {
                &&& reaction.add_seat is None
                &&& are_input_of(reaction.events@, request, session_handle)
                &&& action_views(reaction.actions@) == self.actions(request, context_type)
                &&& reaction.flush <==> !(request is Disconnect)
                &&& reaction.post_action == (if request is Disconnect {
                    PostAction::Remove
                } else {
                    PostAction::Continue
                })
            },
        }
    }
}

impl ContextState {
    /// Whether there are numbers left for the devices that an event would have start emulating.
    pub fn has_numbers_for<C>(
        &self,
        context_type: ContextType,
        event: &EisRequestSourceEvent<C>,
    ) -> (r: bool)
        ensures
            r == (self@.after_event(*event, context_type).sequence <= u32::MAX),
    {
        match event {
            EisRequestSourceEvent::Request(EisRequest::Bind { capabilities }) => {
                if context_type != ContextType::Receiver {
                    return true;
                }
                let granted = capabilities.intersection(self.capabilities);
                let group = pointer_capabilities();
                let pointer = granted.intersection(group);
                let mut added: u32 = 0;
                if granted.contains(DeviceCapability::Keyboard) && !self.device_keyboard {
                    added = added + 1;
                }
                if pointer != self.pointer_capabilities && !pointer.is_empty() {
                    added = added + 1;
                }
                if granted.contains(DeviceCapability::Touch) && !self.device_touch {
                    added = added + 1;
                }
                self.sequence <= u32::MAX - added
            },
            _ => true,
        }
    }

    /// Handles an event of the connection on behalf of the session `session_handle`.
    pub fn handle_request_source_event<C: Copy>(
        &mut self,
        context_type: ContextType,
        event: &EisRequestSourceEvent<C>,
        session_handle: &str,
    ) -> (r: Reaction<C>)
        requires
            old(self)@.after_event(*event, context_type).sequence <= u32::MAX,
        ensures
            final(self)@ == old(self)@.after_event(*event, context_type),
            old(self)@.reacts(*event, context_type, session_handle@, r),
    {
        match event {
            EisRequestSourceEvent::Connected => Reaction {
                add_seat: Some(self.capabilities),
                events: Vec::new(),
                actions: Vec::new(),
                flush: true,
                post_action: PostAction::Continue,
            },
            EisRequestSourceEvent::Request(request) => {
                let events = input_events(request, session_handle);
                let (post_action, actions) = self.handle_request(context_type, request);
                Reaction {
                    add_seat: None,
                    events,
                    actions,
                    flush: post_action == PostAction::Continue,
                    post_action,
                }
            },
        }
    }
}

/// A client's connection.
#[derive(Debug)]
pub struct ClientConnection {
    /// The session on whose behalf the client makes input.
    pub session_handle: String,
    /// The devices of the connection.
    pub context: ContextState,
}

/// Takes a new connection on a listener that was registered for the session `session_handle` and
/// for `devices`.
pub fn handle_new_connection(session_handle: String, devices: BitFlags<DeviceType>) -> (r:
    ClientConnection)
    ensures
        r.session_handle == session_handle,
        r.context@ == new_context(devices@),
{
    ClientConnection { session_handle, context: ContextState::new(devices) }
}

/// Whether `reaction` ends a connection and does nothing else.
pub open spec fn only_ends<C>(reaction: Reaction<C>) -> bool {
    &&& reaction.add_seat is None
    &&& reaction.events@.len() == 0
    &&& reaction.actions@.len() == 0
    &&& !reaction.flush
    &&& reaction.post_action == PostAction::Remove
}

impl ClientConnection {
    /// Handles what the connection reports: an event, or an error, which ends it.
    pub fn handle_report<C: Copy, E>(
        &mut self,
        context_type: ContextType,
        report: &Result<EisRequestSourceEvent<C>, E>,
    ) -> (r: Reaction<C>)
        requires
            *report matches Ok(event) ==> old(self).context@.after_event(
                event,
                context_type,
            ).sequence <= u32::MAX,
        ensures
            final(self).session_handle == old(self).session_handle,
            match *report {
                Ok(event) => {
                    &&& final(self).context@ == old(self).context@.after_event(event, context_type)
                    &&& old(self).context@.reacts(
                        event,
                        context_type,
                        old(self).session_handle@,
                        r,
                    )
                },
                Err(_) => final(self).context == old(self).context && only_ends(r),
            },
    {
        match report {
            Ok(event) => self.context.handle_request_source_event(
                context_type,
                event,
                self.session_handle.as_str(),
            ),
            Err(_) => Reaction {
                add_seat: None,
                events: Vec::new(),
                actions: Vec::new(),
                flush: false,
                post_action: PostAction::Remove,
            },
        }
    }
}

/// A message to the emulated-input server. `L` is a socket that listens.
#[derive(Debug, PartialEq, Eq)]
pub enum EisServerMsg<L> {
    /// Accept clients of a session, which may use these devices.
    NewListener(L, String, BitFlags<DeviceType>),
    /// Accept no clients of the session for now.
    StopListener(String),
    /// Accept clients of the session again.
    ActiveListener(String),
    /// Never again accept clients of the session.
    RemoveListener(String),
}

/// What has to be done about a message. `T` identifies a registered event source.
#[derive(Debug, PartialEq, Eq)]
pub enum ListenerAction<L, T> {
    /// Register the listener, then record its token.
    Register { listener: L, session_handle: String, devices: BitFlags<DeviceType> },
    /// Disable an event source.
    Disable(T),
    /// Enable an event source.
    Enable(T),
    /// Remove an event source.
    Remove(T),
    /// Nothing: the session has no listener.
    Ignore,
}

/// What the server has taken note of, as a mathematical value.
pub enum ServerStep<T> {
    /// A listener of the session was registered under the token.
    Registered { session: Seq<char>, token: T },
    /// The listener of the session was to be stopped.
    Stopped { session: Seq<char> },
    /// The listener of the session was to be activated.
    Activated { session: Seq<char> },
    /// The listener of the session was to be removed.
    Removed { session: Seq<char> },
}

impl<T> ServerStep<T> {
    /// Whether the step brought a listener of `session`.
    pub open spec fn registers(self, session: Seq<char>) -> bool {
        self matches ServerStep::Registered { session: named, .. } && named == session
    }

    /// Whether the step removed the listener of `session`.
    pub open spec fn removes(self, session: Seq<char>) -> bool {
        self matches ServerStep::Removed { session: named } && named == session
    }
}

/// Whether the listener of `session` is the one that step `index` brought: no later step brought
/// another one or removed it.
pub open spec fn is_latest_listener<T>(
    history: Seq<ServerStep<T>>,
    session: Seq<char>,
    index: int,
) -> bool {
    &&& 0 <= index < history.len()
    &&& history[index].registers(session)
    &&& forall|i: int|
        index < i < history.len() ==> !(#[trigger] history[i]).registers(session)
            && !history[i].removes(session)
}

/// The token of the latest listener of `session`; `None` where it never had one, or where that was
/// removed since.
pub open spec fn latest_listener<T>(history: Seq<ServerStep<T>>, session: Seq<char>) -> Option<T> {
    if exists|i: int| is_latest_listener(history, session, i) {
        let index = choose|i: int| is_latest_listener(history, session, i);
        Some(history[index]->token)
    } else {
        None
    }
}

/// The session that a message names.
pub open spec fn session_of<L>(message: EisServerMsg<L>) -> Seq<char> {
    match message {
        EisServerMsg::NewListener(_, session, _) => session@,
        EisServerMsg::StopListener(session) => session@,
        EisServerMsg::ActiveListener(session) => session@,
        EisServerMsg::RemoveListener(session) => session@,
    }
}

/// What has to be done about a message, where `token` is that of the listener of its session.
pub open spec fn action_on<L, T>(message: EisServerMsg<L>, token: Option<T>) -> ListenerAction<
    L,
    T,
> {
    match message {
        EisServerMsg::NewListener(listener, session_handle, devices) => ListenerAction::Register {
            listener,
            session_handle,
            devices,
        },
        EisServerMsg::StopListener(_) => match token {
            Some(token) => ListenerAction::Disable(token),
            None => ListenerAction::Ignore,
        },
        EisServerMsg::ActiveListener(_) => match token {
            Some(token) => ListenerAction::Enable(token),
            None => ListenerAction::Ignore,
        },
        EisServerMsg::RemoveListener(_) => match token {
            Some(token) => ListenerAction::Remove(token),
            None => ListenerAction::Ignore,
        },
    }
}

/// The history once a message has been handled. A new listener becomes part of it when it is
/// registered.
pub open spec fn history_after<L, T>(
    history: Seq<ServerStep<T>>,
    message: EisServerMsg<L>,
) -> Seq<ServerStep<T>> {
    match message {
        EisServerMsg::NewListener(_, _, _) => history,
        EisServerMsg::StopListener(session) => history.push(
            ServerStep::Stopped { session: session@ },
        ),
        EisServerMsg::ActiveListener(session) => history.push(
            ServerStep::Activated { session: session@ },
        ),
        EisServerMsg::RemoveListener(session) => history.push(
            ServerStep::Removed { session: session@ },
        ),
    }
}

/// A step changes the latest listener of the session that it registers or removes, and of no
/// other.
pub proof fn latest_listener_follows_the_steps<T>(
    history: Seq<ServerStep<T>>,
    step: ServerStep<T>,
    session: Seq<char>,
)
    ensures
        latest_listener(history.push(step), session) == (if step.registers(session) {
            Some(step->token)
        } else if step.removes(session) {
            None
        } else {
            latest_listener(history, session)
        }),
{
    let after = history.push(step);
    let last = history.len() as int;
    assert forall|i: int| 0 <= i < last implies is_latest_listener(after, session, i) == (
    is_latest_listener(history, session, i) && !step.registers(session) && !step.removes(
        session,
    )) by {
        assert(after[last] == step);
        assert forall|j: int| 0 <= j < last implies after[j] == history[j] by {}
        if is_latest_listener(after, session, i) {
            assert forall|j: int| i < j < history.len() implies !(
            #[trigger] history[j]).registers(session) && !history[j].removes(session) by {
                assert(!after[j].registers(session));
            }
        }
    }
    assert(is_latest_listener(after, session, last) == step.registers(session));
    lemma_latest_listener_is_one(history, session);
    lemma_latest_listener_is_one(after, session);
    if step.registers(session) {
        assert(is_latest_listener(after, session, last));
    } else if exists|i: int| is_latest_listener(history, session, i) {
        let i = choose|i: int| is_latest_listener(history, session, i);
        if !step.removes(session) {
            assert(is_latest_listener(after, session, i));
        }
    }
}

proof fn lemma_latest_listener_is_one<T>(history: Seq<ServerStep<T>>, session: Seq<char>)
    ensures
        forall|i: int| #[trigger]
            is_latest_listener(history, session, i) ==> latest_listener(history, session) == Some(
                history[i]->token,
            ),
{
    assert forall|i: int| #[trigger] is_latest_listener(history, session, i) implies
        latest_listener(history, session) == Some(history[i]->token) by {
        let j = choose|j: int| is_latest_listener(history, session, j);
        if i < j {
            assert(!history[j].registers(session));
        } else if j < i {
            assert(!history[i].registers(session));
        }
    }
}

/// The listeners of the server, by session.
#[verifier::reject_recursive_types(T)]
pub struct Clients<T> {
    tokens: StringHashMap<T>,
    history: Ghost<Seq<ServerStep<T>>>,
}

impl<T> View for Clients<T> {
    type V = Map<Seq<char>, T>;

    closed spec fn view(&self) -> Map<Seq<char>, T> {
        self.tokens@
    }
}

/// Starts the server: it has no listeners yet.
pub fn start<T: Copy>() -> (r: Clients<T>)
    ensures
        r.wf(),
        r@ == Map::<Seq<char>, T>::empty(),
        r.history() == Seq::<ServerStep<T>>::empty(),
{
    Clients::new()
}

impl<T> Clients<T> {
    /// What the server has taken note of since it started, in order.
    pub closed spec fn history(self) -> Seq<ServerStep<T>> {
        self.history@
    }

    /// The listeners are the latest ones of their sessions.
    pub open spec fn wf(self) -> bool {
        forall|session: Seq<char>| #[trigger]
            latest_listener(self.history(), session) == self.listener_of(session)
    }

    /// The token of the listener of a session.
    pub open spec fn listener_of(self, session: Seq<char>) -> Option<T> {
        if self@.contains_key(session) {
            Some(self@[session])
        } else {
            None
        }
    }
}

impl<T: Copy> Clients<T> {
    /// No listeners.
    pub fn new() -> (r: Self)
        ensures
            r.wf(),
            r@ == Map::<Seq<char>, T>::empty(),
            r.history() == Seq::<ServerStep<T>>::empty(),
    {
        Clients { tokens: StringHashMap::new(), history: Ghost(Seq::empty()) }
    }

    /// Records the token under which the listener of a session was registered. A session has one
    /// listener; an earlier one is forgotten.
    pub fn registered(&mut self, session_handle: String, token: T)
        requires
            old(self).wf(),
        ensures
            final(self).wf(),
            final(self)@ == old(self)@.insert(session_handle@, token),
            final(self).history() == old(self).history().push(
                ServerStep::Registered { session: session_handle@, token },
            ),
    {
        let ghost step = ServerStep::Registered { session: session_handle@, token };
        self.tokens.insert(session_handle, token);
        self.history = Ghost(self.history@.push(step));
        proof {
            assert forall|session: Seq<char>| #[trigger]
                latest_listener(self.history(), session) == self.listener_of(session) by {
                latest_listener_follows_the_steps(old(self).history(), step, session);
            }
        }
    }

    /// The token of the listener of a session.
    pub fn token(&self, session_handle: &str) -> (r: Option<T>)
        ensures
            r == self.listener_of(session_handle@),
    {
        match self.tokens.get(session_handle) {
            Some(token) => Some(*token),
            None => None,
        }
    }

    /// Decides what has to be done about a message. Stopping, activating and removing act on the
    /// latest listener of the session that they name, if it has not been removed since; otherwise
    /// they have no effect.
    pub fn handle_message<L>(&mut self, message: EisServerMsg<L>) -> (r: ListenerAction<L, T>)
        requires
            old(self).wf(),
        ensures
            final(self).wf(),
            final(self)@ == (if message is RemoveListener {
                old(self)@.remove(session_of(message))
            } else {
                old(self)@
            }),
            final(self).history() == history_after(old(self).history(), message),
            r == action_on(message, old(self).listener_of(session_of(message))),
            r == action_on(message, latest_listener(old(self).history(), session_of(message))),
    {
        assert(latest_listener(self.history(), session_of(message)) == self.listener_of(
            session_of(message),
        ));
        let ghost history = history_after(self.history@, message);
        let action = match message {
            EisServerMsg::NewListener(listener, session_handle, devices) =>
                ListenerAction::Register { listener, session_handle, devices },
            EisServerMsg::StopListener(session) => match self.token(session.as_str()) {
                Some(token) => ListenerAction::Disable(token),
                None => ListenerAction::Ignore,
            },
            EisServerMsg::ActiveListener(session) => match self.token(session.as_str()) {
                Some(token) => ListenerAction::Enable(token),
                None => ListenerAction::Ignore,
            },
            EisServerMsg::RemoveListener(session) => match self.token(session.as_str()) {
                Some(token) => {
                    self.tokens.remove(session.as_str());
                    ListenerAction::Remove(token)
                },
                None => {
                    assert(self@.remove(session@) =~= self@);
                    ListenerAction::Ignore
                },
            },
        };
        self.history = Ghost(history);
        proof {
            assert forall|session: Seq<char>| #[trigger]
                latest_listener(self.history(), session) == self.listener_of(session) by {
                assert(latest_listener(old(self).history(), session) == old(self).listener_of(
                    session,
                ));
                if !(message is NewListener) {
                    latest_listener_follows_the_steps(
                        old(self).history(),
                        history.last(),
                        session,
                    );
                    assert(history =~= old(self).history().push(history.last()));
                }
            }
        }
        action
    }
}

/// Binding keeps the devices within what the client may have, and a pointer just where it can do
/// something.
pub proof fn binding_keeps_devices_in_bounds<C>(
    state: ContextView,
    event: EisRequestSourceEvent<C>,
    context_type: ContextType,
)
    requires
        state.wf(),
    ensures
        state.after_event(event, context_type).wf(),
        state.after_event(event, context_type).capabilities == state.capabilities,
{
}

/// No device is ever added with a capability that the client did not ask for or may not have.
pub proof fn added_devices_are_granted(
    state: ContextView,
    requested: Set<DeviceCapability>,
    context_type: ContextType,
    i: int,
)
    requires
        0 <= i < state.bind_actions(requested, context_type).len(),
    ensures
        state.bind_actions(requested, context_type)[i] matches ActionView::Add {
            capabilities,
            ..
        } ==> capabilities.subset_of(requested) && capabilities.subset_of(state.capabilities),
{
}

/// Which devices there are after binding depends on the last request alone: binding to it from
/// any earlier devices gives the same.
pub proof fn last_binding_decides(
    state: ContextView,
    earlier: Set<DeviceCapability>,
    requested: Set<DeviceCapability>,
    context_type: ContextType,
)
    requires
        state.wf(),
    ensures
        ({
            let once = state.bound(requested, context_type);
            let twice = state.bound(earlier, context_type).bound(requested, context_type);
            &&& twice.device_keyboard == once.device_keyboard
            &&& twice.device_pointer == once.device_pointer
            &&& twice.pointer_capabilities == once.pointer_capabilities
            &&& twice.device_touch == once.device_touch
        }),
{
}

/// Binding again to the same capabilities does nothing.
pub proof fn binding_again_does_nothing(
    state: ContextView,
    requested: Set<DeviceCapability>,
    context_type: ContextType,
)
    ensures
        ({
            let bound = state.bound(requested, context_type);
            &&& bound.bind_actions(requested, context_type) == Seq::<ActionView>::empty()
            &&& bound.bound(requested, context_type) == bound
        }),
{
    let bound = state.bound(requested, context_type);
    assert(bound.bind_actions(requested, context_type) =~= Seq::<ActionView>::empty());
    assert(bound.bound(requested, context_type) =~= bound);
}

/// The number under which an action starts emulation.
pub open spec fn number_of(action: ActionView) -> Option<int> {
    match action {
        ActionView::Add { start_emulating, .. } => start_emulating,
        ActionView::Remove { .. } => None,
    }
}

/// Whether the emulation numbers of `actions` lie above `from` and up to `to`, each larger than
/// those before it.
pub open spec fn numbers_increase(actions: Seq<ActionView>, from: int, to: int) -> bool {
    &&& from <= to
    &&& forall|i: int|
        0 <= i < actions.len() && number_of(#[trigger] actions[i]) is Some ==> from < number_of(
            actions[i],
        )->0 <= to
    &&& forall|i: int, j: int|
        0 <= i < j < actions.len() && number_of(#[trigger] actions[i]) is Some && number_of(
            #[trigger] actions[j],
        ) is Some ==> number_of(actions[i])->0 < number_of(actions[j])->0
}

proof fn lemma_numbers_increase_joined(
    first: Seq<ActionView>,
    second: Seq<ActionView>,
    from: int,
    middle: int,
    to: int,
)
    requires
        numbers_increase(first, from, middle),
        numbers_increase(second, middle, to),
    ensures
        numbers_increase(first + second, from, to),
{
    let joined = first + second;
    assert forall|i: int| 0 <= i < joined.len() && number_of(#[trigger] joined[i]) is Some implies from
        < number_of(joined[i])->0 <= to by {
        if i < first.len() {
            assert(joined[i] == first[i]);
        } else {
            assert(joined[i] == second[i - first.len()]);
        }
    }
    assert forall|i: int, j: int|
        0 <= i < j < joined.len() && number_of(#[trigger] joined[i]) is Some && number_of(
            #[trigger] joined[j],
        ) is Some implies number_of(joined[i])->0 < number_of(joined[j])->0 by {
        if j < first.len() {
            assert(joined[i] == first[i] && joined[j] == first[j]);
        } else if i < first.len() {
            assert(joined[i] == first[i] && joined[j] == second[j - first.len()]);
        } else {
            assert(joined[i] == second[i - first.len()] && joined[j] == second[j - first.len()]);
        }
    }
}

/// Emulation numbers are never used twice: those of one request follow the last one used before
/// it, each larger than those before, and none is larger than the one remembered after it.
pub proof fn emulation_numbers_increase(
    state: ContextView,
    requested: Set<DeviceCapability>,
    context_type: ContextType,
)
    ensures
        numbers_increase(
            state.bind_actions(requested, context_type),
            state.sequence,
            state.bound(requested, context_type).sequence,
        ),
{
    let after_keyboard = state.sequence_after_keyboard(requested, context_type);
    let after_pointer = state.sequence_after_pointer(requested, context_type);
    let after_touch = state.bound(requested, context_type).sequence;
    let keyboard = state.keyboard_actions(requested, context_type);
    let pointer = state.pointer_actions(requested, context_type);
    let touch = state.touch_actions(requested, context_type);
    assert(numbers_increase(keyboard, state.sequence, after_keyboard));
    assert(numbers_increase(pointer, after_keyboard, after_pointer));
    assert(numbers_increase(touch, after_pointer, after_touch));
    lemma_numbers_increase_joined(
        keyboard,
        pointer,
        state.sequence,
        after_keyboard,
        after_pointer,
    );
    lemma_numbers_increase_joined(
        keyboard + pointer,
        touch,
        state.sequence,
        after_pointer,
        after_touch,
    );
}

/// A client that is offered the capabilities of some devices is offered more when it may use more
/// devices, and nothing when it may use none.
pub proof fn more_devices_offer_more(fewer: Set<DeviceType>, more: Set<DeviceType>)
    requires
        fewer.subset_of(more),
    ensures
        capabilities_of(fewer).subset_of(capabilities_of(more)),
        fewer == Set::<DeviceType>::empty() ==> capabilities_of(fewer)
            == Set::<DeviceCapability>::empty(),
{
    if fewer == Set::<DeviceType>::empty() {
        assert(capabilities_of(fewer) =~= Set::<DeviceCapability>::empty());
    }
}

/// The capability that a client needs for a request; `None` where the request makes no input.
pub open spec fn capability_used<C>(request: EisRequest<C>) -> Option<DeviceCapability> {
    match request {
        EisRequest::PointerMotion { .. } => Some(DeviceCapability::Pointer),
        EisRequest::PointerMotionAbsolute { .. } => Some(DeviceCapability::PointerAbsolute),
        EisRequest::Button { .. } => Some(DeviceCapability::Button),
        EisRequest::ScrollDelta { .. } | EisRequest::ScrollDiscrete { .. } => Some(
            DeviceCapability::Scroll,
        ),
        EisRequest::KeyboardKey { .. } => Some(DeviceCapability::Keyboard),
        EisRequest::TouchDown { .. }
        | EisRequest::TouchMotion { .. }
        | EisRequest::TouchUp { .. } => Some(DeviceCapability::Touch),
        EisRequest::Disconnect | EisRequest::Bind { .. } | EisRequest::Other => None,
    }
}

/// The capabilities that a client is offered and the input that it may make agree: what a request
/// makes is allowed just where the client is offered the capability that the request needs.
pub proof fn offers_and_permissions_agree<C>(
    devices: Set<DeviceType>,
    request: EisRequest<C>,
    i: int,
)
    requires
        0 <= i < input_of(request).len(),
    ensures
        capability_used(request) is Some,
        is_authorized(devices, input_of(request)[i]) <==> capabilities_of(devices).contains(
            capability_used(request)->0,
        ),
{
    assert(device_of(input_of(request)[i]) == device_behind(capability_used(request)->0));
}

impl ContextView {
    /// The devices after some events, in their order.
    pub open spec fn after_events<C>(
        self,
        events: Seq<EisRequestSourceEvent<C>>,
        context_type: ContextType,
    ) -> ContextView
        decreases events.len(),
    {
        if events.len() == 0 {
            self
        } else {
            self.after_events(events.drop_last(), context_type).after_event(
                events.last(),
                context_type,
            )
        }
    }
}

/// A connection stays with the session and the devices that its listener was registered with:
/// whatever the client has sent before, the seat and the devices that it gets next are within
/// what it may use, and all its input is made on behalf of that session.
pub proof fn connections_stay_with_their_listener<L, T, C>(
    message: EisServerMsg<L>,
    earlier: Option<T>,
    connection: ClientConnection,
    events: Seq<EisRequestSourceEvent<C>>,
    context_type: ContextType,
    next: EisRequestSourceEvent<C>,
    reaction: Reaction<C>,
)
    requires
        action_on(message, earlier) matches ListenerAction::Register {
            session_handle,
            devices,
            ..
        } && connection.session_handle == session_handle && connection.context@ == new_context(
            devices@,
        ),
        connection.context@.after_events(events, context_type).reacts(
            next,
            context_type,
            connection.session_handle@,
            reaction,
        ),
    ensures
        message matches EisServerMsg::NewListener(_, session_handle, granted) && {
            let offered = capabilities_of(granted@);
            let state = connection.context@.after_events(events, context_type);
            &&& state.wf()
            &&& state.capabilities == offered
            &&& reaction.add_seat matches Some(capabilities) ==> capabilities@ == offered
            &&& forall|i: int|
                0 <= i < reaction.events@.len() ==> handle_of(#[trigger] reaction.events@[i])
                    == session_handle@
            &&& forall|i: int|
                0 <= i < reaction.actions@.len() ==> (#[trigger] reaction.actions@[i]@ matches
                    ActionView::Add { capabilities, .. } ==> capabilities.subset_of(offered))
        },
{
    let devices = message->NewListener_2@;
    lemma_devices_stay_in_bounds(devices, events, context_type);
    let state = new_context(devices).after_events(events, context_type);
    assert forall|i: int| 0 <= i < reaction.actions@.len() implies (
    #[trigger] reaction.actions@[i]@ matches ActionView::Add { capabilities, .. } ==>
        capabilities.subset_of(capabilities_of(devices))) by {
        let views = action_views(reaction.actions@);
        assert(views[i] == reaction.actions@[i]@);
        if let EisRequestSourceEvent::Request(request) = next {
            assert(views == state.actions(request, context_type));
            if let EisRequest::Bind { capabilities } = request {
                let requested = capabilities@;
                added_devices_are_granted(state, requested, context_type, i);
                assert(state.bind_actions(requested, context_type)[i] == reaction.actions@[i]@);
            } else {
                assert(views.len() == 0);
            }
        }
    }
}

proof fn lemma_devices_stay_in_bounds<C>(
    devices: Set<DeviceType>,
    events: Seq<EisRequestSourceEvent<C>>,
    context_type: ContextType,
)
    ensures
        new_context(devices).after_events(events, context_type).wf(),
        new_context(devices).after_events(events, context_type).capabilities == capabilities_of(
            devices,
        ),
    decreases events.len(),
{
    if events.len() > 0 {
        let before = new_context(devices).after_events(events.drop_last(), context_type);
        lemma_devices_stay_in_bounds(devices, events.drop_last(), context_type);
        binding_keeps_devices_in_bounds(before, events.last(), context_type);
    }
}

/// Stopping, activating and removing act on the latest listener of the session that they name, if
/// it has not been removed since; otherwise they have no effect. A new listener is registered with
/// the session and the devices that came with it.
pub proof fn messages_act_on_the_latest_listener<L, T>(
    history: Seq<ServerStep<T>>,
    message: EisServerMsg<L>,
    action: ListenerAction<L, T>,
)
    requires
        action == action_on(message, latest_listener(history, session_of(message))),
    ensures
        message matches EisServerMsg::NewListener(listener, session_handle, devices) ==> action == (
        ListenerAction::<L, T>::Register { listener, session_handle, devices }),
        forall|i: int| #[trigger]
            is_latest_listener(history, session_of(message), i) ==> match message {
                EisServerMsg::NewListener(_, _, _) => true,
                EisServerMsg::StopListener(_) => action == ListenerAction::<L, T>::Disable(
                    history[i]->token,
                ),
                EisServerMsg::ActiveListener(_) => action == ListenerAction::<L, T>::Enable(
                    history[i]->token,
                ),
                EisServerMsg::RemoveListener(_) => action == ListenerAction::<L, T>::Remove(
                    history[i]->token,
                ),
            },
        !(message is NewListener) && (forall|i: int|
            !is_latest_listener(history, session_of(message), i)) ==> action
            == ListenerAction::<L, T>::Ignore,
{
    lemma_latest_listener_is_one(history, session_of(message));
}

/// The event source that an action touches, if any.
pub open spec fn token_touched<L, T>(action: ListenerAction<L, T>) -> Option<T> {
    match action {
        ListenerAction::Disable(token) => Some(token),
        ListenerAction::Enable(token) => Some(token),
        ListenerAction::Remove(token) => Some(token),
        _ => None,
    }
}

/// Listeners of other sessions are never touched: a message leaves them the latest ones of their
/// sessions, and where no two listeners got the same token, it acts on none of theirs.
pub proof fn other_listeners_are_never_touched<L, T>(
    history: Seq<ServerStep<T>>,
    message: EisServerMsg<L>,
    other: Seq<char>,
    index: int,
)
    requires
        session_of(message) != other,
        0 <= index < history.len(),
        history[index].registers(other),
        forall|i: int, j: int|
            0 <= i < j < history.len() && #[trigger] history[i] is Registered
                && #[trigger] history[j] is Registered ==> history[i]->token != history[j]->token,
    ensures
        latest_listener(history_after(history, message), other) == latest_listener(history, other),
        token_touched(action_on(message, latest_listener(history, session_of(message)))) != Some(
            history[index]->token,
        ),
{
    let after = history_after(history, message);
    let session = session_of(message);
    if !(message is NewListener) {
        assert(after =~= history.push(after.last()));
        latest_listener_follows_the_steps(history, after.last(), other);
    }
    if latest_listener(history, session) is Some {
        let i = choose|i: int| is_latest_listener(history, session, i);
        assert(is_latest_listener(history, session, i));
        assert(history[i] is Registered && history[index] is Registered);
        assert(i != index);
    }
}

} // verus!
