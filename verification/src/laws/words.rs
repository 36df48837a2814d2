//! Numbers, sets of flags and texts.

use crate::eis_server::DeviceCapability;
use crate::eis_server::DeviceSlot;
use crate::eis_server::PressState;
use crate::error::PortalError;
use crate::flags::flags_in;
use crate::flags::known_bits;
use crate::flags::BitFlag;
use crate::flags::BitFlags;
use crate::restore::parse_persist_mode;
use crate::session::all_devices;
use crate::session::CursorMode;
use crate::session::DeviceType;
use crate::session::PersistMode;
use crate::session::SourceType;
use crate::text::append_decimal;
use crate::text::decimal;
use crate::text::same_text;
use vstd::prelude::*;

verus! {

/// A word is a set of devices where it is less than eight: its ones are the keyboard, its twos the
/// pointer and its fours the touch screen.
pub proof fn words_hold_devices(bits: u32, r: Option<BitFlags<DeviceType>>)
    requires
        call_ensures(BitFlags::<DeviceType>::from_bits, (bits,), r),
    ensures
        r is Some <==> bits < 8,
        r matches Some(set) ==> {
            &&& set@.contains(DeviceType::Keyboard) <==> bits % 2 == 1
            &&& set@.contains(DeviceType::Pointer) <==> (bits / 2) % 2 == 1
            &&& set@.contains(DeviceType::TouchScreen) <==> (bits / 4) % 2 == 1
        },
{
    assert((bits & !7u32 == 0) == (bits < 8)) by (bit_vector);
    assert((bits & 1 != 0) == (bits % 2 == 1)) by (bit_vector);
    assert((bits & 2 != 0) == ((bits / 2) % 2 == 1)) by (bit_vector);
    assert((bits & 4 != 0) == ((bits / 4) % 2 == 1)) by (bit_vector);
    if let Some(set) = r {
        assert(DeviceType::Keyboard.mask() == 1 && DeviceType::Pointer.mask() == 2
            && DeviceType::TouchScreen.mask() == 4);
    }
}

/// One for the keyboard, two for the pointer and four for the touch screen, as far as they are in
/// the set.
pub open spec fn device_word(set: Set<DeviceType>) -> int {
    (if set.contains(DeviceType::Keyboard) {
        1int
    } else {
        0
    }) + (if set.contains(DeviceType::Pointer) {
        2int
    } else {
        0
    }) + (if set.contains(DeviceType::TouchScreen) {
        4int
    } else {
        0
    })
}

pub(crate) proof fn lemma_device_word(bits: u32, set: Set<DeviceType>)
    requires
        known_bits::<DeviceType>(bits),
        flags_in::<DeviceType>(bits) == set,
    ensures
        bits == device_word(set),
        bits < 8,
{
    assert(DeviceType::Keyboard.mask() == 1 && DeviceType::Pointer.mask() == 2 && DeviceType::TouchScreen.mask() == 4);
    let a = bits & 1 != 0;
    let b = bits & 2 != 0;
    let c = bits & 4 != 0;
    assert(set.contains(DeviceType::Keyboard) == a);
    assert(set.contains(DeviceType::Pointer) == b);
    assert(set.contains(DeviceType::TouchScreen) == c);
    assert(bits < 8 && bits == (if a {
        1int
    } else {
        0
    }) + (if b {
        2int
    } else {
        0
    }) + (if c {
        4int
    } else {
        0
    })) by (bit_vector)
        requires
            bits & !7u32 == 0,
            a == (bits & 1 != 0),
            b == (bits & 2 != 0),
            c == (bits & 4 != 0),
    ;
}

/// The word of a set of devices counts one for the keyboard, two for the pointer and four for the
/// touch screen.
pub proof fn devices_make_words(set: &BitFlags<DeviceType>, bits: u32)
    requires
        call_ensures(BitFlags::<DeviceType>::bits, (set,), bits),
    ensures
        bits == device_word(set@),
{
    lemma_device_word(bits, set@);
}

/// A word is a set of sources where it is less than eight: its ones are monitors, its twos windows
/// and its fours virtual sources.
pub proof fn words_hold_sources(bits: u32, r: Option<BitFlags<SourceType>>)
    requires
        call_ensures(BitFlags::<SourceType>::from_bits, (bits,), r),
    ensures
        r is Some <==> bits < 8,
        r matches Some(set) ==> {
            &&& set@.contains(SourceType::Monitor) <==> bits % 2 == 1
            &&& set@.contains(SourceType::Window) <==> (bits / 2) % 2 == 1
            &&& set@.contains(SourceType::Virtual) <==> (bits / 4) % 2 == 1
        },
{
    assert((bits & !7u32 == 0) == (bits < 8)) by (bit_vector);
    assert((bits & 1 != 0) == (bits % 2 == 1)) by (bit_vector);
    assert((bits & 2 != 0) == ((bits / 2) % 2 == 1)) by (bit_vector);
    assert((bits & 4 != 0) == ((bits / 4) % 2 == 1)) by (bit_vector);
    if let Some(set) = r {
        assert(SourceType::Monitor.mask() == 1 && SourceType::Window.mask() == 2
            && SourceType::Virtual.mask() == 4);
    }
}

/// One for monitors, two for windows and four for virtual sources, as far as they are in the set.
pub open spec fn source_word(set: Set<SourceType>) -> int {
    (if set.contains(SourceType::Monitor) {
        1int
    } else {
        0
    }) + (if set.contains(SourceType::Window) {
        2int
    } else {
        0
    }) + (if set.contains(SourceType::Virtual) {
        4int
    } else {
        0
    })
}

pub(crate) proof fn lemma_source_word(bits: u32, set: Set<SourceType>)
    requires
        known_bits::<SourceType>(bits),
        flags_in::<SourceType>(bits) == set,
    ensures
        bits == source_word(set),
        bits < 8,
{
    assert(SourceType::Monitor.mask() == 1 && SourceType::Window.mask() == 2 && SourceType::Virtual.mask() == 4);
    let a = bits & 1 != 0;
    let b = bits & 2 != 0;
    let c = bits & 4 != 0;
    assert(set.contains(SourceType::Monitor) == a);
    assert(set.contains(SourceType::Window) == b);
    assert(set.contains(SourceType::Virtual) == c);
    assert(bits < 8 && bits == (if a {
        1int
    } else {
        0
    }) + (if b {
        2int
    } else {
        0
    }) + (if c {
        4int
    } else {
        0
    })) by (bit_vector)
        requires
            bits & !7u32 == 0,
            a == (bits & 1 != 0),
            b == (bits & 2 != 0),
            c == (bits & 4 != 0),
    ;
}

/// The word of a set of sources counts one for monitors, two for windows and four for virtual
/// sources.
pub proof fn sources_make_words(set: &BitFlags<SourceType>, bits: u32)
    requires
        call_ensures(BitFlags::<SourceType>::bits, (set,), bits),
    ensures
        bits == source_word(set@),
{
    lemma_source_word(bits, set@);
}

/// A word is a set of capabilities where it is less than 128, each capability a binary place.
pub proof fn words_hold_capabilities(bits: u32, r: Option<BitFlags<DeviceCapability>>)
    requires
        call_ensures(BitFlags::<DeviceCapability>::from_bits, (bits,), r),
    ensures
        r is Some <==> bits < 128,
        r matches Some(set) ==> {
            &&& set@.contains(DeviceCapability::Pointer) <==> bits % 2 == 1
            &&& set@.contains(DeviceCapability::PointerAbsolute) <==> (bits / 2) % 2 == 1
            &&& set@.contains(DeviceCapability::Keyboard) <==> (bits / 4) % 2 == 1
            &&& set@.contains(DeviceCapability::Touch) <==> (bits / 8) % 2 == 1
            &&& set@.contains(DeviceCapability::Scroll) <==> (bits / 16) % 2 == 1
            &&& set@.contains(DeviceCapability::Button) <==> (bits / 32) % 2 == 1
            &&& set@.contains(DeviceCapability::Text) <==> (bits / 64) % 2 == 1
        },
{
    assert((bits & !127u32 == 0) == (bits < 128)) by (bit_vector);
    assert((bits & 1 != 0) == (bits % 2 == 1) && (bits & 2 != 0) == ((bits / 2) % 2 == 1) && (bits
        & 4 != 0) == ((bits / 4) % 2 == 1) && (bits & 8 != 0) == ((bits / 8) % 2 == 1) && (bits
        & 16 != 0) == ((bits / 16) % 2 == 1) && (bits & 32 != 0) == ((bits / 32) % 2 == 1) && (bits
        & 64 != 0) == ((bits / 64) % 2 == 1)) by (bit_vector);
    if let Some(set) = r {
        assert(DeviceCapability::Pointer.mask() == 1 && DeviceCapability::PointerAbsolute.mask()
            == 2 && DeviceCapability::Keyboard.mask() == 4 && DeviceCapability::Touch.mask() == 8
            && DeviceCapability::Scroll.mask() == 16 && DeviceCapability::Button.mask() == 32
            && DeviceCapability::Text.mask() == 64);
    }
}

/// Taking a set apart and putting it together again gives the same set.
pub proof fn words_bring_sets_back<T: BitFlag>(
    set: &BitFlags<T>,
    bits: u32,
    r: Option<BitFlags<T>>,
    flag: T,
)
    requires
        call_ensures(BitFlags::<T>::bits, (set,), bits),
        call_ensures(BitFlags::<T>::from_bits, (bits,), r),
    ensures
        r matches Some(again) && (again@.contains(flag) <==> set@.contains(flag)),
{
}

/// What is in a set after each operation on sets.
pub proof fn sets_hold_what_went_in<T: BitFlag>(
    a: BitFlags<T>,
    b: BitFlags<T>,
    added: T,
    flag: T,
    none: BitFlags<T>,
    single: BitFlags<T>,
    either: BitFlags<T>,
    both: BitFlags<T>,
    more: BitFlags<T>,
    asked: bool,
    empty: bool,
)
    requires
        call_ensures(BitFlags::<T>::empty, (), none),
        call_ensures(BitFlags::<T>::from_flag, (added,), single),
        call_ensures(BitFlags::<T>::union, (a, b), either),
        call_ensures(BitFlags::<T>::intersection, (a, b), both),
        call_ensures(BitFlags::<T>::with, (a, added), more),
        call_ensures(BitFlags::<T>::contains, (&a, flag), asked),
        call_ensures(BitFlags::<T>::is_empty, (&a,), empty),
    ensures
        !none@.contains(flag),
        single@.contains(flag) <==> flag == added,
        either@.contains(flag) <==> a@.contains(flag) || b@.contains(flag),
        both@.contains(flag) <==> a@.contains(flag) && b@.contains(flag),
        more@.contains(flag) <==> a@.contains(flag) || flag == added,
        asked <==> a@.contains(flag),
        empty <==> forall|f: T| !a@.contains(f),
{
    if empty {
        assert(a@ == Set::<T>::empty());
    } else if forall|f: T| !a@.contains(f) {
        assert(a@ =~= Set::<T>::empty());
    }
}

/// Sets are equal where they hold the same flags.
pub proof fn equal_sets_hold_the_same_flags<T: BitFlag>(a: &BitFlags<T>, b: &BitFlags<T>, r: bool)
    requires
        call_ensures(<BitFlags<T> as PartialEq>::eq, (a, b), r),
    ensures
        r <==> forall|flag: T| a@.contains(flag) <==> b@.contains(flag),
{
    if forall|flag: T| a@.contains(flag) <==> b@.contains(flag) {
        assert(a@ =~= b@);
    }
}

/// Every device is one of all devices.
pub proof fn all_devices_leave_none_out(r: BitFlags<DeviceType>, device: DeviceType)
    requires
        call_ensures(all_devices, (), r),
    ensures
        r@.contains(device),
{
}

/// Modes are numbered by how long they last, from zero on, and read back from their numbers.
pub proof fn modes_are_numbered_by_how_long_they_last(
    mode: PersistMode,
    number: u32,
    r: Option<PersistMode>,
)
    requires
        call_ensures(PersistMode::value, (mode,), number),
        call_ensures(parse_persist_mode, (number,), r),
    ensures
        number == 0 <==> mode == PersistMode::DoNot,
        number == 1 <==> mode == PersistMode::Application,
        number == 2 <==> mode == PersistMode::ExplicitlyRevoked,
        r == Some(mode),
{
}

/// Only the numbers up to two stand for modes.
pub proof fn other_numbers_are_no_modes(number: u32, r: Option<PersistMode>)
    requires
        call_ensures(parse_persist_mode, (number,), r),
    ensures
        r is None <==> number > 2,
        r == Some(PersistMode::DoNot) <==> number == 0,
        r == Some(PersistMode::Application) <==> number == 1,
        r == Some(PersistMode::ExplicitlyRevoked) <==> number == 2,
{
}

/// The cursor is shown unless it is hidden.
pub proof fn only_hidden_cursors_are_not_shown(mode: &CursorMode, shown: bool)
    requires
        call_ensures(CursorMode::show_cursor, (mode,), shown),
    ensures
        shown <==> *mode is Embedded || *mode is Metadata,
{
}

/// A press is one and a release zero.
pub proof fn presses_are_one_and_releases_zero(state: PressState, number: u32)
    requires
        call_ensures(PressState::value, (state,), number),
    ensures
        state is Press ==> number == 1,
        state is Released ==> number == 0,
{
}

/// Each slot has its name.
pub proof fn slots_are_named(slot: DeviceSlot, name: &'static str)
    requires
        call_ensures(DeviceSlot::name, (slot,), name),
    ensures
        slot is Keyboard ==> name@ == "keyboard"@,
        slot is Pointer ==> name@ == "pointer"@,
        slot is Touch ==> name@ == "touch"@,
{
}

/// Texts are the same where they have the same characters.
pub proof fn texts_are_compared_by_character(a: &str, b: &str, same: bool)
    requires
        call_ensures(same_text, (a, b), same),
    ensures
        same <==> a@.len() == b@.len() && forall|i: int| 0 <= i < a@.len() ==> a@[i] == b@[i],
{
    if !same && a@.len() == b@.len() && forall|i: int| 0 <= i < a@.len() ==> a@[i] == b@[i] {
        assert(a@ =~= b@);
    }
}

/// The number that a text of decimal digits writes.
pub open spec fn number_written(text: Seq<char>) -> int
    decreases text.len(),
{
    if text.len() == 0 {
        0
    } else {
        10 * number_written(text.drop_last()) + (text.last() as int - '0' as int)
    }
}

/// Writing a number puts digits behind the text, and these write the number.
pub proof fn digits_write_the_number(text: &mut String, number: usize)
    requires
        call_ensures(append_decimal, (text, number), ()),
    ensures
        final(text)@.len() > old(text)@.len(),
        final(text)@.take(old(text)@.len() as int) == old(text)@,
        number_written(final(text)@.skip(old(text)@.len() as int)) == number,
        forall|i: int|
            old(text)@.len() <= i < final(text)@.len() ==> '0' <= #[trigger] final(text)@[i] <= '9',
{
    lemma_decimal_writes(number as nat);
    let before = old(text)@;
    let after = final(text)@;
    let digits = decimal(number as nat);
    assert(after == before + digits);
    assert(after.take(before.len() as int) =~= before);
    assert(after.skip(before.len() as int) =~= digits);
    assert forall|i: int| before.len() <= i < after.len() implies '0' <= #[trigger] after[i]
        <= '9' by {
        assert(after[i] == digits[i - before.len()]);
    }
}

proof fn lemma_decimal_writes(number: nat)
    ensures
        decimal(number).len() > 0,
        number_written(decimal(number)) == number,
        forall|i: int|
            0 <= i < decimal(number).len() ==> '0' <= #[trigger] decimal(number)[i] <= '9',
    decreases number,
{
    let text = decimal(number);
    reveal_with_fuel(number_written, 2);
    if number < 10 {
        assert(text.drop_last() =~= Seq::<char>::empty());
    } else {
        lemma_decimal_writes(number / 10);
        assert(text.drop_last() =~= decimal(number / 10));
    }
}

/// Each error says why: what it tells, and behind it the reason where one is known.
pub proof fn errors_say_why(error: &PortalError, r: String)
    requires
        call_ensures(PortalError::message, (error,), r),
    ensures
        *error is InputNotAuthorized ==> r@ == "input device is not authorized"@,
        *error is SendFailed ==> r@ == "Send failed"@,
        *error is NotStarted ==> r@ == "remote session is not started"@,
        *error is CannotSerialize ==> r@ == "cannot serialize restore data"@,
        *error is Cancelled ==> r@ == "You cancel it"@,
        *error matches PortalError::InvalidOutputIndex(index) ==> {
            let told = "output picker returned invalid index "@;
            &&& r@.len() > told.len()
            &&& r@.take(told.len() as int) == told
            &&& number_written(r@.skip(told.len() as int)) == index
        },
        *error matches PortalError::Wayland(reason) ==> r@ == "wayland error, "@ + reason@,
        *error matches PortalError::CannotStartStream(reason) ==> r@
            == "cannot start pipewire stream, error: "@ + reason@,
        *error matches PortalError::CannotListen(reason) ==> r@
            == "Failed to create EIS listener: "@ + reason@,
        *error matches PortalError::CannotDuplicate(reason) ==> r@ == reason@,
{
    if let PortalError::InvalidOutputIndex(index) = *error {
        let told = "output picker returned invalid index "@;
        lemma_decimal_writes(index as nat);
        assert(r@ == told + decimal(index as nat));
        assert(r@.take(told.len() as int) =~= told);
        assert(r@.skip(told.len() as int) =~= decimal(index as nat));
    }
}

} // verus!
