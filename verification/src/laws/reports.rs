//! The reports of a device: their codes, their interfaces and what they carry.
use crate::hid::{EventKind, Interface, InterfaceMask};
use crate::input::{Button, ButtonEvent, ButtonState, InputSource};
use crate::protocol::Axis3;
use vstd::prelude::*;

verus! {

/// Buttons and their codes stand for each other, and there are twenty-eight.
pub proof fn buttons_have_codes(button: Button, code: u32, other: u32, found: Option<Button>)
    requires
        call_ensures(Button::code, (button, ), code),
        call_ensures(Button::from_code, (other, ), found),
    ensures
        code < 28,
        other == code ==> found == Some(button),
        found == Some(button) ==> other == code,
        found is None <==> other >= 28,
{
    if other == code {
        assert(found is Some);
        let b = found->0;
        assert(b.spec_code() == button.spec_code());
    }
}

/// The codes of the buttons.
pub proof fn the_codes_of_buttons(button: Button, code: u32)
    requires
        call_ensures(Button::code, (button, ), code),
    ensures
        button is Left <==> code == 0,
        button is Right <==> code == 1,
        button is Up <==> code == 2,
        button is Down <==> code == 3,
        button is A <==> code == 4,
        button is B <==> code == 5,
        button is Plus <==> code == 6,
        button is Minus <==> code == 7,
        button is Home <==> code == 8,
        button is One <==> code == 9,
        button is Two <==> code == 10,
        button is X <==> code == 11,
        button is Y <==> code == 12,
        button is ShoulderLeft <==> code == 13,
        button is ShoulderRight <==> code == 14,
        button is TriggerLeft <==> code == 15,
        button is TriggerRight <==> code == 16,
        button is ThumbLeft <==> code == 17,
        button is ThumbRight <==> code == 18,
        button is C <==> code == 19,
        button is Z <==> code == 20,
        button is StrumBarUp <==> code == 21,
        button is StrumBarDown <==> code == 22,
        button is FretFarUp <==> code == 23,
        button is FretUp <==> code == 24,
        button is FretMid <==> code == 25,
        button is FretLow <==> code == 26,
        button is FretFarLow <==> code == 27,
{
}

/// A button's state is a number: zero for up, one for down, two for a repetition.
pub proof fn button_states_are_numbers(
    state: ButtonState,
    value: u32,
    number: u32,
    found: Option<ButtonState>,
)
    requires
        call_ensures(ButtonState::value, (state, ), value),
        call_ensures(ButtonState::from_value, (number, ), found),
    ensures
        state is Released <==> value == 0,
        state is Pressed <==> value == 1,
        state is Repeated <==> value == 2,
        found == Some(state) <==> number == value,
        found is None <==> number > 2,
{
}

/// The sources of buttons are told apart.
pub proof fn sources_have_their_place(a: InputSource, b: InputSource, i: usize, j: usize)
    requires
        call_ensures(InputSource::index, (a, ), i),
        call_ensures(InputSource::index, (b, ), j),
    ensures
        i < 6 && j < 6,
        i == j <==> a == b,
{
}

/// A set of interfaces holds what was put in, and nothing that was taken out.
pub proof fn masks_are_sets(
    mask: InterfaceMask,
    added: Interface,
    larger: InterfaceMask,
    smaller: InterfaceMask,
    other: Interface,
    in_mask: bool,
    in_larger: bool,
    in_smaller: bool,
)
    requires
        call_ensures(InterfaceMask::with, (mask, added), larger),
        call_ensures(InterfaceMask::without, (mask, added), smaller),
        call_ensures(InterfaceMask::contains, (mask, other), in_mask),
        call_ensures(InterfaceMask::contains, (larger, other), in_larger),
        call_ensures(InterfaceMask::contains, (smaller, other), in_smaller),
    ensures
        in_larger <==> in_mask || other == added,
        in_smaller <==> in_mask && other != added,
{
}

/// Of two sets of interfaces the common part and the difference are those of sets.
pub proof fn masks_meet_and_differ(
    a: InterfaceMask,
    b: InterfaceMask,
    common: InterfaceMask,
    rest: InterfaceMask,
    i: Interface,
    in_a: bool,
    in_b: bool,
    in_common: bool,
    in_rest: bool,
)
    requires
        call_ensures(InterfaceMask::intersection, (a, b), common),
        call_ensures(InterfaceMask::difference, (a, b), rest),
        call_ensures(InterfaceMask::contains, (a, i), in_a),
        call_ensures(InterfaceMask::contains, (b, i), in_b),
        call_ensures(InterfaceMask::contains, (common, i), in_common),
        call_ensures(InterfaceMask::contains, (rest, i), in_rest),
    ensures
        in_common <==> in_a && in_b,
        in_rest <==> in_a && !in_b,
{
}

/// The empty set of interfaces holds none, the full one holds all.
pub proof fn masks_have_ends(
    none: InterfaceMask,
    all: InterfaceMask,
    i: Interface,
    in_none: bool,
    in_all: bool,
    none_empty: bool,
    all_empty: bool,
)
    requires
        call_ensures(InterfaceMask::empty, (), none),
        call_ensures(InterfaceMask::all, (), all),
        call_ensures(InterfaceMask::contains, (none, i), in_none),
        call_ensures(InterfaceMask::contains, (all, i), in_all),
        call_ensures(InterfaceMask::is_empty, (none, ), none_empty),
        call_ensures(InterfaceMask::is_empty, (all, ), all_empty),
    ensures
        !in_none && in_all,
        none_empty && !all_empty,
{
    assert(all.has(Interface::Core));
    assert(!none.has(Interface::Core) && !none.has(Interface::Accel) && !none.has(Interface::Ir));
    assert(!none.has(Interface::MotionPlus) && !none.has(Interface::Nunchuk));
    assert(!none.has(Interface::ClassicController) && !none.has(Interface::BalanceBoard));
    assert(!none.has(Interface::ProController) && !none.has(Interface::Drums));
    assert(!none.has(Interface::Guitar));
}

/// A set of one interface is written as that interface's bit.
pub proof fn single_masks_are_bits(
    none: InterfaceMask,
    i: Interface,
    one: InterfaceMask,
    bits: u32,
    bit: u32,
)
    requires
        call_ensures(InterfaceMask::empty, (), none),
        call_ensures(InterfaceMask::with, (none, i), one),
        call_ensures(InterfaceMask::bits, (one, ), bits),
        call_ensures(Interface::bit, (i, ), bit),
    ensures
        bits == bit,
{
    assert(one.core == (i is Core)) by {
        assert(one.has(Interface::Core) == (none.has(Interface::Core) || i == Interface::Core));
    }
    assert(one.accel == (i is Accel)) by {
        assert(one.has(Interface::Accel) == (none.has(Interface::Accel) || i == Interface::Accel));
    }
    assert(one.ir == (i is Ir)) by {
        assert(one.has(Interface::Ir) == (none.has(Interface::Ir) || i == Interface::Ir));
    }
    assert(one.motion_plus == (i is MotionPlus)) by {
        assert(one.has(Interface::MotionPlus) == (none.has(Interface::MotionPlus) || i
            == Interface::MotionPlus));
    }
    assert(one.nunchuk == (i is Nunchuk)) by {
        assert(one.has(Interface::Nunchuk) == (none.has(Interface::Nunchuk) || i
            == Interface::Nunchuk));
    }
    assert(one.classic == (i is ClassicController)) by {
        assert(one.has(Interface::ClassicController) == (none.has(Interface::ClassicController) || i
            == Interface::ClassicController));
    }
    assert(one.balance == (i is BalanceBoard)) by {
        assert(one.has(Interface::BalanceBoard) == (none.has(Interface::BalanceBoard) || i
            == Interface::BalanceBoard));
    }
    assert(one.pro == (i is ProController)) by {
        assert(one.has(Interface::ProController) == (none.has(Interface::ProController) || i
            == Interface::ProController));
    }
    assert(one.drums == (i is Drums)) by {
        assert(one.has(Interface::Drums) == (none.has(Interface::Drums) || i == Interface::Drums));
    }
    assert(one.guitar == (i is Guitar)) by {
        assert(one.has(Interface::Guitar) == (none.has(Interface::Guitar) || i
            == Interface::Guitar));
    }
}

/// Each kind of report has its code.
pub proof fn reports_have_codes(kind: &EventKind, code: u32)
    requires
        call_ensures(EventKind::event_type_code, (kind, ), code),
        *kind !is Unknown,
    ensures
        *kind is Key <==> code == 0,
        *kind is Accel <==> code == 1,
        *kind is Ir <==> code == 2,
        *kind is BalanceBoard <==> code == 3,
        *kind is MotionPlus <==> code == 4,
        *kind is ProControllerKey <==> code == 5,
        *kind is ProControllerMove <==> code == 6,
        *kind is Watch <==> code == 7,
        *kind is ClassicControllerKey <==> code == 8,
        *kind is ClassicControllerMove <==> code == 9,
        *kind is NunchukKey <==> code == 10,
        *kind is NunchukMove <==> code == 11,
        *kind is DrumsKey <==> code == 12,
        *kind is DrumsMove <==> code == 13,
        *kind is GuitarKey <==> code == 14,
        *kind is GuitarMove <==> code == 15,
        *kind is Gone <==> code == 16,
{
}

/// A report of an unknown kind has the code that it came with.
pub proof fn unknown_reports_keep_their_code(kind: &EventKind, code: u32)
    requires
        call_ensures(EventKind::event_type_code, (kind, ), code),
    ensures
        *kind matches EventKind::Unknown(n) ==> code == n,
{
}

/// Each kind of report has its name.
pub proof fn reports_have_names(kind: &EventKind, name: &'static str)
    requires
        call_ensures(EventKind::name, (kind, ), name),
    ensures
        *kind is Key ==> name@ == "key"@,
        *kind is Accel ==> name@ == "accel"@,
        *kind is Ir ==> name@ == "ir"@,
        *kind is BalanceBoard ==> name@ == "balance-board"@,
        *kind is MotionPlus ==> name@ == "motion-plus"@,
        *kind is ProControllerKey ==> name@ == "pro-key"@,
        *kind is ProControllerMove ==> name@ == "pro-move"@,
        *kind is Watch ==> name@ == "watch"@,
        *kind is ClassicControllerKey ==> name@ == "classic-key"@,
        *kind is ClassicControllerMove ==> name@ == "classic-move"@,
        *kind is NunchukKey ==> name@ == "nunchuk-key"@,
        *kind is NunchukMove ==> name@ == "nunchuk-move"@,
        *kind is DrumsKey ==> name@ == "drums-key"@,
        *kind is DrumsMove ==> name@ == "drums-move"@,
        *kind is GuitarKey ==> name@ == "guitar-key"@,
        *kind is GuitarMove ==> name@ == "guitar-move"@,
        *kind is Gone ==> name@ == "gone"@,
        *kind is Unknown ==> name@ == "unknown"@,
{
}

/// A report comes from the interface that it is named after; a change of the device and the end of
/// it come from none.
pub proof fn reports_come_from_their_interface(kind: &EventKind, interface: Option<Interface>)
    requires
        call_ensures(EventKind::interface, (kind, ), interface),
    ensures
        interface == Some(Interface::Core) <==> *kind is Key,
        interface == Some(Interface::Accel) <==> *kind is Accel,
        interface == Some(Interface::Ir) <==> *kind is Ir,
        interface == Some(Interface::MotionPlus) <==> *kind is MotionPlus,
        interface == Some(Interface::BalanceBoard) <==> *kind is BalanceBoard,
        interface == Some(Interface::Nunchuk) <==> *kind is NunchukKey || *kind is NunchukMove,
        interface == Some(Interface::ClassicController) <==> *kind is ClassicControllerKey
            || *kind is ClassicControllerMove,
        interface == Some(Interface::ProController) <==> *kind is ProControllerKey
            || *kind is ProControllerMove,
        interface == Some(Interface::Drums) <==> *kind is DrumsKey || *kind is DrumsMove,
        interface == Some(Interface::Guitar) <==> *kind is GuitarKey || *kind is GuitarMove,
        interface is None <==> *kind is Watch || *kind is Gone || *kind is Unknown,
{
}

/// A key report carries its button under the source that it comes from; other reports carry none.
pub proof fn key_reports_carry_a_button(kind: &EventKind, key: Option<(InputSource, ButtonEvent)>)
    requires
        call_ensures(EventKind::key_event, (kind, ), key),
    ensures
        *kind matches EventKind::Key(b) ==> key == Some((InputSource::Core, b)),
        *kind matches EventKind::NunchukKey(b) ==> key == Some((InputSource::Nunchuk, b)),
        *kind matches EventKind::ClassicControllerKey(b) ==> key == Some(
            (InputSource::ClassicController, b),
        ),
        *kind matches EventKind::ProControllerKey(b) ==> key == Some(
            (InputSource::ProController, b),
        ),
        *kind matches EventKind::DrumsKey(b) ==> key == Some((InputSource::Drums, b)),
        *kind matches EventKind::GuitarKey(b) ==> key == Some((InputSource::Guitar, b)),
        !(*kind is Key || *kind is NunchukKey || *kind is ClassicControllerKey
            || *kind is ProControllerKey || *kind is DrumsKey || *kind is GuitarKey)
            ==> key is None,
{
}

/// A movement report carries all its axes, in order; other reports carry none.
pub proof fn movement_reports_carry_their_axes(kind: &EventKind, axes: Vec<Axis3>)
    requires
        call_ensures(EventKind::axis_events, (kind, ), axes),
    ensures
        *kind matches EventKind::Accel(v) ==> axes@.len() == 1 && axes@[0] == v,
        *kind matches EventKind::MotionPlus(v) ==> axes@.len() == 1 && axes@[0] == v,
        *kind matches EventKind::Ir(v) ==> axes@ == v@,
        *kind matches EventKind::BalanceBoard(v) ==> axes@ == v@,
        *kind matches EventKind::NunchukMove(v) ==> axes@ == v@,
        *kind matches EventKind::ProControllerMove(v) ==> axes@ == v@,
        *kind matches EventKind::ClassicControllerMove(v) ==> axes@ == v@,
        *kind matches EventKind::GuitarMove(v) ==> axes@ == v@,
        *kind matches EventKind::DrumsMove(v) ==> axes@ == v@,
        !(*kind is Accel || *kind is MotionPlus || *kind is Ir || *kind is BalanceBoard
            || *kind is NunchukMove || *kind is ProControllerMove || *kind is ClassicControllerMove
            || *kind is GuitarMove || *kind is DrumsMove) ==> axes@.len() == 0,
{
}

/// A set of interfaces is read from its bits.
pub proof fn bits_are_read_as_masks(bits: u32, mask: InterfaceMask)
    requires
        call_ensures(InterfaceMask::from_bits, (bits, ), mask),
    ensures
        mask.has(Interface::Core) == (bits & 0x1 != 0),
        mask.has(Interface::Accel) == (bits & 0x2 != 0),
        mask.has(Interface::Ir) == (bits & 0x4 != 0),
        mask.has(Interface::MotionPlus) == (bits & 0x100 != 0),
        mask.has(Interface::Nunchuk) == (bits & 0x200 != 0),
        mask.has(Interface::ClassicController) == (bits & 0x400 != 0),
        mask.has(Interface::BalanceBoard) == (bits & 0x800 != 0),
        mask.has(Interface::ProController) == (bits & 0x1000 != 0),
        mask.has(Interface::Drums) == (bits & 0x2000 != 0),
        mask.has(Interface::Guitar) == (bits & 0x4000 != 0),
{
}

} // verus!
