//! Reports of the controller's interfaces, and sets of those interfaces.
use crate::input::{ButtonEvent, InputSource};
use crate::protocol::{Axis3, Timestamp};
use vstd::prelude::*;

verus! {

/// An interface of a controller.
#[derive(Clone, Copy, Debug, PartialEq, Eq, Structural, Hash)]
pub enum Interface {
    Core,
    Accel,
    Ir,
    MotionPlus,
    Nunchuk,
    ClassicController,
    BalanceBoard,
    ProController,
    Drums,
    Guitar,
}

impl Interface {
    /// The bit of an interface.
    pub open spec fn spec_bit(self) -> u32 {
        match self {
            Interface::Core => 0x1,
            Interface::Accel => 0x2,
            Interface::Ir => 0x4,
            Interface::MotionPlus => 0x100,
            Interface::Nunchuk => 0x200,
            Interface::ClassicController => 0x400,
            Interface::BalanceBoard => 0x800,
            Interface::ProController => 0x1000,
            Interface::Drums => 0x2000,
            Interface::Guitar => 0x4000,
        }
    }

    /// The bit of this interface.
    pub fn bit(self) -> (bit: u32)
        ensures
            bit == self.spec_bit(),
    {
        match self {
            Interface::Core => 0x1,
            Interface::Accel => 0x2,
            Interface::Ir => 0x4,
            Interface::MotionPlus => 0x100,
            Interface::Nunchuk => 0x200,
            Interface::ClassicController => 0x400,
            Interface::BalanceBoard => 0x800,
            Interface::ProController => 0x1000,
            Interface::Drums => 0x2000,
            Interface::Guitar => 0x4000,
        }
    }
}

/// A bit where something holds, and nothing where it does not.
pub open spec fn flag(on: bool, bit: u32) -> int {
    if on {
        bit as int
    } else {
        0
    }
}

fn flag_bit(on: bool, bit: u32) -> (r: u32)
    ensures
        r == flag(on, bit),
        r <= bit,
{
    if on {
        bit
    } else {
        0
    }
}

/// A set of interfaces.
#[derive(Clone, Copy, Debug, PartialEq, Eq, Structural, Hash)]
pub struct InterfaceMask {
    pub core: bool,
    pub accel: bool,
    pub ir: bool,
    pub motion_plus: bool,
    pub nunchuk: bool,
    pub classic: bool,
    pub balance: bool,
    pub pro: bool,
    pub drums: bool,
    pub guitar: bool,
}

impl InterfaceMask {
    /// Whether an interface is in a set.
    pub open spec fn has(self, interface: Interface) -> bool {
        match interface {
            Interface::Core => self.core,
            Interface::Accel => self.accel,
            Interface::Ir => self.ir,
            Interface::MotionPlus => self.motion_plus,
            Interface::Nunchuk => self.nunchuk,
            Interface::ClassicController => self.classic,
            Interface::BalanceBoard => self.balance,
            Interface::ProController => self.pro,
            Interface::Drums => self.drums,
            Interface::Guitar => self.guitar,
        }
    }

    /// The set without members.
    pub fn empty() -> (mask: InterfaceMask)
        ensures
            forall|i: Interface| !#[trigger] mask.has(i),
    {
        InterfaceMask {
            core: false,
            accel: false,
            ir: false,
            motion_plus: false,
            nunchuk: false,
            classic: false,
            balance: false,
            pro: false,
            drums: false,
            guitar: false,
        }
    }

    /// The set of all interfaces.
    pub fn all() -> (mask: InterfaceMask)
        ensures
            forall|i: Interface| #[trigger] mask.has(i),
    {
        InterfaceMask {
            core: true,
            accel: true,
            ir: true,
            motion_plus: true,
            nunchuk: true,
            classic: true,
            balance: true,
            pro: true,
            drums: true,
            guitar: true,
        }
    }

    /// The set with one more member.
    pub fn with(self, interface: Interface) -> (mask: InterfaceMask)
        ensures
            forall|i: Interface| #[trigger] mask.has(i) == (self.has(i) || i == interface),
    {
        let mut mask = self;
        match interface {
            Interface::Core => {
                mask.core = true;
            },
            Interface::Accel => {
                mask.accel = true;
            },
            Interface::Ir => {
                mask.ir = true;
            },
            Interface::MotionPlus => {
                mask.motion_plus = true;
            },
            Interface::Nunchuk => {
                mask.nunchuk = true;
            },
            Interface::ClassicController => {
                mask.classic = true;
            },
            Interface::BalanceBoard => {
                mask.balance = true;
            },
            Interface::ProController => {
                mask.pro = true;
            },
            Interface::Drums => {
                mask.drums = true;
            },
            Interface::Guitar => {
                mask.guitar = true;
            },
        }
        mask
    }

    /// The set with one member less.
    pub fn without(self, interface: Interface) -> (mask: InterfaceMask)
        ensures
            forall|i: Interface| #[trigger] mask.has(i) == (self.has(i) && i != interface),
    {
        let mut mask = self;
        match interface {
            Interface::Core => {
                mask.core = false;
            },
            Interface::Accel => {
                mask.accel = false;
            },
            Interface::Ir => {
                mask.ir = false;
            },
            Interface::MotionPlus => {
                mask.motion_plus = false;
            },
            Interface::Nunchuk => {
                mask.nunchuk = false;
            },
            Interface::ClassicController => {
                mask.classic = false;
            },
            Interface::BalanceBoard => {
                mask.balance = false;
            },
            Interface::ProController => {
                mask.pro = false;
            },
            Interface::Drums => {
                mask.drums = false;
            },
            Interface::Guitar => {
                mask.guitar = false;
            },
        }
        mask
    }

    /// The members of both sets.
    pub fn intersection(self, other: InterfaceMask) -> (mask: InterfaceMask)
        ensures
            forall|i: Interface| #[trigger] mask.has(i) == (self.has(i) && other.has(i)),
    {
        InterfaceMask {
            core: self.core && other.core,
            accel: self.accel && other.accel,
            ir: self.ir && other.ir,
            motion_plus: self.motion_plus && other.motion_plus,
            nunchuk: self.nunchuk && other.nunchuk,
            classic: self.classic && other.classic,
            balance: self.balance && other.balance,
            pro: self.pro && other.pro,
            drums: self.drums && other.drums,
            guitar: self.guitar && other.guitar,
        }
    }

    /// The members of this set that are not in the other.
    pub fn difference(self, other: InterfaceMask) -> (mask: InterfaceMask)
        ensures
            forall|i: Interface| #[trigger] mask.has(i) == (self.has(i) && !other.has(i)),
    {
        InterfaceMask {
            core: self.core && !other.core,
            accel: self.accel && !other.accel,
            ir: self.ir && !other.ir,
            motion_plus: self.motion_plus && !other.motion_plus,
            nunchuk: self.nunchuk && !other.nunchuk,
            classic: self.classic && !other.classic,
            balance: self.balance && !other.balance,
            pro: self.pro && !other.pro,
            drums: self.drums && !other.drums,
            guitar: self.guitar && !other.guitar,
        }
    }

    /// Whether an interface is in the set.
    pub fn contains(self, interface: Interface) -> (r: bool)
        ensures
            r == self.has(interface),
    {
        match interface {
            Interface::Core => self.core,
            Interface::Accel => self.accel,
            Interface::Ir => self.ir,
            Interface::MotionPlus => self.motion_plus,
            Interface::Nunchuk => self.nunchuk,
            Interface::ClassicController => self.classic,
            Interface::BalanceBoard => self.balance,
            Interface::ProController => self.pro,
            Interface::Drums => self.drums,
            Interface::Guitar => self.guitar,
        }
    }

    /// Whether the set has no members.
    pub fn is_empty(self) -> (r: bool)
        ensures
            r == (forall|i: Interface| !#[trigger] self.has(i)),
            r == !(self.core || self.accel || self.ir || self.motion_plus || self.nunchuk
                || self.classic || self.balance || self.pro || self.drums || self.guitar),
    {
        let r = !(
            self.core
                || self.accel
                || self.ir
                || self.motion_plus
                || self.nunchuk
                || self.classic
                || self.balance
                || self.pro
                || self.drums
                || self.guitar
        );
        proof {
            if !r {
                assert(self.has(Interface::Core) == self.core);
                assert(self.has(Interface::Accel) == self.accel);
                assert(self.has(Interface::Ir) == self.ir);
                assert(self.has(Interface::MotionPlus) == self.motion_plus);
                assert(self.has(Interface::Nunchuk) == self.nunchuk);
                assert(self.has(Interface::ClassicController) == self.classic);
                assert(self.has(Interface::BalanceBoard) == self.balance);
                assert(self.has(Interface::ProController) == self.pro);
                assert(self.has(Interface::Drums) == self.drums);
                assert(self.has(Interface::Guitar) == self.guitar);
            }
        }
        r
    }

    /// The set as bits, as they are told to clients.
    pub open spec fn spec_bits(self) -> u32 {
        (
            flag(self.core, 0x1)
                + flag(self.accel, 0x2)
                + flag(self.ir, 0x4)
                + flag(self.motion_plus, 0x100)
                + flag(self.nunchuk, 0x200)
                + flag(self.classic, 0x400)
                + flag(self.balance, 0x800)
                + flag(self.pro, 0x1000)
                + flag(self.drums, 0x2000)
                + flag(self.guitar, 0x4000)
        ) as u32
    }

    /// The set as bits, as they are told to clients.
    pub fn bits(self) -> (bits: u32)
        ensures
            bits == self.spec_bits(),
    {
        flag_bit(self.core, 0x1)
            + flag_bit(self.accel, 0x2)
            + flag_bit(self.ir, 0x4)
            + flag_bit(self.motion_plus, 0x100)
            + flag_bit(self.nunchuk, 0x200)
            + flag_bit(self.classic, 0x400)
            + flag_bit(self.balance, 0x800)
            + flag_bit(self.pro, 0x1000)
            + flag_bit(self.drums, 0x2000)
            + flag_bit(self.guitar, 0x4000)
    }

    /// The set that bits stand for. Bits that stand for no interface are ignored.
    pub fn from_bits(bits: u32) -> (mask: InterfaceMask)
        ensures
            forall|i: Interface| #[trigger] mask.has(i) == (bits & i.spec_bit() != 0),
    {
        InterfaceMask {
            core: bits & 0x1 != 0,
            accel: bits & 0x2 != 0,
            ir: bits & 0x4 != 0,
            motion_plus: bits & 0x100 != 0,
            nunchuk: bits & 0x200 != 0,
            classic: bits & 0x400 != 0,
            balance: bits & 0x800 != 0,
            pro: bits & 0x1000 != 0,
            drums: bits & 0x2000 != 0,
            guitar: bits & 0x4000 != 0,
        }
    }
}

/// What a report holds.
#[derive(Clone, Copy, Debug, PartialEq, Eq)]
pub enum EventKind {
    Key(ButtonEvent),
    Accel(Axis3),
    Ir([Axis3; 4]),
    BalanceBoard([Axis3; 4]),
    MotionPlus(Axis3),
    ProControllerKey(ButtonEvent),
    ProControllerMove([Axis3; 2]),
    Watch,
    ClassicControllerKey(ButtonEvent),
    ClassicControllerMove([Axis3; 3]),
    NunchukKey(ButtonEvent),
    NunchukMove([Axis3; 2]),
    DrumsKey(ButtonEvent),
    DrumsMove([Axis3; 8]),
    GuitarKey(ButtonEvent),
    GuitarMove([Axis3; 3]),
    Gone,
    Unknown(u32),
}

/// One report.
#[derive(Clone, Copy, Debug, PartialEq, Eq)]
pub struct Event {
    pub time: Timestamp,
    pub kind: EventKind,
}

impl EventKind {
    /// The number of an event type.
    pub open spec fn spec_code(self) -> u32 {
        match self {
            EventKind::Key(_) => 0,
            EventKind::Accel(_) => 1,
            EventKind::Ir(_) => 2,
            EventKind::BalanceBoard(_) => 3,
            EventKind::MotionPlus(_) => 4,
            EventKind::ProControllerKey(_) => 5,
            EventKind::ProControllerMove(_) => 6,
            EventKind::Watch => 7,
            EventKind::ClassicControllerKey(_) => 8,
            EventKind::ClassicControllerMove(_) => 9,
            EventKind::NunchukKey(_) => 10,
            EventKind::NunchukMove(_) => 11,
            EventKind::DrumsKey(_) => 12,
            EventKind::DrumsMove(_) => 13,
            EventKind::GuitarKey(_) => 14,
            EventKind::GuitarMove(_) => 15,
            EventKind::Gone => 16,
            EventKind::Unknown(code) => code,
        }
    }

    /// The name of an event type.
    pub open spec fn spec_name(self) -> Seq<char> {
        match self {
            EventKind::Key(_) => "key"@,
            EventKind::Accel(_) => "accel"@,
            EventKind::Ir(_) => "ir"@,
            EventKind::BalanceBoard(_) => "balance-board"@,
            EventKind::MotionPlus(_) => "motion-plus"@,
            EventKind::ProControllerKey(_) => "pro-key"@,
            EventKind::ProControllerMove(_) => "pro-move"@,
            EventKind::Watch => "watch"@,
            EventKind::ClassicControllerKey(_) => "classic-key"@,
            EventKind::ClassicControllerMove(_) => "classic-move"@,
            EventKind::NunchukKey(_) => "nunchuk-key"@,
            EventKind::NunchukMove(_) => "nunchuk-move"@,
            EventKind::DrumsKey(_) => "drums-key"@,
            EventKind::DrumsMove(_) => "drums-move"@,
            EventKind::GuitarKey(_) => "guitar-key"@,
            EventKind::GuitarMove(_) => "guitar-move"@,
            EventKind::Gone => "gone"@,
            EventKind::Unknown(_) => "unknown"@,
        }
    }

    /// The interface that a report comes from.
    pub open spec fn spec_interface(self) -> Option<Interface> {
        match self {
            EventKind::Key(_) => Some(Interface::Core),
            EventKind::Accel(_) => Some(Interface::Accel),
            EventKind::Ir(_) => Some(Interface::Ir),
            EventKind::BalanceBoard(_) => Some(Interface::BalanceBoard),
            EventKind::MotionPlus(_) => Some(Interface::MotionPlus),
            EventKind::ProControllerKey(_) => Some(Interface::ProController),
            EventKind::ProControllerMove(_) => Some(Interface::ProController),
            EventKind::Watch => None,
            EventKind::ClassicControllerKey(_) => Some(Interface::ClassicController),
            EventKind::ClassicControllerMove(_) => Some(Interface::ClassicController),
            EventKind::NunchukKey(_) => Some(Interface::Nunchuk),
            EventKind::NunchukMove(_) => Some(Interface::Nunchuk),
            EventKind::DrumsKey(_) => Some(Interface::Drums),
            EventKind::DrumsMove(_) => Some(Interface::Drums),
            EventKind::GuitarKey(_) => Some(Interface::Guitar),
            EventKind::GuitarMove(_) => Some(Interface::Guitar),
            EventKind::Gone => None,
            EventKind::Unknown(_) => None,
        }
    }

    /// The button transition of a report, and the source that it belongs to.
    pub open spec fn spec_key(self) -> Option<(InputSource, ButtonEvent)> {
        match self {
            EventKind::Key(key) => Some((InputSource::Core, key)),
            EventKind::NunchukKey(key) => Some((InputSource::Nunchuk, key)),
            EventKind::ClassicControllerKey(key) => Some((InputSource::ClassicController, key)),
            EventKind::ProControllerKey(key) => Some((InputSource::ProController, key)),
            EventKind::DrumsKey(key) => Some((InputSource::Drums, key)),
            EventKind::GuitarKey(key) => Some((InputSource::Guitar, key)),
            _ => None,
        }
    }

    /// The axes of a report, in order.
    pub open spec fn spec_axes(self) -> Seq<Axis3> {
        match self {
            EventKind::Accel(value) => seq![value],
            EventKind::MotionPlus(value) => seq![value],
            EventKind::Ir(values) => values@,
            EventKind::BalanceBoard(values) => values@,
            EventKind::NunchukMove(values) => values@,
            EventKind::ProControllerMove(values) => values@,
            EventKind::ClassicControllerMove(values) => values@,
            EventKind::GuitarMove(values) => values@,
            EventKind::DrumsMove(values) => values@,
            _ => Seq::empty(),
        }
    }

    /// The number of this event type.
    pub fn event_type_code(&self) -> (code: u32)
        ensures
            code == self.spec_code(),
    {
        match self {
            EventKind::Key(_) => 0,
            EventKind::Accel(_) => 1,
            EventKind::Ir(_) => 2,
            EventKind::BalanceBoard(_) => 3,
            EventKind::MotionPlus(_) => 4,
            EventKind::ProControllerKey(_) => 5,
            EventKind::ProControllerMove(_) => 6,
            EventKind::Watch => 7,
            EventKind::ClassicControllerKey(_) => 8,
            EventKind::ClassicControllerMove(_) => 9,
            EventKind::NunchukKey(_) => 10,
            EventKind::NunchukMove(_) => 11,
            EventKind::DrumsKey(_) => 12,
            EventKind::DrumsMove(_) => 13,
            EventKind::GuitarKey(_) => 14,
            EventKind::GuitarMove(_) => 15,
            EventKind::Gone => 16,
            EventKind::Unknown(code) => *code,
        }
    }

    /// The name of this event type.
    pub fn name(&self) -> (name: &'static str)
        ensures
            name@ == self.spec_name(),
    {
        match self {
            EventKind::Key(_) => "key",
            EventKind::Accel(_) => "accel",
            EventKind::Ir(_) => "ir",
            EventKind::BalanceBoard(_) => "balance-board",
            EventKind::MotionPlus(_) => "motion-plus",
            EventKind::ProControllerKey(_) => "pro-key",
            EventKind::ProControllerMove(_) => "pro-move",
            EventKind::Watch => "watch",
            EventKind::ClassicControllerKey(_) => "classic-key",
            EventKind::ClassicControllerMove(_) => "classic-move",
            EventKind::NunchukKey(_) => "nunchuk-key",
            EventKind::NunchukMove(_) => "nunchuk-move",
            EventKind::DrumsKey(_) => "drums-key",
            EventKind::DrumsMove(_) => "drums-move",
            EventKind::GuitarKey(_) => "guitar-key",
            EventKind::GuitarMove(_) => "guitar-move",
            EventKind::Gone => "gone",
            EventKind::Unknown(_) => "unknown",
        }
    }

    /// The interface that this report comes from.
    pub fn interface(&self) -> (interface: Option<Interface>)
        ensures
            interface == self.spec_interface(),
    {
        match self {
            EventKind::Key(_) => Some(Interface::Core),
            EventKind::Accel(_) => Some(Interface::Accel),
            EventKind::Ir(_) => Some(Interface::Ir),
            EventKind::BalanceBoard(_) => Some(Interface::BalanceBoard),
            EventKind::MotionPlus(_) => Some(Interface::MotionPlus),
            EventKind::ProControllerKey(_) => Some(Interface::ProController),
            EventKind::ProControllerMove(_) => Some(Interface::ProController),
            EventKind::Watch => None,
            EventKind::ClassicControllerKey(_) => Some(Interface::ClassicController),
            EventKind::ClassicControllerMove(_) => Some(Interface::ClassicController),
            EventKind::NunchukKey(_) => Some(Interface::Nunchuk),
            EventKind::NunchukMove(_) => Some(Interface::Nunchuk),
            EventKind::DrumsKey(_) => Some(Interface::Drums),
            EventKind::DrumsMove(_) => Some(Interface::Drums),
            EventKind::GuitarKey(_) => Some(Interface::Guitar),
            EventKind::GuitarMove(_) => Some(Interface::Guitar),
            EventKind::Gone => None,
            EventKind::Unknown(_) => None,
        }
    }

    /// The button transition of this report, and the source that it belongs to.
    pub fn key_event(&self) -> (key: Option<(InputSource, ButtonEvent)>)
        ensures
            key == self.spec_key(),
    {
        match self {
            EventKind::Key(key) => Some((InputSource::Core, *key)),
            EventKind::NunchukKey(key) => Some((InputSource::Nunchuk, *key)),
            EventKind::ClassicControllerKey(key) => Some((InputSource::ClassicController, *key)),
            EventKind::ProControllerKey(key) => Some((InputSource::ProController, *key)),
            EventKind::DrumsKey(key) => Some((InputSource::Drums, *key)),
            EventKind::GuitarKey(key) => Some((InputSource::Guitar, *key)),
            _ => None,
        }
    }

    /// The axes of this report, in order.
    pub fn axis_events(&self) -> (axes: Vec<Axis3>)
        ensures
            axes@ == self.spec_axes(),
    {
        let mut axes: Vec<Axis3> = Vec::new();
        match self {
            EventKind::Accel(value) => {
                axes.push(*value);
            },
            EventKind::MotionPlus(value) => {
                axes.push(*value);
            },
            EventKind::Ir(values) => {
                push_all(values, &mut axes);
            },
            EventKind::BalanceBoard(values) => {
                push_all(values, &mut axes);
            },
            EventKind::NunchukMove(values) => {
                push_all(values, &mut axes);
            },
            EventKind::ProControllerMove(values) => {
                push_all(values, &mut axes);
            },
            EventKind::ClassicControllerMove(values) => {
                push_all(values, &mut axes);
            },
            EventKind::GuitarMove(values) => {
                push_all(values, &mut axes);
            },
            EventKind::DrumsMove(values) => {
                push_all(values, &mut axes);
            },
            _ => {},
        }
        assert(axes@ =~= self.spec_axes());
        axes
    }
}

fn push_all<const N: usize>(values: &[Axis3; N], axes: &mut Vec<Axis3>)
    ensures
        final(axes)@ == old(axes)@ + values@,
{
    let mut i: usize = 0;
    while i < N
        invariant
            i <= N,
            axes@ == old(axes)@ + values@.subrange(0, i as int),
        decreases N - i,
    {
        axes.push(values[i]);
        assert(values@.subrange(0, i + 1) =~= values@.subrange(0, i as int).push(
            values@[i as int],
        ));
        i = i + 1;
    }
    assert(values@.subrange(0, N as int) =~= values@);
}

/// Every key report comes from the interface that its source stands for, and no report is both a
/// key and a motion.
pub proof fn keys_and_axes_exclude_each_other(kind: EventKind)
    ensures
        kind.spec_key() is Some ==> kind.spec_axes().len() == 0 && kind.spec_interface() is Some,
        kind.spec_axes().len() > 0 ==> kind.spec_key() is None && kind.spec_interface() is Some,
{
}

/// A set of interfaces reads back from its bits.
pub proof fn interface_bits_read_back(mask: InterfaceMask, interface: Interface)
    ensures
        mask.has(interface) <==> mask.spec_bits() & interface.spec_bit() != 0,
{
    let a = mask.core;
    let b = mask.accel;
    let c = mask.ir;
    let d = mask.motion_plus;
    let e = mask.nunchuk;
    let f = mask.classic;
    let g = mask.balance;
    let h = mask.pro;
    let i = mask.drums;
    let j = mask.guitar;
    assert({
        let sum = ((if a { 0x1u32 } else { 0u32 }) + (if b { 0x2u32 } else { 0u32 })
            + (if c { 0x4u32 } else { 0u32 }) + (if d { 0x100u32 } else { 0u32 })
            + (if e { 0x200u32 } else { 0u32 }) + (if f { 0x400u32 } else { 0u32 })
            + (if g { 0x800u32 } else { 0u32 }) + (if h { 0x1000u32 } else { 0u32 })
            + (if i { 0x2000u32 } else { 0u32 }) + (if j { 0x4000u32 } else { 0u32 })) as u32;
        &&& (sum & 0x1 != 0) == a
        &&& (sum & 0x2 != 0) == b
        &&& (sum & 0x4 != 0) == c
        &&& (sum & 0x100 != 0) == d
        &&& (sum & 0x200 != 0) == e
        &&& (sum & 0x400 != 0) == f
        &&& (sum & 0x800 != 0) == g
        &&& (sum & 0x1000 != 0) == h
        &&& (sum & 0x2000 != 0) == i
        &&& (sum & 0x4000 != 0) == j
    }) by (bit_vector);
}

} // verus!
