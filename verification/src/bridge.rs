//! The bridge of one device: which interfaces it opens, which outputs it owns, and what each report
//! leads to.
use crate::config::{
    AimActivation, AimMode, AimSource, Config, ConfigView, Profile, ValidatedConfig,
};
use crate::engine;
use crate::engine::{
    needs_desktop, needs_gamepad, DeviceEngine, EngineInput, EngineView, OutputAction, OutputDevice,
};
use crate::failure::{IoFailure, IoKind};
use crate::hid::{Event, EventKind, Interface, InterfaceMask};
use crate::mapping::{Abs3, MotionKind};
use crate::pointer::{IrFrame, IrPoint};
use crate::protocol::Axis3;
use crate::text;
use vstd::prelude::*;
use vstd::string::*;

verus! {

/// How many reports one turn handles.
pub const MAX_EVENTS_PER_DRAIN: usize = 256;

/// An input or output error.
pub const EIO: i32 = 5;

/// No such device.
pub const ENODEV: i32 = 19;

/// An invalid argument.
pub const EINVAL: i32 = 22;

/// What becomes of a device after a report.
#[derive(Clone, Copy, Debug, PartialEq, Eq, Structural, Hash)]
pub enum BridgeAction {
    Continue,
    Gone,
}

/// A virtual device that a bridge can own.
#[derive(Clone, Copy, Debug, PartialEq, Eq, Structural, Hash)]
pub enum VirtualKind {
    Controller,
    Desktop,
}

/// The error number of a failure, negated; a failure without one counts as an input or output
/// error.
pub fn io_errno(errno: Option<i32>) -> (code: i32)
    requires
        errno matches Some(n) ==> n > i32::MIN,
    ensures
        code == (match errno {
            Some(n) => -n,
            None => -EIO,
        }),
{
    match errno {
        Some(n) => -n,
        None => -EIO,
    }
}

/// The property text of a controller: readable, without the whitespace around it, and not empty.
pub open spec fn device_type(devtype: Option<Seq<u8>>) -> Option<Seq<char>> {
    match devtype {
        None => None,
        Some(bytes) => match text::decoded(bytes) {
            None => None,
            Some(t) => if text::trimmed(t).len() == 0 {
                None
            } else {
                Some(text::trimmed(t))
            },
        },
    }
}

/// The value of optional bytes.
pub open spec fn optional_bytes(bytes: Option<&[u8]>) -> Option<Seq<u8>> {
    match bytes {
        Some(b) => Some(b@),
        None => None,
    }
}

/// The profile of a controller with this path and this type.
pub fn profile_for_device(config: &Config, syspath: &str, devtype: Option<&[u8]>) -> (profile:
    Profile)
    ensures
        profile == config@.profile_of(Some(syspath@), device_type(optional_bytes(devtype))),
{
    let name = match devtype {
        None => None,
        Some(bytes) => match text::decode(bytes) {
            None => None,
            Some(t) => {
                let trimmed = text::trim(t);
                if trimmed.is_empty() {
                    None
                } else {
                    Some(trimmed)
                }
            },
        },
    };
    config.profile_for_device(Some(syspath), name)
}

/// Whether a profile and a configuration ask for an interface.
pub open spec fn requests(profile: Profile, config: ConfigView, interface: Interface) -> bool {
    ||| profile.has_gamepad() && interface !is Ir
    ||| profile.has_desktop() && (interface is Core || interface is Ir)
    ||| config.aim_mode !is Off && match config.aim_source {
        AimSource::Ir => interface is Ir,
        AimSource::MotionPlus => interface is MotionPlus,
        AimSource::Accelerometer => interface is Accel,
        AimSource::Auto => interface is Ir || interface is MotionPlus || interface is Accel,
    }
    ||| config.aim_mode !is Off && (config.aim_activation is Z || config.aim_activation is C)
        && interface is Nunchuk
}

/// The interfaces that a profile and a configuration ask for.
pub fn requested_interfaces(p: Profile, c: &Config) -> (mask: InterfaceMask)
    ensures
        forall|i: Interface| #[trigger] mask.has(i) == requests(p, c@, i),
{
    let mut interfaces = InterfaceMask::empty();
    if p.contains(Profile::GAMEPAD) {
        interfaces = InterfaceMask::all().without(Interface::Ir);
    }
    if p.contains(Profile::DESKTOP) {
        interfaces = interfaces.with(Interface::Core).with(Interface::Ir);
    }
    if c.aim_mode != AimMode::Off {
        interfaces = match c.aim_source {
            AimSource::Ir => interfaces.with(Interface::Ir),
            AimSource::MotionPlus => interfaces.with(Interface::MotionPlus),
            AimSource::Accelerometer => interfaces.with(Interface::Accel),
            AimSource::Auto => interfaces.with(Interface::Ir).with(Interface::MotionPlus).with(
                Interface::Accel,
            ),
        };
        if c.aim_activation == AimActivation::Z || c.aim_activation == AimActivation::C {
            interfaces = interfaces.with(Interface::Nunchuk);
        }
    }
    interfaces
}

/// Whether a report is for the engine: it comes from an interface that the profile and the
/// configuration ask for.
pub open spec fn forwards(kind: EventKind, profile: Profile, config: ConfigView) -> bool {
    kind.spec_interface() matches Some(interface) && requests(profile, config, interface)
}

/// Whether a report is for the engine.
pub fn forwards_to_engine(kind: &EventKind, profile: Profile, config: &Config) -> (r: bool)
    ensures
        r == forwards(*kind, profile, config@),
{
    match kind.interface() {
        Some(interface) => requested_interfaces(profile, config).contains(interface),
        None => false,
    }
}

/// Whether an IR point is visible. An invisible one is reported at the sensor's far corner.
pub open spec fn is_visible(value: Axis3) -> bool {
    value.x != 1023 || value.y != 1023
}

fn valid_ir_point(value: Axis3) -> (r: bool)
    ensures
        r == is_visible(value),
{
    value.x != 1023 || value.y != 1023
}

/// An IR point as the engine takes it.
pub open spec fn ir_point(value: Axis3) -> IrPoint {
    IrPoint { valid: is_visible(value), x: value.x, y: value.y }
}

/// The kind of a motion report.
pub open spec fn motion_kind(kind: EventKind) -> Option<MotionKind> {
    match kind {
        EventKind::Accel(_) => Some(MotionKind::Accel),
        EventKind::MotionPlus(_) => Some(MotionKind::MotionPlus),
        EventKind::NunchukMove(_) => Some(MotionKind::Nunchuk),
        EventKind::ClassicControllerMove(_) => Some(MotionKind::Classic),
        EventKind::ProControllerMove(_) => Some(MotionKind::Pro),
        EventKind::GuitarMove(_) => Some(MotionKind::Guitar),
        EventKind::DrumsMove(_) => Some(MotionKind::Drums),
        EventKind::BalanceBoard(_) => Some(MotionKind::Balance),
        _ => None,
    }
}

/// An axis value as the engine takes it.
pub open spec fn abs3(value: Axis3) -> Abs3 {
    Abs3 { x: value.x, y: value.y, z: value.z }
}

/// Whether the engine's input is the one that a report stands for.
pub open spec fn stands_for(input: Option<EngineInput>, kind: EventKind) -> bool {
    match kind.spec_key() {
        Some((source, key)) => input == Some(
            EngineInput::Key { source, button: key.button, state: key.state },
        ),
        None => match kind {
            EventKind::Ir(values) => input matches Some(EngineInput::Ir(frame)) && forall|i: int|
                0 <= i < 4 ==> #[trigger] frame.points@[i] == ir_point(values@[i]),
            _ => match motion_kind(kind) {
                Some(motion) => input matches Some(EngineInput::Motion { kind: k, axes }) && k
                    == motion && forall|i: int|
                    0 <= i < 8 ==> #[trigger] axes@[i] == (if i < kind.spec_axes().len() {
                        abs3(kind.spec_axes()[i])
                    } else {
                        Abs3 { x: 0, y: 0, z: 0 }
                    }),
                None => input is None,
            },
        },
    }
}

/// The engine's input that a report stands for.
pub fn engine_input(kind: &EventKind) -> (input: Option<EngineInput>)
    ensures
        stands_for(input, *kind),
{
    if let Some((source, key)) = kind.key_event() {
        return Some(EngineInput::Key { source, button: key.button, state: key.state });
    }
    let motion = match kind {
        EventKind::Ir(values) => {
            let points = [
                IrPoint { valid: valid_ir_point(values[0]), x: values[0].x, y: values[0].y },
                IrPoint { valid: valid_ir_point(values[1]), x: values[1].x, y: values[1].y },
                IrPoint { valid: valid_ir_point(values[2]), x: values[2].x, y: values[2].y },
                IrPoint { valid: valid_ir_point(values[3]), x: values[3].x, y: values[3].y },
            ];
            return Some(EngineInput::Ir(IrFrame { points }));
        },
        EventKind::Accel(_) => MotionKind::Accel,
        EventKind::MotionPlus(_) => MotionKind::MotionPlus,
        EventKind::NunchukMove(_) => MotionKind::Nunchuk,
        EventKind::ClassicControllerMove(_) => MotionKind::Classic,
        EventKind::ProControllerMove(_) => MotionKind::Pro,
        EventKind::GuitarMove(_) => MotionKind::Guitar,
        EventKind::DrumsMove(_) => MotionKind::Drums,
        EventKind::BalanceBoard(_) => MotionKind::Balance,
        _ => {
            return None;
        },
    };
    let values = kind.axis_events();
    let mut axes = [Abs3 { x: 0, y: 0, z: 0 };8];
    let mut i: usize = 0;
    while i < 8 && i < values.len()
        invariant
            i <= 8,
            i <= values.len(),
            forall|k: int| 0 <= k < i ==> #[trigger] axes@[k] == abs3(values@[k]),
            forall|k: int| i <= k < 8 ==> #[trigger] axes@[k] == (Abs3 { x: 0, y: 0, z: 0 }),
        decreases 8 - i,
    {
        axes[i] = Abs3 { x: values[i].x, y: values[i].y, z: values[i].z };
        i = i + 1;
    }
    Some(EngineInput::Motion { kind: motion, axes })
}

/// The virtual devices that a bridge owns: a gamepad and a desktop device, where they are used and
/// outputs are enabled at all.
pub fn create_outputs(profile: Profile, config: &Config, outputs_enabled: bool) -> (outputs: (
    Option<VirtualKind>,
    Option<VirtualKind>,
))
    ensures
        outputs.0 == (if outputs_enabled && engine::uses_gamepad(profile, config@.aim_mode) {
            Some(VirtualKind::Controller)
        } else {
            None
        }),
        outputs.1 == (if outputs_enabled && engine::uses_desktop(profile, config@.aim_mode) {
            Some(VirtualKind::Desktop)
        } else {
            None
        }),
{
    if !outputs_enabled {
        return (None, None);
    }
    let gamepad = if needs_gamepad(profile, config) {
        Some(VirtualKind::Controller)
    } else {
        None
    };
    let desktop = if needs_desktop(profile, config) {
        Some(VirtualKind::Desktop)
    } else {
        None
    };
    (gamepad, desktop)
}

/// Which interfaces an attempt opened, and why the others stayed closed.
#[derive(Clone, Copy, Debug, PartialEq, Eq, Structural)]
pub struct OpenOutcome {
    pub opened: InterfaceMask,
    /// The error number, negated, where not everything could be opened.
    pub failure: Option<i32>,
}

/// What a report of a device leads to.
#[derive(Clone, Copy, Debug, PartialEq, Eq)]
pub enum EventStep {
    /// The device is gone.
    Gone,
    /// Its interfaces changed.
    Watch,
    /// Process this input.
    Process(EngineInput),
    /// Nothing.
    Ignore,
}

/// What has happened while the interfaces of a device change.
#[derive(Clone, Copy, Debug, PartialEq, Eq)]
pub enum WatchEvent {
    /// These interfaces are open now.
    Changed(InterfaceMask),
    /// The outputs were created anew, or could not be.
    Recreated { opened: InterfaceMask, result: Result<(), i32> },
    /// What was pending was opened, as far as it could be.
    Reopened(OpenOutcome),
}

/// What is next while the interfaces of a device change.
#[derive(Clone, Copy, Debug, PartialEq, Eq)]
pub enum WatchStep {
    /// Close the outputs and create them anew.
    Recreate { opened: InterfaceMask },
    /// Open these interfaces.
    Reopen(InterfaceMask),
    /// The change was handled.
    Done(Result<(), i32>),
}

/// The bridge of one device.
pub struct BridgeDevice {
    profile: Profile,
    config: Config,
    engine: DeviceEngine,
    opened_ifaces: InterfaceMask,
    pending_ifaces: InterfaceMask,
    outputs_enabled: bool,
    gamepad: bool,
    desktop: bool,
    capture: bool,
    actions: Vec<OutputAction>,
}

/// The state of a bridge.
#[verifier::ext_equal]
pub struct BridgeView {
    pub profile: Profile,
    pub config: ConfigView,
    pub engine: EngineView,
    pub opened: InterfaceMask,
    pub pending: InterfaceMask,
    pub outputs_enabled: bool,
    /// Whether the bridge owns a virtual gamepad.
    pub gamepad: bool,
    /// Whether the bridge owns a virtual desktop device.
    pub desktop: bool,
    /// Whether a client captures the device, so that every interface is wanted.
    pub capture: bool,
}

impl View for BridgeDevice {
    type V = BridgeView;

    closed spec fn view(&self) -> BridgeView {
        BridgeView {
            profile: self.profile,
            config: self.config@,
            engine: self.engine@,
            opened: self.opened_ifaces,
            pending: self.pending_ifaces,
            outputs_enabled: self.outputs_enabled,
            gamepad: self.gamepad,
            desktop: self.desktop,
            capture: self.capture,
        }
    }
}

/// Whether a set holds exactly the members of one that are not in another.
pub open spec fn is_difference(mask: InterfaceMask, a: InterfaceMask, b: InterfaceMask) -> bool {
    forall|i: Interface| #[trigger] mask.has(i) == (a.has(i) && !b.has(i))
}

/// Whether a set has no members.
pub open spec fn is_none(mask: InterfaceMask) -> bool {
    forall|i: Interface| !#[trigger] mask.has(i)
}

/// Whether any interface that the engine needs is open.
pub open spec fn any_needed(view: BridgeView, opened: InterfaceMask) -> bool {
    exists|i: Interface| #[trigger] opened.has(i) && requests(view.profile, view.config, i)
}

/// The actions on the virtual devices that are open.
pub open spec fn routed(
    actions: Seq<OutputAction>,
    gamepad: bool,
    desktop: bool,
) -> Seq<OutputAction>
    decreases actions.len(),
{
    if actions.len() == 0 {
        Seq::empty()
    } else {
        let rest = routed(actions.drop_last(), gamepad, desktop);
        let open = match engine::target(actions.last()) {
            OutputDevice::Gamepad => gamepad,
            OutputDevice::Desktop => desktop,
        };
        if open {
            rest.push(actions.last())
        } else {
            rest
        }
    }
}

fn route(actions: &Vec<OutputAction>, gamepad: bool, desktop: bool) -> (sent: Vec<OutputAction>)
    ensures
        sent@ == routed(actions@, gamepad, desktop),
{
    let mut sent: Vec<OutputAction> = Vec::new();
    let mut i: usize = 0;
    assert(actions@.subrange(0, 0) =~= Seq::empty());
    while i < actions.len()
        invariant
            i <= actions.len(),
            sent@ == routed(actions@.subrange(0, i as int), gamepad, desktop),
        decreases actions.len() - i,
    {
        let action = actions[i];
        let ghost seen = actions@.subrange(0, i + 1);
        assert(seen.drop_last() =~= actions@.subrange(0, i as int));
        assert(seen.last() == action);
        let target = match action {
            OutputAction::Key(target, _, _) => target,
            OutputAction::Abs(target, _, _) => target,
            OutputAction::Rel(target, _, _) => target,
            OutputAction::Sync(target) => target,
        };
        let open = match target {
            OutputDevice::Gamepad => gamepad,
            OutputDevice::Desktop => desktop,
        };
        if open {
            sent.push(action);
        }
        i = i + 1;
    }
    assert(actions@.subrange(0, i as int) =~= actions@);
    sent
}

impl BridgeView {
    /// Whether an interface is wanted: all are for a capture, else those that the engine needs.
    pub open spec fn wants(self, interface: Interface) -> bool {
        self.capture || requests(self.profile, self.config, interface)
    }

    /// A bridge whose outputs were created anew.
    pub open spec fn with_outputs(self) -> BridgeView {
        BridgeView {
            gamepad: self.outputs_enabled && engine::uses_gamepad(
                self.profile,
                self.config.aim_mode,
            ),
            desktop: self.outputs_enabled && engine::uses_desktop(
                self.profile,
                self.config.aim_mode,
            ),
            ..self
        }
    }

    /// Whether an interface that the engine needs was lost.
    pub open spec fn lost(self, opened: InterfaceMask) -> bool {
        exists|i: Interface| #[trigger]
            self.opened.has(i) && !opened.has(i) && requests(self.profile, self.config, i)
    }

    /// Whether a bridge is another that knows which interfaces are open now, and what is next.
    pub open spec fn settles(self, before: BridgeView, opened: InterfaceMask, step: WatchStep) -> bool {
        &&& self == (BridgeView { opened, pending: self.pending, ..before })
        &&& forall|i: Interface| #[trigger]
            self.pending.has(i) == (before.wants(i) && !opened.has(i))
        &&& step == if is_none(self.pending) {
            WatchStep::Done(Ok(()))
        } else {
            WatchStep::Reopen(self.pending)
        }
    }

    /// Whether a bridge is another after an attempt to open what was pending, with this result. It
    /// is enough that any interface which the engine needs is open. Where nothing was pending there
    /// was no attempt.
    pub open spec fn retried(
        self,
        before: BridgeView,
        outcome: OpenOutcome,
        result: Result<(), i32>,
    ) -> bool {
        if is_none(before.pending) {
            self == before && result == Ok::<(), i32>(())
        } else {
            &&& self == (BridgeView { opened: outcome.opened, pending: self.pending, ..before })
            &&& is_difference(self.pending, before.pending, outcome.opened)
            &&& result == (if any_needed(before, outcome.opened) {
                Ok::<(), i32>(())
            } else {
                Err(
                    match outcome.failure {
                        Some(code) => code,
                        None => (-ENODEV) as i32,
                    },
                )
            })
        }
    }

    /// Whether the engine agrees with the profile and the configuration.
    pub open spec fn well_formed(self) -> bool {
        &&& self.engine.well_formed()
        &&& self.engine.config == self.config
        &&& self.engine.profile == self.profile
    }
}

impl BridgeDevice {
    /// Whether the engine agrees with the profile and the configuration.
    pub open spec fn well_formed(self) -> bool {
        self@.well_formed()
    }

    /// The bridge of a device of which the first attempt to open its interfaces is known. It fails
    /// for a configuration that is not valid, and where nothing could be opened.
    pub fn with_backend_outputs(
        config: &Config,
        profile: Profile,
        outcome: OpenOutcome,
        outputs_enabled: bool,
    ) -> (result: Result<BridgeDevice, i32>)
        ensures
            match result {
                Ok(device) => {
                    &&& config@.valid()
                    &&& !is_none(outcome.opened) || outcome.failure is None
                    &&& device.well_formed()
                    &&& device@ == (BridgeView {
                        profile,
                        config: config@,
                        engine: EngineView::initial(config@, profile),
                        opened: outcome.opened,
                        pending: device@.pending,
                        outputs_enabled,
                        gamepad: outputs_enabled && engine::uses_gamepad(
                            profile,
                            config@.aim_mode,
                        ),
                        desktop: outputs_enabled && engine::uses_desktop(
                            profile,
                            config@.aim_mode,
                        ),
                        capture: false,
                    })
                    &&& forall|i: Interface| #[trigger]
                        device@.pending.has(i) == (requests(profile, config@, i)
                            && !outcome.opened.has(i))
                },
                Err(code) => if !config@.valid() {
                    code == -EINVAL
                } else {
                    is_none(outcome.opened) && outcome.failure == Some(code)
                },
            },
    {
        let validated = match ValidatedConfig::try_from(config.clone()) {
            Ok(validated) => validated,
            Err(_) => {
                return Err(-EINVAL);
            },
        };
        if outcome.opened.is_empty() {
            if let Some(code) = outcome.failure {
                return Err(code);
            }
        }
        let pending = requested_interfaces(profile, config).difference(outcome.opened);
        let (gamepad, desktop) = create_outputs(profile, config, outputs_enabled);
        Ok(
            BridgeDevice {
                profile,
                config: config.clone(),
                engine: DeviceEngine::new(validated, profile),
                opened_ifaces: outcome.opened,
                pending_ifaces: pending,
                outputs_enabled,
                gamepad: gamepad.is_some(),
                desktop: desktop.is_some(),
                capture: false,
                actions: Vec::new(),
            },
        )
    }

    /// The profile of the device.
    pub fn profile(&self) -> (profile: Profile)
        ensures
            profile == self@.profile,
    {
        self.profile
    }

    /// The interfaces that are wanted.
    pub fn requested_interfaces(&self) -> (mask: InterfaceMask)
        ensures
            forall|i: Interface| #[trigger] mask.has(i) == self@.wants(i),
    {
        if self.capture {
            InterfaceMask::all()
        } else {
            requested_interfaces(self.profile, &self.config)
        }
    }

    /// The interfaces that are open.
    pub fn opened(&self) -> (mask: InterfaceMask)
        ensures
            mask == self@.opened,
    {
        self.opened_ifaces
    }

    /// The interfaces that are wanted and not open.
    pub fn pending(&self) -> (mask: InterfaceMask)
        ensures
            mask == self@.pending,
    {
        self.pending_ifaces
    }

    /// The virtual devices that the bridge owns.
    pub fn outputs(&self) -> (outputs: (Option<VirtualKind>, Option<VirtualKind>))
        ensures
            outputs.0 == (if self@.gamepad {
                Some(VirtualKind::Controller)
            } else {
                None
            }),
            outputs.1 == (if self@.desktop {
                Some(VirtualKind::Desktop)
            } else {
                None
            }),
    {
        let gamepad = if self.gamepad {
            Some(VirtualKind::Controller)
        } else {
            None
        };
        let desktop = if self.desktop {
            Some(VirtualKind::Desktop)
        } else {
            None
        };
        (gamepad, desktop)
    }

    /// Starts or ends the capture of the device. Where that changes anything, gives the interfaces
    /// that are closed: those that are open and no longer wanted.
    pub fn set_capture(&mut self, enabled: bool, opened: InterfaceMask) -> (close: Option<
        InterfaceMask,
    >)
        requires
            old(self).well_formed(),
        ensures
            final(self).well_formed(),
            if enabled == old(self)@.capture {
                close is None && final(self)@ == old(self)@
            } else {
                &&& final(self)@ == (BridgeView { capture: enabled, ..old(self)@ })
                &&& close matches Some(mask) && forall|i: Interface| #[trigger]
                    mask.has(i) == (opened.has(i) && !final(self)@.wants(i))
            },
    {
        if enabled == self.capture {
            return None;
        }
        self.capture = enabled;
        Some(opened.difference(self.requested_interfaces()))
    }

    /// Notes which interfaces are open, and gives those that are wanted and not open.
    pub fn refresh(&mut self, opened: InterfaceMask) -> (pending: InterfaceMask)
        requires
            old(self).well_formed(),
        ensures
            final(self).well_formed(),
            final(self)@ == (BridgeView { opened, pending, ..old(self)@ }),
            forall|i: Interface| #[trigger]
                pending.has(i) == (old(self)@.wants(i) && !opened.has(i)),
    {
        self.opened_ifaces = opened;
        self.pending_ifaces = self.requested_interfaces().difference(opened);
        self.pending_ifaces
    }

    /// Whether interfaces are pending, so that another attempt to open them is made.
    pub fn needs_retry(&self) -> (r: bool)
        ensures
            r == !is_none(self@.pending),
    {
        !self.pending_ifaces.is_empty()
    }

    /// Takes the outcome of another attempt to open what is pending. It is enough that any
    /// interface which the engine needs is open. Where nothing is pending, nothing changes.
    pub fn retry_open(&mut self, outcome: OpenOutcome) -> (result: Result<(), i32>)
        requires
            old(self).well_formed(),
        ensures
            final(self).well_formed(),
            final(self)@.retried(old(self)@, outcome, result),
    {
        if !self.needs_retry() {
            return Ok(());
        }
        self.opened_ifaces = outcome.opened;
        self.pending_ifaces = self.pending_ifaces.difference(outcome.opened);
        let needed = outcome.opened.intersection(requested_interfaces(self.profile, &self.config));
        if !needed.is_empty() {
            proof {
                let i = choose|i: Interface| #[trigger] needed.has(i);
                assert(outcome.opened.has(i));
            }
            return Ok(());
        }
        proof {
            assert forall|i: Interface| #[trigger] outcome.opened.has(i) implies !requests(
                self@.profile,
                self@.config,
                i,
            ) by {
                assert(!needed.has(i));
            }
        }
        match outcome.failure {
            Some(code) => Err(code),
            None => Err(-ENODEV),
        }
    }

    fn settle(&mut self, opened: InterfaceMask) -> (step: WatchStep)
        requires
            old(self).well_formed(),
        ensures
            final(self).well_formed(),
            final(self)@.settles(old(self)@, opened, step),
    {
        let pending = self.refresh(opened);
        if self.needs_retry() {
            WatchStep::Reopen(pending)
        } else {
            WatchStep::Done(Ok(()))
        }
    }

    /// Takes what has happened since the interfaces changed, and tells what is next. Losing one that
    /// the engine needs ends the session: nothing stays held, and the outputs are created anew.
    /// Where that fails, the bridge owns none, and what it knows of the interfaces stays. Otherwise
    /// what is wanted and not open is opened again.
    pub fn handle_watch(&mut self, event: WatchEvent) -> (step: WatchStep)
        requires
            old(self).well_formed(),
        ensures
            final(self).well_formed(),
            match event {
                WatchEvent::Changed(opened) => if old(self)@.lost(opened) {
                    &&& step == (WatchStep::Recreate { opened })
                    &&& final(self)@ == (BridgeView {
                        engine: old(self)@.engine.after(EngineInput::Reset),
                        gamepad: false,
                        desktop: false,
                        ..old(self)@
                    })
                } else {
                    final(self)@.settles(old(self)@, opened, step)
                },
                WatchEvent::Recreated { opened, result: Ok(_) } => final(self)@.settles(
                    old(self)@.with_outputs(),
                    opened,
                    step,
                ),
                WatchEvent::Recreated { result: Err(code), .. } => {
                    &&& step == WatchStep::Done(Err(code))
                    &&& final(self)@ == old(self)@
                },
                WatchEvent::Reopened(outcome) => {
                    &&& step matches WatchStep::Done(result) && final(self)@.retried(
                        old(self)@,
                        outcome,
                        result,
                    )
                },
            },
    {
        match event {
            WatchEvent::Changed(opened) => {
                let lost = self.opened_ifaces.difference(opened).intersection(
                    requested_interfaces(self.profile, &self.config),
                );
                let recreate = !lost.is_empty();
                proof {
                    if recreate {
                        let i = choose|i: Interface| #[trigger] lost.has(i);
                        assert(self@.opened.has(i));
                    } else {
                        assert forall|i: Interface| #[trigger]
                            self@.opened.has(i) && !opened.has(i) implies !requests(
                            self@.profile,
                            self@.config,
                            i,
                        ) by {
                            assert(!lost.has(i));
                        }
                    }
                }
                if recreate {
                    self.gamepad = false;
                    self.desktop = false;
                    self.actions.clear();
                    self.engine.process(EngineInput::Reset, &mut self.actions);
                    return WatchStep::Recreate { opened };
                }
                self.settle(opened)
            },
            WatchEvent::Recreated { opened, result } => {
                if let Err(code) = result {
                    return WatchStep::Done(Err(code));
                }
                let (gamepad, desktop) = create_outputs(
                    self.profile,
                    &self.config,
                    self.outputs_enabled,
                );
                self.gamepad = gamepad.is_some();
                self.desktop = desktop.is_some();
                self.settle(opened)
            },
            WatchEvent::Reopened(outcome) => WatchStep::Done(self.retry_open(outcome)),
        }
    }

    /// What a report leads to. Reports of interfaces that only a capture wants never reach the
    /// engine.
    pub fn handle_event(&self, kind: &EventKind) -> (step: EventStep)
        ensures
            match *kind {
                EventKind::Gone => step == EventStep::Gone,
                EventKind::Watch => step == EventStep::Watch,
                _ => if forwards(*kind, self@.profile, self@.config) {
                    match step {
                        EventStep::Process(input) => stands_for(Some(input), *kind),
                        EventStep::Ignore => stands_for(None, *kind),
                        _ => false,
                    }
                } else {
                    step == EventStep::Ignore
                },
            },
    {
        match kind {
            EventKind::Gone => EventStep::Gone,
            EventKind::Watch => EventStep::Watch,
            _ => {
                if !forwards_to_engine(kind, self.profile, &self.config) {
                    return EventStep::Ignore;
                }
                match engine_input(kind) {
                    Some(input) => EventStep::Process(input),
                    None => EventStep::Ignore,
                }
            },
        }
    }

    /// Whether a direction key is held.
    pub fn pointer_active(&self) -> (r: bool)
        ensures
            r == self@.engine.pointer.moving(),
    {
        self.engine.pointer_active()
    }

    /// Processes an input, and gives the actions for the outputs that the bridge owns.
    pub fn process(&mut self, input: EngineInput) -> (sent: Vec<OutputAction>)
        requires
            old(self).well_formed(),
        ensures
            final(self).well_formed(),
            final(self)@ == (BridgeView { engine: old(self)@.engine.after(input), ..old(self)@ }),
            sent@ == (if old(self)@.outputs_enabled {
                routed(
                    old(self)@.engine.actions(input),
                    old(self)@.gamepad,
                    old(self)@.desktop,
                )
            } else {
                Seq::empty()
            }),
    {
        self.actions.clear();
        self.engine.process(input, &mut self.actions);
        proof {
            engine::settings_are_kept(old(self)@.engine, input);
        }
        assert(self.actions@ =~= old(self)@.engine.actions(input));
        if !self.outputs_enabled {
            let none: Vec<OutputAction> = Vec::new();
            assert(none@ =~= Seq::empty());
            return none;
        }
        route(&self.actions, self.gamepad, self.desktop)
    }

    /// One tick of the pointer.
    pub fn tick_pointer(&mut self) -> (sent: Vec<OutputAction>)
        requires
            old(self).well_formed(),
        ensures
            final(self).well_formed(),
            final(self)@ == old(self)@,
            sent@ == (if old(self)@.outputs_enabled {
                routed(
                    old(self)@.engine.actions(EngineInput::PointerTick),
                    old(self)@.gamepad,
                    old(self)@.desktop,
                )
            } else {
                Seq::empty()
            }),
    {
        self.process(EngineInput::PointerTick)
    }
}

/// What has happened while a device is drained.
#[derive(Debug)]
pub enum DrainEvent {
    Begin,
    /// The next report, or none.
    Dispatched(Result<Event, IoFailure>),
    /// The report was traced, observed and handled.
    Handled(Result<BridgeAction, i32>),
}

/// What is next while a device is drained.
#[derive(Debug)]
pub enum DrainStep {
    /// Ask the device for a report.
    Dispatch,
    /// Trace, observe and handle a report.
    Handle(Event),
    /// The turn is over.
    Done(Result<BridgeAction, i32>),
}

/// One turn of draining a device.
#[derive(Clone, Copy, Debug, PartialEq, Eq, Structural)]
pub struct Drain {
    /// How many reports may still be handled.
    pub left: usize,
}

impl Drain {
    /// A turn that has not begun.
    pub fn new() -> (drain: Drain)
        ensures
            drain.left == MAX_EVENTS_PER_DRAIN,
    {
        Drain { left: MAX_EVENTS_PER_DRAIN }
    }

    /// The step between two reports: the turn is over when enough were handled.
    pub open spec fn between(self) -> DrainStep {
        if self.left > 0 {
            DrainStep::Dispatch
        } else {
            DrainStep::Done(Ok(BridgeAction::Continue))
        }
    }

    /// Takes what has happened, and tells what is next. The turn ends when nothing more waits, when
    /// the device is gone, at a failure, or when enough reports were handled.
    pub fn drain_with(&mut self, event: DrainEvent) -> (step: DrainStep)
        requires
            event matches DrainEvent::Dispatched(Ok(_)) ==> old(self).left > 0,
            event matches DrainEvent::Dispatched(Err(failure)) ==> (failure.errno matches Some(n)
                ==> n > i32::MIN),
        ensures
            final(self).left == (match event {
                DrainEvent::Dispatched(Ok(_)) => old(self).left - 1,
                _ => old(self).left as int,
            }),
            step == (match event {
                DrainEvent::Begin => old(self).between(),
                DrainEvent::Dispatched(Ok(report)) => DrainStep::Handle(report),
                DrainEvent::Dispatched(Err(failure)) => DrainStep::Done(
                    if failure.kind is WouldBlock {
                        Ok(BridgeAction::Continue)
                    } else {
                        Err(
                            match failure.errno {
                                Some(n) => (-n) as i32,
                                None => (-EIO) as i32,
                            },
                        )
                    },
                ),
                DrainEvent::Handled(Ok(BridgeAction::Continue)) => old(self).between(),
                DrainEvent::Handled(end) => DrainStep::Done(end),
            }),
    {
        match event {
            DrainEvent::Dispatched(Ok(report)) => {
                self.left = self.left - 1;
                return DrainStep::Handle(report);
            },
            DrainEvent::Dispatched(Err(failure)) => {
                if failure.kind == IoKind::WouldBlock {
                    return DrainStep::Done(Ok(BridgeAction::Continue));
                }
                return DrainStep::Done(Err(io_errno(failure.errno)));
            },
            DrainEvent::Handled(Ok(BridgeAction::Gone)) => {
                return DrainStep::Done(Ok(BridgeAction::Gone));
            },
            DrainEvent::Handled(Err(code)) => {
                return DrainStep::Done(Err(code));
            },
            DrainEvent::Begin | DrainEvent::Handled(Ok(BridgeAction::Continue)) => {},
        }
        if self.left > 0 {
            DrainStep::Dispatch
        } else {
            DrainStep::Done(Ok(BridgeAction::Continue))
        }
    }
}

/// A report of an interface that neither the profile nor the configuration asks for never changes
/// virtual input, also while a capture keeps that interface open.
pub proof fn unrequested_interfaces_are_never_forwarded(
    kind: EventKind,
    profile: Profile,
    config: ConfigView,
)
    requires
        kind.spec_interface() matches Some(i) ==> !requests(profile, config, i),
    ensures
        !forwards(kind, profile, config),
{
}

/// While the outputs of the profile are open, every action has a device to go to: nothing that the
/// engine outputs is lost.
pub proof fn used_outputs_receive_everything(
    actions: Seq<OutputAction>,
    profile: Profile,
    mode: AimMode,
)
    requires
        engine::targets_used(actions, profile, mode),
    ensures
        routed(
            actions,
            engine::uses_gamepad(profile, mode),
            engine::uses_desktop(profile, mode),
        ) == actions,
    decreases actions.len(),
{
    if actions.len() > 0 {
        let rest = actions.drop_last();
        assert forall|i: int| 0 <= i < rest.len() implies match engine::target(
            #[trigger] rest[i],
        ) {
            OutputDevice::Gamepad => engine::uses_gamepad(profile, mode),
            OutputDevice::Desktop => engine::uses_desktop(profile, mode),
        } by {
            assert(rest[i] == actions[i]);
        }
        used_outputs_receive_everything(rest, profile, mode);
        assert(actions.last() == actions[actions.len() - 1]);
        assert(rest.push(actions.last()) =~= actions);
    }
}

} // verus!
