//! Deterministic per-device processing. Hardware ownership and clocks live in adapters.
use crate::aim;
use crate::aim::{AimConfig, AimResult, AimState};
use crate::config::{
    AimMode, Config, ConfigView, DesktopAction, DesktopBindings, Profile, ValidatedConfig,
};
use crate::input::{Button, ButtonState, InputSource, BUTTON_COUNT};
use crate::mapping;
use crate::mapping::{Abs3, MappedAxis, MotionKind};
use crate::pointer;
use crate::pointer::{IrFrame, PointerKey, PointerState};
use vstd::prelude::*;

verus! {

/// A virtual device.
#[derive(Clone, Copy, Debug, PartialEq, Eq, Structural, Hash)]
pub enum OutputDevice {
    Gamepad,
    Desktop,
}

/// Key actions include their synchronization boundary; motion uses explicit `Sync`.
#[derive(Clone, Copy, Debug, PartialEq, Eq, Structural, Hash)]
pub enum OutputAction {
    Key(OutputDevice, u16, u32),
    Abs(OutputDevice, u16, i32),
    Rel(OutputDevice, u16, i32),
    Sync(OutputDevice),
}

/// One report, as the engine takes it.
#[derive(Clone, Copy, Debug, PartialEq, Eq)]
pub enum EngineInput {
    Key { source: InputSource, button: Button, state: ButtonState },
    Motion { kind: MotionKind, axes: [Abs3; 8] },
    Ir(IrFrame),
    /// One fixed 16ms pointer tick, supplied by the reactor or a replay.
    PointerTick,
    /// Release only this interface's held buttons while retaining other sources.
    SourceRemoved(InputSource),
    /// Start a new session after the adapter destroys the previous outputs.
    Reset,
}

/// The state of an engine.
#[verifier::ext_equal]
pub struct EngineView {
    pub config: ConfigView,
    pub profile: Profile,
    pub pointer: PointerState,
    pub aim: AimState,
    /// The buttons that each source holds.
    pub held: Set<(InputSource, Button)>,
}

/// Whether any source holds a button.
pub open spec fn is_down(held: Set<(InputSource, Button)>, button: Button) -> bool {
    exists|source: InputSource| #[trigger] held.contains((source, button))
}

/// The desktop key of an action.
pub open spec fn action_key(action: DesktopAction) -> Option<u16> {
    match action {
        DesktopAction::LeftClick => Some(0x110),
        DesktopAction::RightClick => Some(0x111),
        DesktopAction::Enter => Some(28),
        DesktopAction::Escape => Some(1),
        DesktopAction::Overview => Some(125),
        DesktopAction::PageUp => Some(104),
        DesktopAction::PageDown => Some(109),
        DesktopAction::Disabled => None,
    }
}

/// The desktop key that a button is bound to.
pub open spec fn bound_key(bindings: DesktopBindings, button: Button) -> Option<u16> {
    match button {
        Button::A => action_key(bindings.a),
        Button::B => action_key(bindings.b),
        Button::Plus => action_key(bindings.plus),
        Button::Minus => action_key(bindings.minus),
        Button::Home => action_key(bindings.home),
        Button::One => action_key(bindings.one),
        Button::Two => action_key(bindings.two),
        _ => None,
    }
}

/// Whether any held button is bound to a desktop key.
pub open spec fn key_is_down(
    bindings: DesktopBindings,
    held: Set<(InputSource, Button)>,
    key: u16,
) -> bool {
    exists|button: Button| #[trigger] is_down(held, button)
        && bound_key(bindings, button) == Some(key)
}

/// The pointer direction of a button.
pub open spec fn direction(button: Button) -> Option<PointerKey> {
    match button {
        Button::Left => Some(PointerKey::Left),
        Button::Right => Some(PointerKey::Right),
        Button::Up => Some(PointerKey::Up),
        Button::Down => Some(PointerKey::Down),
        _ => None,
    }
}

/// What a key reports when the buttons behind it change. A key that is up reports its release, also
/// where it was up before; one that goes down reports a press; one that stays down only reports a
/// repetition.
pub open spec fn transition(
    target: OutputDevice,
    code: u16,
    before: bool,
    after: bool,
    state: ButtonState,
) -> Seq<OutputAction> {
    if !after {
        seq![OutputAction::Key(target, code, ButtonState::Released.spec_value())]
    } else if !before {
        seq![OutputAction::Key(target, code, ButtonState::Pressed.spec_value())]
    } else if state is Repeated {
        seq![OutputAction::Key(target, code, ButtonState::Repeated.spec_value())]
    } else {
        seq![]
    }
}

/// The actions of a pointer movement.
pub open spec fn pointer_actions(dx: i32, dy: i32) -> Seq<OutputAction> {
    let motion = seq![
        OutputAction::Rel(OutputDevice::Desktop, 0, dx),
        OutputAction::Rel(OutputDevice::Desktop, 1, dy),
    ];
    if dx != 0 || dy != 0 {
        motion.push(OutputAction::Sync(OutputDevice::Desktop))
    } else {
        motion
    }
}

/// The nearest value on a gamepad axis.
pub open spec fn stick(value: i32) -> i32 {
    if value > 32767 {
        32767
    } else if value < -32768 {
        (-32768) as i32
    } else {
        value
    }
}

/// The actions of an aiming result.
pub open spec fn aim_actions(mode: AimMode, result: AimResult) -> Seq<OutputAction> {
    match result.output {
        None => seq![],
        Some(v) => match mode {
            AimMode::Mouse => pointer_actions(v.x, v.y),
            AimMode::RightStick => seq![
                OutputAction::Abs(OutputDevice::Gamepad, mapping::ABS_RX, stick(v.x)),
                OutputAction::Abs(OutputDevice::Gamepad, mapping::ABS_RY, stick(v.y)),
                OutputAction::Sync(OutputDevice::Gamepad),
            ],
            AimMode::Off => seq![],
        },
    }
}

/// Whether a profile and an aiming mode use the virtual gamepad.
pub open spec fn uses_gamepad(profile: Profile, mode: AimMode) -> bool {
    profile.has_gamepad() || mode is RightStick
}

/// Whether a profile and an aiming mode use the virtual desktop device.
pub open spec fn uses_desktop(profile: Profile, mode: AimMode) -> bool {
    profile.has_desktop() || mode is Mouse
}

/// The gamepad actions of a motion report.
pub open spec fn axis_actions(axes: Seq<MappedAxis>) -> Seq<OutputAction> {
    axes.map_values(
        |axis: MappedAxis| OutputAction::Abs(OutputDevice::Gamepad, axis.code, axis.value),
    ).push(OutputAction::Sync(OutputDevice::Gamepad))
}

impl EngineView {
    /// Whether the parts agree with the configuration, and the configuration is valid.
    pub open spec fn well_formed(self) -> bool {
        &&& self.config.valid()
        &&& self.pointer.well_formed()
        &&& self.pointer.speed == self.config.pointer_speed
        &&& self.pointer.ir_speed == self.config.ir_speed
        &&& self.pointer.ir_deadzone == self.config.ir_deadzone
        &&& self.pointer.ir_smoothing == self.config.ir_smoothing
        &&& self.pointer.ir_tracking == self.config.ir_tracking
        &&& self.aim.well_formed()
        &&& self.aim.config == aim::aim_config(self.config)
    }

    /// The state before the first report.
    pub open spec fn initial(config: ConfigView, profile: Profile) -> EngineView {
        EngineView {
            config,
            profile,
            pointer: PointerState {
                speed: config.pointer_speed,
                ir_speed: config.ir_speed,
                ir_deadzone: config.ir_deadzone,
                ir_smoothing: config.ir_smoothing,
                ir_tracking: config.ir_tracking,
                keys: pointer::no_keys(),
                baseline: None,
            },
            aim: AimState::initial(aim::aim_config(config)),
            held: Set::empty(),
        }
    }

    /// The held buttons after a change of one.
    pub open spec fn held_after(
        self,
        source: InputSource,
        button: Button,
        state: ButtonState,
    ) -> Set<
        (InputSource, Button),
    > {
        if state is Released {
            self.held.remove((source, button))
        } else {
            self.held.insert((source, button))
        }
    }

    /// Whether a change of a button is the first press or the last release over all sources.
    pub open spec fn flips(self, source: InputSource, button: Button, state: ButtonState) -> bool {
        is_down(self.held, button) != is_down(self.held_after(source, button, state), button)
    }

    /// The pointer after a change of a button.
    pub open spec fn pointer_after(
        self,
        source: InputSource,
        button: Button,
        state: ButtonState,
    ) -> PointerState {
        match direction(button) {
            Some(key) if self.profile.has_desktop() && self.flips(source, button, state) =>
                self.pointer.with_key(
                key,
                is_down(self.held_after(source, button, state), button),
            ),
            _ => self.pointer,
        }
    }

    /// The state after a change of a button.
    pub open spec fn after_key(
        self,
        source: InputSource,
        button: Button,
        state: ButtonState,
    ) -> EngineView {
        let held = self.held_after(source, button, state);
        EngineView {
            pointer: self.pointer_after(source, button, state),
            aim: if self.flips(source, button, state) {
                self.aim.after_button(button, is_down(held, button)).0
            } else {
                self.aim
            },
            held,
            ..self
        }
    }

    /// The gamepad key actions of a change of a button.
    pub open spec fn gamepad_key_actions(
        self,
        source: InputSource,
        button: Button,
        state: ButtonState,
    ) -> Seq<OutputAction> {
        if uses_gamepad(self.profile, self.config.aim_mode) {
            transition(
                OutputDevice::Gamepad,
                mapping::button_key(button),
                is_down(self.held, button),
                is_down(self.held_after(source, button, state), button),
                state,
            )
        } else {
            seq![]
        }
    }

    /// The desktop key actions of a change of a button.
    pub open spec fn desktop_key_actions(
        self,
        source: InputSource,
        button: Button,
        state: ButtonState,
    ) -> Seq<OutputAction> {
        match bound_key(self.config.desktop_bindings, button) {
            Some(key) if self.profile.has_desktop() => transition(
                OutputDevice::Desktop,
                key,
                key_is_down(self.config.desktop_bindings, self.held, key),
                key_is_down(
                    self.config.desktop_bindings,
                    self.held_after(source, button, state),
                    key,
                ),
                state,
            ),
            _ => seq![],
        }
    }

    /// The pointer actions of a change of a button.
    pub open spec fn pointer_key_actions(
        self,
        source: InputSource,
        button: Button,
        state: ButtonState,
    ) -> Seq<OutputAction> {
        if direction(button) is Some && self.profile.has_desktop() && self.flips(
            source,
            button,
            state,
        ) {
            let delta = self.pointer_after(source, button, state).tick_delta();
            pointer_actions(delta.dx, delta.dy)
        } else {
            seq![]
        }
    }

    /// The aiming actions of a change of a button.
    pub open spec fn aim_key_actions(
        self,
        source: InputSource,
        button: Button,
        state: ButtonState,
    ) -> Seq<OutputAction> {
        if self.flips(source, button, state) {
            aim_actions(
                self.config.aim_mode,
                self.aim.after_button(
                    button,
                    is_down(self.held_after(source, button, state), button),
                ).1,
            )
        } else {
            seq![]
        }
    }

    /// The actions of a change of a button, in order.
    pub open spec fn key_actions(
        self,
        source: InputSource,
        button: Button,
        state: ButtonState,
    ) -> Seq<OutputAction> {
        self.gamepad_key_actions(source, button, state) + self.desktop_key_actions(
            source,
            button,
            state,
        ) + self.pointer_key_actions(source, button, state) + self.aim_key_actions(
            source,
            button,
            state,
        )
    }

    /// The state after a source let go, in the order of the button codes, every button from `code`
    /// on that it holds.
    pub open spec fn after_release_from(self, source: InputSource, code: nat) -> EngineView
        decreases BUTTON_COUNT - code,
    {
        if code >= BUTTON_COUNT {
            self
        } else {
            let button = Button::ALL[code as int];
            let next = if self.held.contains((source, button)) {
                self.after_key(source, button, ButtonState::Released)
            } else {
                self
            };
            next.after_release_from(source, code + 1)
        }
    }

    /// The actions of a source letting go every button from `code` on that it holds.
    pub open spec fn release_actions_from(self, source: InputSource, code: nat) -> Seq<OutputAction>
        decreases BUTTON_COUNT - code,
    {
        if code >= BUTTON_COUNT {
            seq![]
        } else {
            let button = Button::ALL[code as int];
            if self.held.contains((source, button)) {
                self.key_actions(source, button, ButtonState::Released) + self.after_key(
                    source,
                    button,
                    ButtonState::Released,
                ).release_actions_from(source, code + 1)
            } else {
                self.release_actions_from(source, code + 1)
            }
        }
    }

    /// The aiming state and result of a motion report.
    pub open spec fn aim_after_motion(self, kind: MotionKind, axes: Seq<Abs3>) -> (
        AimState,
        AimResult,
    ) {
        let v = seq![axes[0].x, axes[0].y, axes[0].z];
        match kind {
            MotionKind::Accel => self.aim.after_accelerometer(v),
            MotionKind::MotionPlus => self.aim.after_motion_plus(v),
            _ => (self.aim, aim::silent()),
        }
    }

    /// The state after a report.
    pub open spec fn after(self, input: EngineInput) -> EngineView {
        match input {
            EngineInput::Reset => EngineView {
                pointer: self.pointer.after_reset(),
                aim: AimState::initial(self.aim.config),
                held: Set::empty(),
                ..self
            },
            EngineInput::PointerTick => self,
            EngineInput::Key { source, button, state } => self.after_key(source, button, state),
            EngineInput::SourceRemoved(source) => self.after_release_from(source, 0),
            EngineInput::Motion { kind, axes } => EngineView {
                aim: self.aim_after_motion(kind, axes@).0,
                ..self
            },
            EngineInput::Ir(frame) => EngineView {
                pointer: if self.profile.has_desktop() {
                    self.pointer.after_frame(frame.points@)
                } else {
                    self.pointer
                },
                aim: self.aim.after_ir(
                    pointer::tracked_position(frame.points@, self.pointer.ir_tracking),
                ).0,
                ..self
            },
        }
    }

    /// The actions of a report, in order.
    pub open spec fn actions(self, input: EngineInput) -> Seq<OutputAction> {
        match input {
            EngineInput::Reset => seq![],
            EngineInput::PointerTick => if self.pointer.moving() {
                let delta = self.pointer.tick_delta();
                pointer_actions(delta.dx, delta.dy)
            } else {
                seq![]
            },
            EngineInput::Key { source, button, state } => self.key_actions(source, button, state),
            EngineInput::SourceRemoved(source) => self.release_actions_from(source, 0),
            EngineInput::Motion { kind, axes } => (if uses_gamepad(
                self.profile,
                self.config.aim_mode,
            ) {
                axis_actions(mapping::motion_axes(kind, axes@))
            } else {
                seq![]
            }) + aim_actions(self.config.aim_mode, self.aim_after_motion(kind, axes@).1),
            EngineInput::Ir(frame) => (if self.profile.has_desktop() {
                let delta = self.pointer.frame_delta(frame.points@);
                pointer_actions(delta.dx, delta.dy)
            } else {
                seq![]
            }) + aim_actions(
                self.config.aim_mode,
                self.aim.after_ir(
                    pointer::tracked_position(frame.points@, self.pointer.ir_tracking),
                ).1,
            ),
        }
    }
}

/// Whether bit `code` of a mask is set.
spec fn has_bit(mask: u32, code: u32) -> bool {
    mask & (1u32 << code) != 0
}

proof fn lemma_bits(mask: u32, other: u32, code: u32, probe: u32)
    requires
        code < 32,
        probe < 32,
    ensures
        has_bit(mask | (1u32 << code), probe) == (probe == code || has_bit(mask, probe)),
        has_bit(mask & !(1u32 << code), probe) == (probe != code && has_bit(mask, probe)),
        has_bit(mask | other, probe) == (has_bit(mask, probe) || has_bit(other, probe)),
        !has_bit(0, probe),
{
    assert((mask | (1u32 << code)) & (1u32 << probe) != 0 <==> (probe == code || mask & (1u32
        << probe) != 0)) by (bit_vector)
        requires
            code < 32,
            probe < 32,
    ;
    assert((mask & !(1u32 << code)) & (1u32 << probe) != 0 <==> (probe != code && mask & (1u32
        << probe) != 0)) by (bit_vector)
        requires
            code < 32,
            probe < 32,
    ;
    assert((mask | other) & (1u32 << probe) != 0 <==> (mask & (1u32 << probe) != 0 || other & (1u32
        << probe) != 0)) by (bit_vector);
    assert(0u32 & (1u32 << probe) == 0) by (bit_vector);
}

/// The engine of one device.
pub struct DeviceEngine {
    config: ValidatedConfig,
    profile: Profile,
    pointer: PointerState,
    aim: AimState,
    held: [u32; 6],
}

/// The buttons in the masks of all sources.
spec fn masks_view(masks: Seq<u32>) -> Set<(InputSource, Button)> {
    Set::new(
        |pair: (InputSource, Button)| has_bit(masks[pair.0.spec_index()], pair.1.spec_code()),
    )
}

impl View for DeviceEngine {
    type V = EngineView;

    closed spec fn view(&self) -> EngineView {
        EngineView {
            config: self.config@,
            profile: self.profile,
            pointer: self.pointer,
            aim: self.aim,
            held: masks_view(self.held@),
        }
    }
}

fn button_bit(button: Button) -> (bit: u32)
    ensures
        bit == 1u32 << button.spec_code(),
{
    1u32 << button.code()
}

impl DeviceEngine {
    /// An engine at rest.
    pub fn new(config: ValidatedConfig, profile: Profile) -> (engine: DeviceEngine)
        ensures
            engine@ == EngineView::initial(config@, profile),
            engine@.well_formed(),
    {
        let c = config.get();
        proof {
            assert(c@.setting_valid(crate::config::Setting::PointerSpeed));
            assert(c@.setting_valid(crate::config::Setting::IrSpeed));
            assert(c@.setting_valid(crate::config::Setting::IrDeadzone));
            assert(c@.setting_valid(crate::config::Setting::IrSmoothing));
            assert(c@.setting_valid(crate::config::Setting::IrScreen));
            assert(c@.setting_valid(crate::config::Setting::AimSensitivity));
            assert(c@.setting_valid(crate::config::Setting::AimDeadzone));
            assert(c@.setting_valid(crate::config::Setting::AimSmoothing));
            assert(c@.setting_valid(crate::config::Setting::AimAccelZero));
            assert(c@.setting_valid(crate::config::Setting::AimMotionPlusBias));
        }
        let pointer = PointerState::new(
            c.pointer_speed,
            c.ir_speed,
            c.ir_deadzone,
            c.ir_smoothing,
            c.ir_tracking,
        );
        let aim = AimState::new(AimConfig::from_config(c));
        let engine = DeviceEngine { profile, pointer, aim, config, held: [0;6] };
        proof {
            assert forall|pair: (InputSource, Button)| !engine@.held.contains(pair) by {
                lemma_bits(0, 0, 0, pair.1.spec_code());
            }
            assert(engine@.held =~= Set::empty());
        }
        engine
    }

    /// Whether a direction key is held.
    pub fn pointer_active(&self) -> (r: bool)
        ensures
            r == self@.pointer.moving(),
    {
        self.pointer.active()
    }

    /// Appends ordered actions to a caller-owned buffer, reusable between reports.
    pub fn process(&mut self, input: EngineInput, output: &mut Vec<OutputAction>)
        requires
            old(self)@.well_formed(),
        ensures
            final(self)@ == old(self)@.after(input),
            final(output)@ == old(output)@ + old(self)@.actions(input),
            final(self)@.well_formed(),
    {
        match input {
            EngineInput::Reset => {
                self.pointer.reset();
                self.aim.reset_session();
                self.held = [0;6];
                proof {
                    assert forall|pair: (InputSource, Button)| !self@.held.contains(pair) by {
                        lemma_bits(0, 0, 0, pair.1.spec_code());
                    }
                    assert(self@.held =~= Set::empty());
                }
            },
            EngineInput::PointerTick => {
                if self.pointer_active() {
                    let delta = self.pointer.tick();
                    emit_pointer(delta.dx, delta.dy, output);
                }
            },
            EngineInput::Key { source, button, state } => {
                self.key(source, button, state, output);
            },
            EngineInput::SourceRemoved(source) => {
                self.release_source(source, output);
            },
            EngineInput::Motion { kind, axes } => {
                if needs_gamepad(self.profile, self.config.get()) {
                    let mapped = mapping::map_motion(kind, axes);
                    emit_axes(&mapped, output);
                }
                let v = axes[0];
                let triple = [v.x, v.y, v.z];
                assert(triple@ =~= seq![axes@[0].x, axes@[0].y, axes@[0].z]);
                match kind {
                    MotionKind::Accel => {
                        let result = self.aim.process_accelerometer(triple);
                        self.emit_aim(result, output);
                    },
                    MotionKind::MotionPlus => {
                        let result = self.aim.process_motion_plus(triple);
                        self.emit_aim(result, output);
                    },
                    _ => {},
                }
            },
            EngineInput::Ir(frame) => {
                let point = self.pointer.select_ir(&frame);
                if self.profile.contains(Profile::DESKTOP) {
                    let delta = self.pointer.update_ir_frame(&frame);
                    emit_pointer(delta.dx, delta.dy, output);
                }
                let result = self.aim.process_ir(point);
                self.emit_aim(result, output);
            },
        }
        assert(output@ =~= old(output)@ + old(self)@.actions(input));
    }

    fn release_source(&mut self, source: InputSource, output: &mut Vec<OutputAction>)
        requires
            old(self)@.well_formed(),
        ensures
            final(self)@ == old(self)@.after_release_from(source, 0),
            final(output)@ == old(output)@ + old(self)@.release_actions_from(source, 0),
            final(self)@.well_formed(),
    {
        let all = Button::ALL;
        let mut code: usize = 0;
        while code < 28
            invariant
                code <= 28,
                all == Button::ALL,
                self@.well_formed(),
                self@.after_release_from(source, code as nat) == old(self)@.after_release_from(
                    source,
                    0,
                ),
                output@ + self@.release_actions_from(source, code as nat)
                    == old(output)@ + old(self)@.release_actions_from(source, 0),
            decreases 28 - code,
        {
            let button = all[code];
            let ghost before = self@;
            let ghost sent = output@;
            if self.held[source.index()] & button_bit(button) != 0 {
                assert(self@.held.contains((source, button)));
                self.key(source, button, ButtonState::Released, output);
                assert(output@ + self@.release_actions_from(source, code as nat + 1) =~= sent
                    + before.release_actions_from(source, code as nat));
            } else {
                assert(!self@.held.contains((source, button)));
            }
            code = code + 1;
        }
    }

    fn held_buttons(&self) -> (held: u32)
        ensures
            forall|button: Button| #[trigger]
                has_bit(held, button.spec_code()) <==> is_down(self@.held, button),
    {
        let held: u32 = self.held[0] | self.held[1] | self.held[2] | self.held[3] | self.held[4]
            | self.held[5];
        proof {
            assert forall|button: Button| #[trigger]
                has_bit(held, button.spec_code()) <==> is_down(self@.held, button) by {
                let c = button.spec_code();
                let m = self.held@;
                lemma_bits(m[0], m[1], 0, c);
                lemma_bits(m[0] | m[1], m[2], 0, c);
                lemma_bits(m[0] | m[1] | m[2], m[3], 0, c);
                lemma_bits(m[0] | m[1] | m[2] | m[3], m[4], 0, c);
                lemma_bits(m[0] | m[1] | m[2] | m[3] | m[4], m[5], 0, c);
                assert forall|source: InputSource| #[trigger]
                    self@.held.contains((source, button)) implies has_bit(held, c) by {
                    assert(has_bit(m[source.spec_index()], c));
                }
                if has_bit(held, c) {
                    assert(InputSource::Core.spec_index() == 0);
                    if has_bit(m[0], c) {
                        assert(self@.held.contains((InputSource::Core, button)));
                    } else if has_bit(m[1], c) {
                        assert(self@.held.contains((InputSource::Nunchuk, button)));
                    } else if has_bit(m[2], c) {
                        assert(self@.held.contains((InputSource::ClassicController, button)));
                    } else if has_bit(m[3], c) {
                        assert(self@.held.contains((InputSource::ProController, button)));
                    } else if has_bit(m[4], c) {
                        assert(self@.held.contains((InputSource::Drums, button)));
                    } else {
                        assert(self@.held.contains((InputSource::Guitar, button)));
                    }
                }
            }
        }
        held
    }

    fn desktop_key(&self, button: Button) -> (key: Option<u16>)
        ensures
            key == bound_key(self@.config.desktop_bindings, button),
    {
        let bindings = &self.config.get().desktop_bindings;
        let action = match button {
            Button::A => bindings.a,
            Button::B => bindings.b,
            Button::Plus => bindings.plus,
            Button::Minus => bindings.minus,
            Button::Home => bindings.home,
            Button::One => bindings.one,
            Button::Two => bindings.two,
            _ => DesktopAction::Disabled,
        };
        match action {
            DesktopAction::LeftClick => Some(0x110),
            DesktopAction::RightClick => Some(0x111),
            DesktopAction::Enter => Some(28),
            DesktopAction::Escape => Some(1),
            DesktopAction::Overview => Some(125),
            DesktopAction::PageUp => Some(104),
            DesktopAction::PageDown => Some(109),
            DesktopAction::Disabled => None,
        }
    }

    fn desktop_key_held(&self, held: u32, key: u16) -> (r: bool)
        ensures
            r <==> exists|button: Button| #[trigger]
                has_bit(held, button.spec_code()) && bound_key(
                    self@.config.desktop_bindings,
                    button,
                ) == Some(key),
    {
        let all = Button::ALL;
        let mut code: usize = 0;
        while code < 28
            invariant
                code <= 28,
                all == Button::ALL,
                forall|i: int|
                    0 <= i < code ==> !(has_bit(
                        held,
                        (#[trigger] Button::ALL[i]).spec_code(),
                    ) && bound_key(self@.config.desktop_bindings, Button::ALL[i]) == Some(key)),
            decreases 28 - code,
        {
            let button = all[code];
            if held & button_bit(button) != 0 {
                if let Some(bound) = self.desktop_key(button) {
                    if bound == key {
                        assert(has_bit(held, button.spec_code()));
                        return true;
                    }
                }
            }
            code = code + 1;
        }
        proof {
            assert forall|button: Button| #[trigger]
                has_bit(held, button.spec_code()) implies bound_key(
                self@.config.desktop_bindings,
                button,
            ) != Some(key) by {
                crate::input::button_codes_identify_buttons(button, button, button.spec_code());
                assert(Button::ALL[button.spec_code() as int] == button);
            }
        }
        false
    }

    fn set_held(&mut self, source: InputSource, button: Button, state: ButtonState)
        ensures
            final(self)@ == (EngineView {
                held: old(self)@.held_after(source, button, state),
                ..old(self)@
            }),
    {
        let ghost view = self@;
        let bit = button_bit(button);
        let index = source.index();
        let mask = self.held[index];
        match state {
            ButtonState::Released => {
                self.held[index] = mask & !bit;
            },
            ButtonState::Pressed | ButtonState::Repeated => {
                self.held[index] = mask | bit;
            },
        }
        proof {
            assert forall|pair: (InputSource, Button)| #[trigger]
                self@.held.contains(pair) == view.held_after(source, button, state).contains(
                    pair,
                ) by {
                lemma_bits(mask, 0, button.spec_code(), pair.1.spec_code());
                crate::input::button_codes_identify_buttons(button, pair.1, 0);
                assert(pair.0.spec_index() == source.spec_index() ==> pair.0 == source);
            }
            assert(self@.held =~= view.held_after(source, button, state));
        }
    }

    fn emit_desktop_key(
        &self,
        button: Button,
        before: u32,
        after: u32,
        state: ButtonState,
        output: &mut Vec<OutputAction>,
    )
        ensures
            final(output)@ == old(output)@ + mask_transition(
                self@.config.desktop_bindings,
                button,
                before,
                after,
                state,
            ),
    {
        if let Some(mapped) = self.desktop_key(button) {
            let key_was_held = self.desktop_key_held(before, mapped);
            let key_is_held = self.desktop_key_held(after, mapped);
            emit_key_transition(
                OutputDevice::Desktop,
                mapped,
                key_was_held,
                key_is_held,
                state,
                output,
            );
        }
        assert(output@ =~= old(output)@ + mask_transition(
            self@.config.desktop_bindings,
            button,
            before,
            after,
            state,
        ));
    }

    fn move_pointer(&mut self, button: Button, held: bool, output: &mut Vec<OutputAction>)
        requires
            old(self)@.pointer.well_formed(),
        ensures
            match direction(button) {
                Some(key) => {
                    let pointer = old(self)@.pointer.with_key(key, held);
                    &&& final(self)@ == (EngineView { pointer, ..old(self)@ })
                    &&& final(output)@ == old(output)@ + pointer_actions(
                        pointer.tick_delta().dx,
                        pointer.tick_delta().dy,
                    )
                },
                None => final(self)@ == old(self)@ && final(output)@ == old(output)@,
            },
    {
        let key = match button {
            Button::Left => Some(PointerKey::Left),
            Button::Right => Some(PointerKey::Right),
            Button::Up => Some(PointerKey::Up),
            Button::Down => Some(PointerKey::Down),
            _ => None,
        };
        if let Some(key) = key {
            let delta = self.pointer.update_key(key, held);
            emit_pointer(delta.dx, delta.dy, output);
        }
    }

    fn forward_key(
        &mut self,
        source: InputSource,
        button: Button,
        state: ButtonState,
        output: &mut Vec<OutputAction>,
    ) -> (held: (bool, bool))
        ensures
            final(self)@ == (EngineView {
                held: old(self)@.held_after(source, button, state),
                ..old(self)@
            }),
            held.0 == is_down(old(self)@.held, button),
            held.1 == is_down(final(self)@.held, button),
            final(output)@ == old(output)@ + old(self)@.gamepad_key_actions(source, button, state)
                + old(self)@.desktop_key_actions(source, button, state),
    {
        let ghost view = self@;
        let before = self.held_buttons();
        self.set_held(source, button, state);
        let after = self.held_buttons();
        let bit = button_bit(button);
        let was_held = before & bit != 0;
        let is_held = after & bit != 0;
        assert(was_held == has_bit(before, button.spec_code()));
        assert(is_held == has_bit(after, button.spec_code()));
        if needs_gamepad(self.profile, self.config.get()) {
            emit_key_transition(
                OutputDevice::Gamepad,
                mapping::map_button(button),
                was_held,
                is_held,
                state,
                output,
            );
        }
        assert(output@ =~= old(output)@ + view.gamepad_key_actions(source, button, state));
        let ghost first = output@;
        if self.profile.contains(Profile::DESKTOP) {
            self.emit_desktop_key(button, before, after, state, output);
            proof {
                lemma_mask_transition(
                    view.config.desktop_bindings,
                    button,
                    view.held,
                    before,
                    view.held_after(source, button, state),
                    after,
                    state,
                );
            }
        }
        assert(output@ =~= first + view.desktop_key_actions(source, button, state));
        (was_held, is_held)
    }

    #[verifier::spinoff_prover]
    #[verifier::rlimit(40)]
    fn key(
        &mut self,
        source: InputSource,
        button: Button,
        state: ButtonState,
        output: &mut Vec<OutputAction>,
    )
        requires
            old(self)@.well_formed(),
        ensures
            final(self)@ == old(self)@.after_key(source, button, state),
            final(output)@ == old(output)@ + old(self)@.key_actions(source, button, state),
            final(self)@.well_formed(),
    {
        let ghost view = self@;
        let (was_held, is_held) = self.forward_key(source, button, state, output);
        let ghost first = output@;
        if self.profile.contains(Profile::DESKTOP) && was_held != is_held {
            self.move_pointer(button, is_held, output);
        }
        let ghost second = output@;
        assert(second == first + view.pointer_key_actions(source, button, state)) by {
            assert(first + Seq::<OutputAction>::empty() =~= first);
        }
        let ghost moved = self@;
        assert(moved.pointer == view.pointer_after(source, button, state));
        if was_held != is_held {
            let result = self.aim.activation_key(button, is_held);
            self.emit_aim(result, output);
        }
        assert(output@ == second + view.aim_key_actions(source, button, state)) by {
            assert(second + Seq::<OutputAction>::empty() =~= second);
        }
        proof {
            lemma_concatenation(
                old(output)@,
                view.gamepad_key_actions(source, button, state),
                view.desktop_key_actions(source, button, state),
                view.pointer_key_actions(source, button, state),
                view.aim_key_actions(source, button, state),
            );
        }
    }

    fn emit_aim(&self, result: AimResult, output: &mut Vec<OutputAction>)
        requires
            self@.aim.config == aim::aim_config(self@.config),
        ensures
            final(output)@ == old(output)@ + aim_actions(self@.config.aim_mode, result),
    {
        if let Some(v) = result.output {
            match self.aim.config.output {
                AimMode::Mouse => {
                    emit_pointer(v.x, v.y, output);
                },
                AimMode::RightStick => {
                    output.push(
                        OutputAction::Abs(OutputDevice::Gamepad, mapping::ABS_RX, clamp_stick(v.x)),
                    );
                    output.push(
                        OutputAction::Abs(OutputDevice::Gamepad, mapping::ABS_RY, clamp_stick(v.y)),
                    );
                    output.push(OutputAction::Sync(OutputDevice::Gamepad));
                },
                AimMode::Off => {},
            }
        }
        assert(output@ =~= old(output)@ + aim_actions(self@.config.aim_mode, result));
    }
}

proof fn lemma_concatenation(
    start: Seq<OutputAction>,
    a: Seq<OutputAction>,
    b: Seq<OutputAction>,
    c: Seq<OutputAction>,
    d: Seq<OutputAction>,
)
    ensures
        start + a + b + c + d == start + (a + b + c + d),
{
    assert(start + a + b + c + d =~= start + (a + b + c + d));
}

proof fn lemma_key_is_down(
    bindings: DesktopBindings,
    held: Set<(InputSource, Button)>,
    mask: u32,
    key: u16,
)
    requires
        forall|button: Button| #[trigger]
            has_bit(mask, button.spec_code()) <==> is_down(held, button),
    ensures
        key_is_down(bindings, held, key) <==> exists|button: Button| #[trigger]
            has_bit(mask, button.spec_code()) && bound_key(bindings, button) == Some(key),
{
    if key_is_down(bindings, held, key) {
        let button = choose|button: Button| #[trigger]
            is_down(held, button) && bound_key(bindings, button) == Some(key);
        assert(has_bit(mask, button.spec_code()));
    }
    if exists|button: Button| #[trigger]
        has_bit(mask, button.spec_code()) && bound_key(bindings, button) == Some(key) {
        let button = choose|button: Button| #[trigger]
            has_bit(mask, button.spec_code()) && bound_key(bindings, button) == Some(key);
        assert(is_down(held, button));
    }
}

/// The desktop key actions of a change of a button, over the masks before and after it.
spec fn mask_transition(
    bindings: DesktopBindings,
    button: Button,
    before: u32,
    after: u32,
    state: ButtonState,
) -> Seq<OutputAction> {
    match bound_key(bindings, button) {
        Some(key) => transition(
            OutputDevice::Desktop,
            key,
            exists|b: Button| #[trigger]
                has_bit(before, b.spec_code()) && bound_key(bindings, b) == Some(key),
            exists|b: Button| #[trigger]
                has_bit(after, b.spec_code()) && bound_key(bindings, b) == Some(key),
            state,
        ),
        None => seq![],
    }
}

proof fn lemma_mask_transition(
    bindings: DesktopBindings,
    button: Button,
    held_before: Set<(InputSource, Button)>,
    before: u32,
    held_after: Set<(InputSource, Button)>,
    after: u32,
    state: ButtonState,
)
    requires
        forall|b: Button| #[trigger] has_bit(before, b.spec_code()) <==> is_down(held_before, b),
        forall|b: Button| #[trigger] has_bit(after, b.spec_code()) <==> is_down(held_after, b),
    ensures
        mask_transition(bindings, button, before, after, state) == (match bound_key(
            bindings,
            button,
        ) {
            Some(key) => transition(
                OutputDevice::Desktop,
                key,
                key_is_down(bindings, held_before, key),
                key_is_down(bindings, held_after, key),
                state,
            ),
            None => seq![],
        }),
{
    if let Some(key) = bound_key(bindings, button) {
        lemma_key_is_down(bindings, held_before, before, key);
        lemma_key_is_down(bindings, held_after, after, key);
    }
}

fn clamp_stick(value: i32) -> (r: i32)
    ensures
        r == stick(value),
{
    if value > 32767 {
        32767
    } else if value < -32768 {
        -32768
    } else {
        value
    }
}

fn emit_pointer(dx: i32, dy: i32, output: &mut Vec<OutputAction>)
    ensures
        final(output)@ == old(output)@ + pointer_actions(dx, dy),
{
    output.push(OutputAction::Rel(OutputDevice::Desktop, 0, dx));
    output.push(OutputAction::Rel(OutputDevice::Desktop, 1, dy));
    if dx != 0 || dy != 0 {
        output.push(OutputAction::Sync(OutputDevice::Desktop));
    }
    assert(output@ =~= old(output)@ + pointer_actions(dx, dy));
}

fn emit_axes(mapped: &Vec<MappedAxis>, output: &mut Vec<OutputAction>)
    ensures
        final(output)@ == old(output)@ + axis_actions(mapped@),
{
    let ghost acts = axis_actions(mapped@);
    let mut i: usize = 0;
    while i < mapped.len()
        invariant
            i <= mapped.len(),
            acts == axis_actions(mapped@),
            output@ == old(output)@ + acts.subrange(0, i as int),
        decreases mapped.len() - i,
    {
        output.push(
            OutputAction::Abs(OutputDevice::Gamepad, mapped[i].code, mapped[i].value),
        );
        assert(acts.subrange(0, i + 1) =~= acts.subrange(0, i as int).push(acts[i as int]));
        i = i + 1;
        assert(output@ =~= old(output)@ + acts.subrange(0, i as int));
    }
    output.push(OutputAction::Sync(OutputDevice::Gamepad));
    assert(output@ =~= old(output)@ + acts);
}

fn emit_key_transition(
    target: OutputDevice,
    code: u16,
    before: bool,
    after: bool,
    state: ButtonState,
    output: &mut Vec<OutputAction>,
)
    ensures
        final(output)@ == old(output)@ + transition(target, code, before, after, state),
{
    if !after {
        output.push(OutputAction::Key(target, code, ButtonState::Released.value()));
    } else if !before {
        output.push(OutputAction::Key(target, code, ButtonState::Pressed.value()));
    } else if state == ButtonState::Repeated {
        output.push(OutputAction::Key(target, code, ButtonState::Repeated.value()));
    }
    assert(output@ =~= old(output)@ + transition(target, code, before, after, state));
}

/// Whether the virtual gamepad is used: by the profile, or by aiming.
pub fn needs_gamepad(profile: Profile, config: &Config) -> (r: bool)
    ensures
        r == uses_gamepad(profile, config@.aim_mode),
{
    profile.contains(Profile::GAMEPAD) || config.aim_mode == AimMode::RightStick
}

/// Whether the virtual desktop device is used: by the profile, or by aiming.
pub fn needs_desktop(profile: Profile, config: &Config) -> (r: bool)
    ensures
        r == uses_desktop(profile, config@.aim_mode),
{
    profile.contains(Profile::DESKTOP) || config.aim_mode == AimMode::Mouse
}

/// No report changes the configuration or the profile.
pub proof fn settings_are_kept(view: EngineView, input: EngineInput)
    ensures
        view.after(input).config == view.config,
        view.after(input).profile == view.profile,
{
    if let EngineInput::SourceRemoved(source) = input {
        lemma_release_keeps_settings(view, source, 0);
    }
}

proof fn lemma_release_keeps_settings(view: EngineView, source: InputSource, code: nat)
    ensures
        view.after_release_from(source, code).config == view.config,
        view.after_release_from(source, code).profile == view.profile,
    decreases BUTTON_COUNT - code,
{
    if code < BUTTON_COUNT {
        let button = Button::ALL[code as int];
        if view.held.contains((source, button)) {
            lemma_release_keeps_settings(
                view.after_key(source, button, ButtonState::Released),
                source,
                code + 1,
            );
        } else {
            lemma_release_keeps_settings(view, source, code + 1);
        }
    }
}

/// A reset leaves nothing held and nothing moving: it outputs nothing itself, and neither does the
/// pointer tick that follows.
pub proof fn reset_stops_all_movement(view: EngineView)
    ensures
        view.actions(EngineInput::Reset) == Seq::<OutputAction>::empty(),
        view.after(EngineInput::Reset).held == Set::<(InputSource, Button)>::empty(),
        !view.after(EngineInput::Reset).pointer.moving(),
        view.after(EngineInput::Reset).actions(EngineInput::PointerTick) == Seq::<
            OutputAction,
        >::empty(),
{
}

/// A reset engine is an engine at rest: it differs from a new one in nothing.
pub proof fn reset_returns_to_the_initial_state(view: EngineView)
    requires
        view.well_formed(),
    ensures
        view.after(EngineInput::Reset) == EngineView::initial(view.config, view.profile),
{
    assert(view.after(EngineInput::Reset) =~= EngineView::initial(view.config, view.profile));
}

/// Removing a source releases exactly the buttons that this source holds.
pub proof fn removal_releases_only_its_source(view: EngineView, source: InputSource)
    ensures
        forall|pair: (InputSource, Button)| #[trigger]
            view.after(EngineInput::SourceRemoved(source)).held.contains(pair) <==> (
            view.held.contains(pair) && pair.0 != source),
{
    lemma_release_from(view, source, 0);
    assert forall|pair: (InputSource, Button)| #[trigger]
        view.after(EngineInput::SourceRemoved(source)).held.contains(pair) <==> (
        view.held.contains(pair) && pair.0 != source) by {
        crate::input::button_codes_identify_buttons(pair.1, pair.1, pair.1.spec_code());
    }
}

proof fn lemma_release_from(view: EngineView, source: InputSource, code: nat)
    ensures
        forall|pair: (InputSource, Button)| #[trigger]
            view.after_release_from(source, code).held.contains(pair) <==> (view.held.contains(pair)
                && !(pair.0 == source && pair.1.spec_code() >= code && pair.1.spec_code()
                < BUTTON_COUNT)),
    decreases BUTTON_COUNT - code,
{
    if code < BUTTON_COUNT {
        let button = Button::ALL[code as int];
        crate::input::button_codes_identify_buttons(button, button, code as u32);
        let next = if view.held.contains((source, button)) {
            view.after_key(source, button, ButtonState::Released)
        } else {
            view
        };
        lemma_release_from(next, source, code + 1);
        assert forall|pair: (InputSource, Button)| #[trigger]
            view.after_release_from(source, code).held.contains(pair) <==> (view.held.contains(pair)
                && !(pair.0 == source && pair.1.spec_code() >= code && pair.1.spec_code()
                < BUTTON_COUNT)) by {
            crate::input::button_codes_identify_buttons(button, pair.1, 0);
            assert(view.after_release_from(source, code) == next.after_release_from(
                source,
                code + 1,
            ));
            assert(next.held.contains(pair) <==> (view.held.contains(pair) && pair != (
                source,
                button,
            )));
        }
    }
}

/// While another source still holds a button, releasing it on one source reports nothing: no key,
/// no pointer movement and no aiming.
pub proof fn shared_buttons_stay_down(
    view: EngineView,
    source: InputSource,
    other: InputSource,
    button: Button,
)
    requires
        source != other,
        view.held.contains((source, button)),
        view.held.contains((other, button)),
    ensures
        view.key_actions(source, button, ButtonState::Released) == Seq::<OutputAction>::empty(),
        is_down(view.after_key(source, button, ButtonState::Released).held, button),
{
    let after = view.held_after(source, button, ButtonState::Released);
    assert(after.contains((other, button)));
    assert(is_down(view.held, button));
    assert(is_down(after, button));
    if let Some(key) = bound_key(view.config.desktop_bindings, button) {
        assert(key_is_down(view.config.desktop_bindings, after, key));
        assert(key_is_down(view.config.desktop_bindings, view.held, key));
    }
    assert(view.key_actions(source, button, ButtonState::Released) =~= Seq::<
        OutputAction,
    >::empty());
}

/// Pressing and releasing a button that nobody holds leaves what is held as it was.
pub proof fn release_undoes_press(view: EngineView, source: InputSource, button: Button)
    requires
        !view.held.contains((source, button)),
    ensures
        view.after_key(source, button, ButtonState::Pressed).after_key(
            source,
            button,
            ButtonState::Released,
        ).held == view.held,
{
    assert(view.held.insert((source, button)).remove((source, button)) =~= view.held);
}

/// Whether the pointer's direction keys are those that are held, where the profile has a pointer.
pub open spec fn pointer_agrees(view: EngineView) -> bool {
    if view.profile.has_desktop() {
        &&& view.pointer.keys.left == is_down(view.held, Button::Left)
        &&& view.pointer.keys.right == is_down(view.held, Button::Right)
        &&& view.pointer.keys.up == is_down(view.held, Button::Up)
        &&& view.pointer.keys.down == is_down(view.held, Button::Down)
    } else {
        !view.pointer.moving()
    }
}

/// At all times the pointer moves exactly while a direction button is held on a profile with a
/// pointer: this holds at the start, and every report keeps it.
pub proof fn pointer_follows_the_held_directions(
    config: ConfigView,
    profile: Profile,
    view: EngineView,
    input: EngineInput,
)
    ensures
        pointer_agrees(EngineView::initial(config, profile)),
        pointer_agrees(view) ==> pointer_agrees(view.after(input)),
{
    if pointer_agrees(view) {
        match input {
            EngineInput::Key { source, button, state } => {
                lemma_key_keeps_agreement(view, source, button, state);
            },
            EngineInput::SourceRemoved(source) => {
                lemma_release_keeps_agreement(view, source, 0);
            },
            _ => {},
        }
    }
}

proof fn lemma_other_buttons_unchanged(
    view: EngineView,
    source: InputSource,
    button: Button,
    state: ButtonState,
    probe: Button,
)
    requires
        probe != button,
    ensures
        is_down(view.held_after(source, button, state), probe) == is_down(view.held, probe),
{
    let after = view.held_after(source, button, state);
    if is_down(view.held, probe) {
        let s = choose|s: InputSource| #[trigger] view.held.contains((s, probe));
        assert(after.contains((s, probe)));
    }
    if is_down(after, probe) {
        let s = choose|s: InputSource| #[trigger] after.contains((s, probe));
        assert(view.held.contains((s, probe)));
    }
}

proof fn lemma_key_keeps_agreement(
    view: EngineView,
    source: InputSource,
    button: Button,
    state: ButtonState,
)
    requires
        pointer_agrees(view),
    ensures
        pointer_agrees(view.after_key(source, button, state)),
{
    if button != Button::Left {
        lemma_other_buttons_unchanged(view, source, button, state, Button::Left);
    }
    if button != Button::Right {
        lemma_other_buttons_unchanged(view, source, button, state, Button::Right);
    }
    if button != Button::Up {
        lemma_other_buttons_unchanged(view, source, button, state, Button::Up);
    }
    if button != Button::Down {
        lemma_other_buttons_unchanged(view, source, button, state, Button::Down);
    }
}

proof fn lemma_release_keeps_agreement(view: EngineView, source: InputSource, code: nat)
    requires
        pointer_agrees(view),
    ensures
        pointer_agrees(view.after_release_from(source, code)),
    decreases BUTTON_COUNT - code,
{
    if code < BUTTON_COUNT {
        let button = Button::ALL[code as int];
        let next = if view.held.contains((source, button)) {
            view.after_key(source, button, ButtonState::Released)
        } else {
            view
        };
        if view.held.contains((source, button)) {
            lemma_key_keeps_agreement(view, source, button, ButtonState::Released);
        }
        lemma_release_keeps_agreement(next, source, code + 1);
    }
}

/// The device that an action is for.
pub open spec fn target(action: OutputAction) -> OutputDevice {
    match action {
        OutputAction::Key(device, _, _) => device,
        OutputAction::Abs(device, _, _) => device,
        OutputAction::Rel(device, _, _) => device,
        OutputAction::Sync(device) => device,
    }
}

/// Whether every action is for a device that the profile or the aiming mode uses.
pub open spec fn targets_used(
    actions: Seq<OutputAction>,
    profile: Profile,
    mode: AimMode,
) -> bool {
    forall|i: int|
        0 <= i < actions.len() ==> match target(#[trigger] actions[i]) {
            OutputDevice::Gamepad => uses_gamepad(profile, mode),
            OutputDevice::Desktop => uses_desktop(profile, mode),
        }
}

/// No report ever acts on a virtual device that neither the profile nor aiming uses.
pub proof fn actions_stay_on_used_devices(view: EngineView, input: EngineInput)
    requires
        pointer_agrees(view),
    ensures
        targets_used(view.actions(input), view.profile, view.config.aim_mode),
{
    match input {
        EngineInput::Key { source, button, state } => {
            lemma_key_stays_on_used_devices(view, source, button, state);
        },
        EngineInput::SourceRemoved(source) => {
            lemma_releases_stay_on_used_devices(view, source, 0);
        },
        EngineInput::Motion { kind, axes } => {
            let mode = view.config.aim_mode;
            let a = if uses_gamepad(view.profile, mode) {
                axis_actions(mapping::motion_axes(kind, axes@))
            } else {
                seq![]
            };
            let result = view.aim_after_motion(kind, axes@).1;
            lemma_axes_stay_used(mapping::motion_axes(kind, axes@), view.profile, mode);
            lemma_aiming_stays_used(result, view.profile, mode);
            lemma_concatenation_stays_used(a, aim_actions(mode, result), view.profile, mode);
        },
        EngineInput::Ir(frame) => {
            let mode = view.config.aim_mode;
            let delta = view.pointer.frame_delta(frame.points@);
            let a = if view.profile.has_desktop() {
                pointer_actions(delta.dx, delta.dy)
            } else {
                seq![]
            };
            let result = view.aim.after_ir(
                pointer::tracked_position(frame.points@, view.pointer.ir_tracking),
            ).1;
            lemma_aiming_stays_used(result, view.profile, mode);
            lemma_concatenation_stays_used(a, aim_actions(mode, result), view.profile, mode);
        },
        EngineInput::PointerTick => {},
        EngineInput::Reset => {},
    }
}

proof fn lemma_axes_stay_used(axes: Seq<MappedAxis>, profile: Profile, mode: AimMode)
    ensures
        uses_gamepad(profile, mode) ==> targets_used(axis_actions(axes), profile, mode),
{
}

proof fn lemma_aiming_stays_used(result: AimResult, profile: Profile, mode: AimMode)
    ensures
        targets_used(aim_actions(mode, result), profile, mode),
{
}

proof fn lemma_key_stays_on_used_devices(
    view: EngineView,
    source: InputSource,
    button: Button,
    state: ButtonState,
)
    ensures
        targets_used(
            view.key_actions(source, button, state),
            view.profile,
            view.config.aim_mode,
        ),
{
    let g = view.gamepad_key_actions(source, button, state);
    let d = view.desktop_key_actions(source, button, state);
    let p = view.pointer_key_actions(source, button, state);
    let a = view.aim_key_actions(source, button, state);
    assert(targets_used(g, view.profile, view.config.aim_mode));
    assert(targets_used(d, view.profile, view.config.aim_mode));
    assert(targets_used(p, view.profile, view.config.aim_mode));
    assert(targets_used(a, view.profile, view.config.aim_mode));
    lemma_concatenation_stays_used(g, d, view.profile, view.config.aim_mode);
    lemma_concatenation_stays_used(g + d, p, view.profile, view.config.aim_mode);
    lemma_concatenation_stays_used(g + d + p, a, view.profile, view.config.aim_mode);
}

proof fn lemma_concatenation_stays_used(
    a: Seq<OutputAction>,
    b: Seq<OutputAction>,
    profile: Profile,
    mode: AimMode,
)
    requires
        targets_used(a, profile, mode),
        targets_used(b, profile, mode),
    ensures
        targets_used(a + b, profile, mode),
{
}

proof fn lemma_releases_stay_on_used_devices(view: EngineView, source: InputSource, code: nat)
    ensures
        targets_used(
            view.release_actions_from(source, code),
            view.profile,
            view.config.aim_mode,
        ),
    decreases BUTTON_COUNT - code,
{
    if code < BUTTON_COUNT {
        let button = Button::ALL[code as int];
        if view.held.contains((source, button)) {
            let next = view.after_key(source, button, ButtonState::Released);
            lemma_releases_stay_on_used_devices(next, source, code + 1);
            lemma_key_stays_on_used_devices(view, source, button, ButtonState::Released);
            lemma_concatenation_stays_used(
                view.key_actions(source, button, ButtonState::Released),
                next.release_actions_from(source, code + 1),
                view.profile,
                view.config.aim_mode,
            );
        } else {
            lemma_releases_stay_on_used_devices(view, source, code + 1);
        }
    }
}

/// After all IR points were lost, the first frame that shows points again moves the pointer by
/// nothing, wherever the points are.
pub proof fn reacquisition_sets_a_new_baseline(view: EngineView, lost: IrFrame, found: IrFrame)
    requires
        view.profile.has_desktop(),
        view.config.aim_mode is Off,
        pointer::tracked_position(lost.points@, view.pointer.ir_tracking) is None,
    ensures
        view.after(EngineInput::Ir(lost)).actions(EngineInput::Ir(found)) == pointer_actions(0, 0),
{
    let after = view.after(EngineInput::Ir(lost));
    assert(after.actions(EngineInput::Ir(found)) =~= pointer_actions(0, 0));
}

} // verus!
