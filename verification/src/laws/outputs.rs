//! What an engine puts out as a whole: movements are flushed, and a source that leaves lets go.
use crate::config::{AimMode, Config, Profile, ValidatedConfig};
use crate::engine::{self, DeviceEngine, EngineInput, EngineView, OutputAction, OutputDevice};
use crate::input::{Button, ButtonState, InputSource};
use crate::mapping::MappedAxis;
use vstd::prelude::*;

verus! {

/// The device that an action moves, if it moves one.
pub open spec fn moved(action: OutputAction) -> Option<OutputDevice> {
    match action {
        OutputAction::Abs(device, _, _) => Some(device),
        OutputAction::Rel(device, _, value) if value != 0 => Some(device),
        _ => None,
    }
}

/// Whether each movement is followed by the signal that makes it take effect.
pub open spec fn is_flushed(actions: Seq<OutputAction>) -> bool {
    forall|i: int|
        0 <= i < actions.len() && moved(#[trigger] actions[i]) is Some ==> exists|j: int|
            i < j < actions.len() && #[trigger] actions[j] == OutputAction::Sync(
                moved(actions[i])->0,
            )
}

proof fn lemma_joined(a: Seq<OutputAction>, b: Seq<OutputAction>)
    requires
        is_flushed(a),
        is_flushed(b),
    ensures
        is_flushed(a + b),
{
    let c = a + b;
    assert forall|i: int|
        0 <= i < c.len() && moved(#[trigger] c[i]) is Some implies exists|j: int|
        i < j < c.len() && #[trigger] c[j] == OutputAction::Sync(moved(c[i])->0) by {
        if i < a.len() {
            assert(a[i] == c[i]);
            let j = choose|j: int|
                i < j < a.len() && #[trigger] a[j] == OutputAction::Sync(moved(a[i])->0);
            assert(c[j] == a[j]);
        } else {
            let k = i - a.len();
            assert(b[k] == c[i]);
            let j = choose|j: int|
                k < j < b.len() && #[trigger] b[j] == OutputAction::Sync(moved(b[k])->0);
            assert(c[j + a.len()] == b[j]);
        }
    }
}

proof fn lemma_pointer(dx: i32, dy: i32)
    ensures
        is_flushed(engine::pointer_actions(dx, dy)),
{
    let actions = engine::pointer_actions(dx, dy);
    if dx != 0 || dy != 0 {
        assert(actions[2] == OutputAction::Sync(OutputDevice::Desktop));
    }
}

proof fn lemma_aim(mode: AimMode, result: crate::aim::AimResult)
    ensures
        is_flushed(engine::aim_actions(mode, result)),
{
    if let Some(v) = result.output {
        match mode {
            AimMode::Mouse => {
                lemma_pointer(v.x, v.y);
            },
            AimMode::RightStick => {
                assert(engine::aim_actions(mode, result)[2] == OutputAction::Sync(
                    OutputDevice::Gamepad,
                ));
            },
            AimMode::Off => {},
        }
    }
}

proof fn lemma_axes(axes: Seq<MappedAxis>)
    ensures
        is_flushed(engine::axis_actions(axes)),
{
    let actions = engine::axis_actions(axes);
    assert(actions[actions.len() - 1] == OutputAction::Sync(OutputDevice::Gamepad));
}

proof fn lemma_key(view: EngineView, source: InputSource, button: Button, state: ButtonState)
    ensures
        is_flushed(view.key_actions(source, button, state)),
{
    let a = view.gamepad_key_actions(source, button, state);
    let b = view.desktop_key_actions(source, button, state);
    let c = view.pointer_key_actions(source, button, state);
    let d = view.aim_key_actions(source, button, state);
    lemma_joined(a, b);
    let delta = view.pointer_after(source, button, state).tick_delta();
    lemma_pointer(delta.dx, delta.dy);
    lemma_joined(a + b, c);
    lemma_aim(
        view.config.aim_mode,
        view.aim.after_button(
            button,
            engine::is_down(view.held_after(source, button, state), button),
        ).1,
    );
    lemma_joined(a + b + c, d);
}

proof fn lemma_release(view: EngineView, source: InputSource, code: nat)
    ensures
        is_flushed(view.release_actions_from(source, code)),
    decreases 28 - code,
{
    if code < 28 {
        let button = Button::ALL[code as int];
        if view.held.contains((source, button)) {
            let next = view.after_key(source, button, ButtonState::Released);
            lemma_key(view, source, button, ButtonState::Released);
            lemma_release(next, source, code + 1);
            lemma_joined(
                view.key_actions(source, button, ButtonState::Released),
                next.release_actions_from(source, code + 1),
            );
        } else {
            lemma_release(view, source, code + 1);
        }
    }
}

/// Whatever the engine moves, a mouse or a stick, takes effect: the signal for it follows.
pub proof fn movements_take_effect(view: EngineView, input: EngineInput)
    ensures
        is_flushed(view.actions(input)),
{
    match input {
        EngineInput::Reset => {},
        EngineInput::PointerTick => {
            let delta = view.pointer.tick_delta();
            lemma_pointer(delta.dx, delta.dy);
        },
        EngineInput::Key { source, button, state } => {
            lemma_key(view, source, button, state);
        },
        EngineInput::SourceRemoved(source) => {
            lemma_release(view, source, 0);
        },
        EngineInput::Motion { kind, axes } => {
            lemma_axes(crate::mapping::motion_axes(kind, axes@));
            lemma_aim(view.config.aim_mode, view.aim_after_motion(kind, axes@).1);
            lemma_joined(
                if engine::uses_gamepad(view.profile, view.config.aim_mode) {
                    engine::axis_actions(crate::mapping::motion_axes(kind, axes@))
                } else {
                    seq![]
                },
                engine::aim_actions(view.config.aim_mode, view.aim_after_motion(kind, axes@).1),
            );
        },
        EngineInput::Ir(frame) => {
            let delta = view.pointer.frame_delta(frame.points@);
            lemma_pointer(delta.dx, delta.dy);
            let result = view.aim.after_ir(
                crate::pointer::tracked_position(frame.points@, view.pointer.ir_tracking),
            ).1;
            lemma_aim(view.config.aim_mode, result);
            lemma_joined(
                if view.profile.has_desktop() {
                    engine::pointer_actions(delta.dx, delta.dy)
                } else {
                    seq![]
                },
                engine::aim_actions(view.config.aim_mode, result),
            );
        },
    }
}

proof fn lemma_nothing_held(view: EngineView, source: InputSource, code: nat)
    requires
        forall|b: Button| !#[trigger] view.held.contains((source, b)),
    ensures
        view.release_actions_from(source, code) == Seq::<OutputAction>::empty(),
        view.after_release_from(source, code) == view,
    decreases 28 - code,
{
    if code < 28 {
        assert(!view.held.contains((source, Button::ALL[code as int])));
        lemma_nothing_held(view, source, code + 1);
    }
}

proof fn lemma_one_held(view: EngineView, source: InputSource, button: Button, code: nat)
    requires
        forall|b: Button| #[trigger] view.held.contains((source, b)) <==> b == button,
        code <= button.spec_code(),
    ensures
        view.release_actions_from(source, code) == view.key_actions(
            source,
            button,
            ButtonState::Released,
        ),
        view.after_release_from(source, code) == view.after_key(
            source,
            button,
            ButtonState::Released,
        ),
    decreases 28 - code,
{
    let here = Button::ALL[code as int];
    crate::input::button_codes_identify_buttons(here, button, code as u32);
    if code == button.spec_code() {
        assert(here == button);
        let next = view.after_key(source, button, ButtonState::Released);
        assert forall|b: Button| !#[trigger] next.held.contains((source, b)) by {
            assert(view.held.contains((source, b)) <==> b == button);
        }
        lemma_nothing_held(next, source, code + 1);
        assert(view.key_actions(source, button, ButtonState::Released) + Seq::<
            OutputAction,
        >::empty() =~= view.key_actions(source, button, ButtonState::Released));
    } else {
        assert(here != button);
        assert(!view.held.contains((source, here)));
        lemma_one_held(view, source, button, code + 1);
    }
}

/// When a source that holds one button leaves, it is as if the button had been let go; when it
/// holds none, nothing happens.
pub proof fn a_leaving_source_lets_go(view: EngineView, source: InputSource, button: Button)
    ensures
        (forall|b: Button| #[trigger] view.held.contains((source, b)) <==> b == button) ==> {
            &&& view.actions(EngineInput::SourceRemoved(source)) == view.actions(
                EngineInput::Key { source, button, state: ButtonState::Released },
            )
            &&& view.after(EngineInput::SourceRemoved(source)) == view.after(
                EngineInput::Key { source, button, state: ButtonState::Released },
            )
        },
        (forall|b: Button| !#[trigger] view.held.contains((source, b))) ==> {
            &&& view.actions(EngineInput::SourceRemoved(source)).len() == 0
            &&& view.after(EngineInput::SourceRemoved(source)) == view
        },
{
    if forall|b: Button| #[trigger] view.held.contains((source, b)) <==> b == button {
        lemma_one_held(view, source, button, 0);
    }
    if forall|b: Button| !#[trigger] view.held.contains((source, b)) {
        lemma_nothing_held(view, source, 0);
    }
}

/// An engine puts out the actions of a report behind what was put out before, and goes on from the
/// state after it.
pub proof fn engines_put_out_their_actions(
    engine: &mut DeviceEngine,
    input: EngineInput,
    output: &mut Vec<OutputAction>,
)
    requires
        call_ensures(DeviceEngine::process, (engine, input, output), ()),
    ensures
        final(output)@ == old(output)@ + old(engine)@.actions(input),
        final(engine)@ == old(engine)@.after(input),
{
}

/// A new engine has the settings that it was made with, and nothing held.
pub proof fn new_engines_have_their_settings(
    config: ValidatedConfig,
    profile: Profile,
    engine: DeviceEngine,
)
    requires
        call_ensures(DeviceEngine::new, (config, profile), engine),
    ensures
        engine@.config == config@,
        engine@.profile == profile,
        engine@ == EngineView::initial(config@, profile),
        engine@.pointer.speed == config@.pointer_speed,
        engine@.pointer.ir_speed == config@.ir_speed,
        engine@.pointer.ir_deadzone == config@.ir_deadzone,
        engine@.pointer.ir_smoothing == config@.ir_smoothing,
        engine@.pointer.ir_tracking == config@.ir_tracking,
        forall|source: InputSource, button: Button|
            !#[trigger] engine@.held.contains((source, button)),
{
}

/// The pointer is active exactly while a direction is held.
pub proof fn held_directions_keep_the_pointer_active(engine: &DeviceEngine, r: bool)
    requires
        call_ensures(DeviceEngine::pointer_active, (engine, ), r),
    ensures
        r <==> engine@.pointer.keys.left || engine@.pointer.keys.right || engine@.pointer.keys.up
            || engine@.pointer.keys.down,
{
}

/// A virtual gamepad is needed by the gamepad profiles and by aiming with a stick; a virtual desktop
/// device by the desktop profiles and by aiming with the mouse.
pub proof fn outputs_that_are_needed(
    profile: Profile,
    config: &Config,
    gamepad: bool,
    desktop: bool,
)
    requires
        call_ensures(engine::needs_gamepad, (profile, config), gamepad),
        call_ensures(engine::needs_desktop, (profile, config), desktop),
    ensures
        gamepad <==> profile is Gamepad || profile is Both || config.aim_mode is RightStick,
        desktop <==> profile is Desktop || profile is Both || config.aim_mode is Mouse,
{
}

} // verus!
