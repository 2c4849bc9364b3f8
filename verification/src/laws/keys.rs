//! Buttons: the gamepad keys, desktop keys and pointer movement that they cause.
use crate::config::{AimMode, ConfigView, DesktopAction, Profile};
use crate::engine;
use crate::engine::{EngineInput, EngineView, OutputAction, OutputDevice};
use crate::input::{Button, ButtonState, InputSource};
use vstd::prelude::*;

verus! {

/// The key actions on one device, in order.
pub open spec fn keys_on(device: OutputDevice, actions: Seq<OutputAction>) -> Seq<OutputAction>
    decreases actions.len(),
{
    if actions.len() == 0 {
        Seq::empty()
    } else {
        let rest = keys_on(device, actions.drop_last());
        match actions.last() {
            OutputAction::Key(target, _, _) if target == device => rest.push(actions.last()),
            _ => rest,
        }
    }
}

/// How far actions move the mouse along one axis.
pub open spec fn travel(axis: u16, actions: Seq<OutputAction>) -> int
    decreases actions.len(),
{
    if actions.len() == 0 {
        0
    } else {
        let rest = travel(axis, actions.drop_last());
        match actions.last() {
            OutputAction::Rel(OutputDevice::Desktop, code, value) if code == axis => rest + value,
            _ => rest,
        }
    }
}

pub(crate) proof fn lemma_keys_join(device: OutputDevice, a: Seq<OutputAction>, b: Seq<OutputAction>)
    ensures
        keys_on(device, a + b) == keys_on(device, a) + keys_on(device, b),
    decreases b.len(),
{
    if b.len() == 0 {
        assert(a + b =~= a);
        assert(keys_on(device, a) + keys_on(device, b) =~= keys_on(device, a));
    } else {
        lemma_keys_join(device, a, b.drop_last());
        assert((a + b).drop_last() =~= a + b.drop_last());
        assert(keys_on(device, a + b) =~= keys_on(device, a) + keys_on(device, b));
    }
}

pub(crate) proof fn lemma_travel_joins(axis: u16, a: Seq<OutputAction>, b: Seq<OutputAction>)
    ensures
        travel(axis, a + b) == travel(axis, a) + travel(axis, b),
    decreases b.len(),
{
    if b.len() == 0 {
        assert(a + b =~= a);
    } else {
        lemma_travel_joins(axis, a, b.drop_last());
        assert((a + b).drop_last() =~= a + b.drop_last());
    }
}

pub(crate) proof fn lemma_one(device: OutputDevice, axis: u16, action: OutputAction)
    ensures
        keys_on(device, seq![action]) == (match action {
            OutputAction::Key(target, _, _) if target == device => seq![action],
            _ => Seq::empty(),
        }),
        travel(axis, seq![action]) == (match action {
            OutputAction::Rel(OutputDevice::Desktop, code, value) if code == axis => value as int,
            _ => 0,
        }),
        keys_on(device, Seq::empty()) == Seq::<OutputAction>::empty(),
        travel(axis, Seq::empty()) == 0,
{
    let none = Seq::<OutputAction>::empty();
    assert(keys_on(device, none) == none);
    assert(travel(axis, none) == 0);
    assert(seq![action].drop_last() =~= none);
    assert(none.push(action) =~= seq![action]);
}

pub(crate) proof fn lemma_pointer(device: OutputDevice, axis: u16, dx: i32, dy: i32)
    ensures
        keys_on(device, engine::pointer_actions(dx, dy)) == Seq::<OutputAction>::empty(),
        travel(axis, engine::pointer_actions(dx, dy)) == (if axis == 0 {
            dx as int
        } else if axis == 1 {
            dy as int
        } else {
            0
        }),
{
    let x = OutputAction::Rel(OutputDevice::Desktop, 0, dx);
    let y = OutputAction::Rel(OutputDevice::Desktop, 1, dy);
    lemma_one(device, axis, x);
    lemma_one(device, axis, y);
    lemma_one(device, axis, OutputAction::Sync(OutputDevice::Desktop));
    lemma_keys_join(device, seq![x], seq![y]);
    lemma_travel_joins(axis, seq![x], seq![y]);
    let motion = seq![x] + seq![y];
    lemma_keys_join(device, motion, seq![OutputAction::Sync(OutputDevice::Desktop)]);
    lemma_travel_joins(axis, motion, seq![OutputAction::Sync(OutputDevice::Desktop)]);
    assert(seq![x, y] =~= motion);
    assert(motion.push(OutputAction::Sync(OutputDevice::Desktop)) =~= motion + seq![
        OutputAction::Sync(OutputDevice::Desktop),
    ]);
}

pub(crate) proof fn lemma_aiming(device: OutputDevice, mode: AimMode, result: crate::aim::AimResult)
    ensures
        keys_on(device, engine::aim_actions(mode, result)) == Seq::<OutputAction>::empty(),
        mode !is Mouse ==> travel(0, engine::aim_actions(mode, result)) == 0 && travel(
            1,
            engine::aim_actions(mode, result),
        ) == 0,
{
    lemma_one(device, 0, OutputAction::Sync(OutputDevice::Desktop));
    lemma_one(device, 1, OutputAction::Sync(OutputDevice::Desktop));
    if let Some(v) = result.output {
        lemma_pointer(device, 0, v.x, v.y);
        if mode is RightStick {
            let acts = engine::aim_actions(mode, result);
            reveal_with_fuel(keys_on, 4);
            reveal_with_fuel(travel, 4);
            assert(keys_on(device, acts) =~= Seq::empty());
        }
    }
}

/// Whether a change of the buttons is without effect on the mouse beside the pointer's keys.
pub(crate) proof fn lemma_key_parts(
    view: EngineView,
    source: InputSource,
    button: Button,
    state: ButtonState,
)
    ensures
        keys_on(OutputDevice::Desktop, view.key_actions(source, button, state))
            == view.desktop_key_actions(source, button, state),
        keys_on(OutputDevice::Gamepad, view.key_actions(source, button, state))
            == view.gamepad_key_actions(source, button, state),
        view.config.aim_mode !is Mouse ==> travel(0, view.key_actions(source, button, state))
            == travel(0, view.pointer_key_actions(source, button, state)) && travel(
            1,
            view.key_actions(source, button, state),
        ) == travel(1, view.pointer_key_actions(source, button, state)),
{
    let g = view.gamepad_key_actions(source, button, state);
    let d = view.desktop_key_actions(source, button, state);
    let p = view.pointer_key_actions(source, button, state);
    let a = view.aim_key_actions(source, button, state);
    let held = view.held_after(source, button, state);
    let result = view.aim.after_button(button, engine::is_down(held, button)).1;
    let delta = view.pointer_after(source, button, state).tick_delta();
    assert forall|device: OutputDevice| #[trigger] keys_on(device, p) == Seq::<
        OutputAction,
    >::empty() && keys_on(device, a) == Seq::<OutputAction>::empty() && keys_on(device, g) == (
    if device is Gamepad {
        g
    } else {
        Seq::empty()
    }) && keys_on(device, d) == (if device is Desktop {
        d
    } else {
        Seq::empty()
    }) by {
        lemma_one(device, 0, OutputAction::Sync(OutputDevice::Desktop));
        lemma_pointer(device, 0, delta.dx, delta.dy);
        lemma_aiming(device, view.config.aim_mode, result);
        lemma_single(device, g);
        lemma_single(device, d);
    }
    lemma_single(OutputDevice::Desktop, g);
    lemma_single(OutputDevice::Desktop, d);
    lemma_aiming(OutputDevice::Desktop, view.config.aim_mode, result);
    lemma_one(OutputDevice::Desktop, 0, OutputAction::Sync(OutputDevice::Desktop));
    lemma_one(OutputDevice::Desktop, 1, OutputAction::Sync(OutputDevice::Desktop));
    lemma_four(OutputDevice::Desktop, g, d, p, a);
    lemma_four(OutputDevice::Gamepad, g, d, p, a);
    assert(keys_on(OutputDevice::Desktop, p) == Seq::<OutputAction>::empty());
    assert(keys_on(OutputDevice::Gamepad, p) == Seq::<OutputAction>::empty());
    assert(keys_on(OutputDevice::Desktop, view.key_actions(source, button, state)) =~= d);
    assert(keys_on(OutputDevice::Gamepad, view.key_actions(source, button, state)) =~= g);
}

proof fn lemma_four(
    device: OutputDevice,
    a: Seq<OutputAction>,
    b: Seq<OutputAction>,
    c: Seq<OutputAction>,
    d: Seq<OutputAction>,
)
    ensures
        keys_on(device, a + b + c + d) == keys_on(device, a) + keys_on(device, b) + keys_on(
            device,
            c,
        ) + keys_on(device, d),
        travel(0, a + b + c + d) == travel(0, a) + travel(0, b) + travel(0, c) + travel(0, d),
        travel(1, a + b + c + d) == travel(1, a) + travel(1, b) + travel(1, c) + travel(1, d),
{
    lemma_keys_join(device, a, b);
    lemma_keys_join(device, a + b, c);
    lemma_keys_join(device, a + b + c, d);
    lemma_travel_joins(0, a, b);
    lemma_travel_joins(0, a + b, c);
    lemma_travel_joins(0, a + b + c, d);
    lemma_travel_joins(1, a, b);
    lemma_travel_joins(1, a + b, c);
    lemma_travel_joins(1, a + b + c, d);
}

/// Key actions on one device are themselves.
proof fn lemma_single(device: OutputDevice, actions: Seq<OutputAction>)
    requires
        actions.len() <= 1,
        forall|i: int| 0 <= i < actions.len() ==> #[trigger] actions[i] is Key,
    ensures
        actions.len() == 0 ==> keys_on(device, actions) == Seq::<OutputAction>::empty(),
        actions.len() == 1 ==> keys_on(device, actions) == (if actions[0]->Key_0 == device {
            actions
        } else {
            Seq::empty()
        }),
        travel(0, actions) == 0,
        travel(1, actions) == 0,
{
    if actions.len() == 1 {
        assert(actions =~= seq![actions[0]]);
        lemma_one(device, 0, actions[0]);
        lemma_one(device, 1, actions[0]);
    }
}

/// Whether a desktop action can be bound to a button.
pub open spec fn is_bindable(button: Button) -> bool {
    button is A || button is B || button is Plus || button is Minus || button is Home
        || button is One || button is Two
}

/// Whether a button is bound to an action.
pub open spec fn is_bound(config: ConfigView, button: Button, action: DesktopAction) -> bool {
    ||| button is A && config.desktop_bindings.a == action
    ||| button is B && config.desktop_bindings.b == action
    ||| button is Plus && config.desktop_bindings.plus == action
    ||| button is Minus && config.desktop_bindings.minus == action
    ||| button is Home && config.desktop_bindings.home == action
    ||| button is One && config.desktop_bindings.one == action
    ||| button is Two && config.desktop_bindings.two == action
}

/// Whether nobody holds a button that an action can be bound to.
pub open spec fn no_binding_held(view: EngineView) -> bool {
    forall|pair: (InputSource, Button)| #[trigger]
        view.held.contains(pair) ==> !is_bindable(pair.1)
}

/// The key actions on the desktop are exactly one, with this code and this value.
pub open spec fn only_desktop_key(actions: Seq<OutputAction>, code: u16, value: u32) -> bool {
    keys_on(OutputDevice::Desktop, actions) == seq![
        OutputAction::Key(OutputDevice::Desktop, code, value),
    ]
}

/// Whether pressing, repeating and releasing a button presses, repeats and releases one desktop key.
pub open spec fn pressed_as(
    view: EngineView,
    source: InputSource,
    button: Button,
    key: u16,
) -> bool {
    let press = EngineInput::Key { source, button, state: ButtonState::Pressed };
    let repeat = EngineInput::Key { source, button, state: ButtonState::Repeated };
    let release = EngineInput::Key { source, button, state: ButtonState::Released };
    &&& only_desktop_key(view.actions(press), key, 1)
    &&& only_desktop_key(view.after(press).actions(repeat), key, 2)
    &&& only_desktop_key(view.after(press).actions(release), key, 0)
}

proof fn lemma_press(view: EngineView, source: InputSource, button: Button, key: u16)
    requires
        view.profile is Desktop || view.profile is Both,
        no_binding_held(view),
        engine::bound_key(view.config.desktop_bindings, button) == Some(key),
    ensures
        pressed_as(view, source, button, key),
{
    let bindings = view.config.desktop_bindings;
    let down = view.after_key(source, button, ButtonState::Pressed);
    lemma_key_parts(view, source, button, ButtonState::Pressed);
    lemma_key_parts(down, source, button, ButtonState::Repeated);
    lemma_key_parts(down, source, button, ButtonState::Released);
    assert forall|b: Button| #[trigger] engine::is_down(view.held, b) implies engine::bound_key(
        bindings,
        b,
    ) != Some(key) by {
        let s = choose|s: InputSource| #[trigger] view.held.contains((s, b));
        assert(!is_bindable((s, b).1));
    }
    assert(!engine::key_is_down(bindings, view.held, key));
    assert(down.held.contains((source, button)));
    assert(engine::is_down(down.held, button));
    assert(engine::key_is_down(bindings, down.held, key));
    let again = down.held_after(source, button, ButtonState::Repeated);
    assert(again.contains((source, button)));
    assert(engine::is_down(again, button));
    assert(engine::key_is_down(bindings, again, key));
    let up = down.held_after(source, button, ButtonState::Released);
    assert forall|b: Button| #[trigger] engine::is_down(up, b) implies engine::bound_key(
        bindings,
        b,
    ) != Some(key) by {
        let s = choose|s: InputSource| #[trigger] up.contains((s, b));
        assert(view.held.contains((s, b)));
        assert(!is_bindable((s, b).1));
    }
    assert(!engine::key_is_down(bindings, up, key));
}

/// A button on the desktop presses the key of the action that it is bound to: the first press
/// presses it, a repetition repeats it and the release lets it go. The left click is the left mouse
/// button and the right click the right one.
pub proof fn clicks_press_the_mouse_buttons(view: EngineView, source: InputSource, button: Button)
    requires
        view.profile is Desktop || view.profile is Both,
        no_binding_held(view),
    ensures
        is_bound(view.config, button, DesktopAction::LeftClick) ==> pressed_as(
            view,
            source,
            button,
            0x110,
        ),
        is_bound(view.config, button, DesktopAction::RightClick) ==> pressed_as(
            view,
            source,
            button,
            0x111,
        ),
{
    if is_bound(view.config, button, DesktopAction::LeftClick) {
        lemma_press(view, source, button, 0x110);
    }
    if is_bound(view.config, button, DesktopAction::RightClick) {
        lemma_press(view, source, button, 0x111);
    }
}

/// The other actions press the Linux keys for enter, escape, the left meta key, page up and page
/// down. A button that is bound to nothing presses no desktop key.
pub proof fn actions_press_their_linux_key(view: EngineView, source: InputSource, button: Button)
    requires
        view.profile is Desktop || view.profile is Both,
        no_binding_held(view),
    ensures
        is_bound(view.config, button, DesktopAction::Enter) ==> pressed_as(
            view,
            source,
            button,
            28,
        ),
        is_bound(view.config, button, DesktopAction::Escape) ==> pressed_as(
            view,
            source,
            button,
            1,
        ),
        is_bound(view.config, button, DesktopAction::Overview) ==> pressed_as(
            view,
            source,
            button,
            125,
        ),
        is_bound(view.config, button, DesktopAction::PageUp) ==> pressed_as(
            view,
            source,
            button,
            104,
        ),
        is_bound(view.config, button, DesktopAction::PageDown) ==> pressed_as(
            view,
            source,
            button,
            109,
        ),
{
    if is_bound(view.config, button, DesktopAction::Enter) {
        lemma_press(view, source, button, 28);
    }
    if is_bound(view.config, button, DesktopAction::Escape) {
        lemma_press(view, source, button, 1);
    }
    if is_bound(view.config, button, DesktopAction::Overview) {
        lemma_press(view, source, button, 125);
    }
    if is_bound(view.config, button, DesktopAction::PageUp) {
        lemma_press(view, source, button, 104);
    }
    if is_bound(view.config, button, DesktopAction::PageDown) {
        lemma_press(view, source, button, 109);
    }
}

/// A disabled binding, a button that takes none, and a profile without a desktop press no desktop
/// key, whatever is held.
pub proof fn unbound_buttons_press_no_desktop_key(
    view: EngineView,
    source: InputSource,
    button: Button,
    state: ButtonState,
)
    requires
        view.profile is Gamepad || !is_bindable(button) || is_bound(
            view.config,
            button,
            DesktopAction::Disabled,
        ),
    ensures
        keys_on(
            OutputDevice::Desktop,
            view.actions(EngineInput::Key { source, button, state }),
        ) == Seq::<OutputAction>::empty(),
{
    lemma_key_parts(view, source, button, state);
}

/// While another button that is bound to the same action is held, a press or a release changes
/// nothing on the desktop: the key goes down with the first and up with the last.
pub proof fn shared_actions_stay_pressed(
    view: EngineView,
    source: InputSource,
    button: Button,
    other: Button,
    holder: InputSource,
    action: DesktopAction,
    state: ButtonState,
)
    requires
        is_bound(view.config, button, action),
        is_bound(view.config, other, action),
        button != other,
        view.held.contains((holder, other)),
        state !is Repeated,
    ensures
        keys_on(
            OutputDevice::Desktop,
            view.actions(EngineInput::Key { source, button, state }),
        ) == Seq::<OutputAction>::empty(),
{
    lemma_key_parts(view, source, button, state);
    let after = view.held_after(source, button, state);
    assert(engine::is_down(view.held, other));
    assert(after.contains((holder, other)));
    assert(engine::is_down(after, other));
    if let Some(key) = engine::bound_key(view.config.desktop_bindings, button) {
        assert(engine::key_is_down(view.config.desktop_bindings, view.held, key));
        assert(engine::key_is_down(view.config.desktop_bindings, after, key));
    }
}

/// Whether nobody holds a button.
pub open spec fn is_up(view: EngineView, button: Button) -> bool {
    forall|source: InputSource| !#[trigger] view.held.contains((source, button))
}

/// Whether pressing, repeating and releasing a button presses, repeats and releases one gamepad key.
pub open spec fn pressed_on_gamepad_as(
    view: EngineView,
    source: InputSource,
    button: Button,
    key: u16,
) -> bool {
    let press = EngineInput::Key { source, button, state: ButtonState::Pressed };
    let repeat = EngineInput::Key { source, button, state: ButtonState::Repeated };
    let release = EngineInput::Key { source, button, state: ButtonState::Released };
    &&& keys_on(OutputDevice::Gamepad, view.actions(press)) == seq![
        OutputAction::Key(OutputDevice::Gamepad, key, 1),
    ]
    &&& keys_on(OutputDevice::Gamepad, view.after(press).actions(repeat)) == seq![
        OutputAction::Key(OutputDevice::Gamepad, key, 2),
    ]
    &&& keys_on(OutputDevice::Gamepad, view.after(press).actions(release)) == seq![
        OutputAction::Key(OutputDevice::Gamepad, key, 0),
    ]
}

/// Every button presses its Linux gamepad key, on every profile with a gamepad and while aiming
/// drives the right stick.
pub proof fn buttons_press_their_gamepad_key(view: EngineView, source: InputSource, button: Button)
    requires
        view.profile is Gamepad || view.profile is Both || view.config.aim_mode is RightStick,
        is_up(view, button),
    ensures
        button is A ==> pressed_on_gamepad_as(view, source, button, 0x130),
        button is B ==> pressed_on_gamepad_as(view, source, button, 0x131),
        button is C ==> pressed_on_gamepad_as(view, source, button, 0x132),
        button is X ==> pressed_on_gamepad_as(view, source, button, 0x133),
        button is Y ==> pressed_on_gamepad_as(view, source, button, 0x134),
        button is Z ==> pressed_on_gamepad_as(view, source, button, 0x135),
        button is ShoulderLeft ==> pressed_on_gamepad_as(view, source, button, 0x136),
        button is ShoulderRight ==> pressed_on_gamepad_as(view, source, button, 0x137),
        button is TriggerLeft ==> pressed_on_gamepad_as(view, source, button, 0x138),
        button is TriggerRight ==> pressed_on_gamepad_as(view, source, button, 0x139),
        button is Minus ==> pressed_on_gamepad_as(view, source, button, 0x13a),
        button is Plus ==> pressed_on_gamepad_as(view, source, button, 0x13b),
        button is Home ==> pressed_on_gamepad_as(view, source, button, 0x13c),
        button is ThumbLeft ==> pressed_on_gamepad_as(view, source, button, 0x13d),
        button is ThumbRight ==> pressed_on_gamepad_as(view, source, button, 0x13e),
        button is One ==> pressed_on_gamepad_as(view, source, button, 0x101),
        button is Two ==> pressed_on_gamepad_as(view, source, button, 0x102),
        button is Up ==> pressed_on_gamepad_as(view, source, button, 0x220),
        button is Down ==> pressed_on_gamepad_as(view, source, button, 0x221),
        button is Left ==> pressed_on_gamepad_as(view, source, button, 0x222),
        button is Right ==> pressed_on_gamepad_as(view, source, button, 0x223),
        button is StrumBarUp ==> pressed_on_gamepad_as(view, source, button, 0x2c0),
        button is StrumBarDown ==> pressed_on_gamepad_as(view, source, button, 0x2c1),
        button is FretFarUp ==> pressed_on_gamepad_as(view, source, button, 0x2c2),
        button is FretUp ==> pressed_on_gamepad_as(view, source, button, 0x2c3),
        button is FretMid ==> pressed_on_gamepad_as(view, source, button, 0x2c4),
        button is FretLow ==> pressed_on_gamepad_as(view, source, button, 0x2c5),
        button is FretFarLow ==> pressed_on_gamepad_as(view, source, button, 0x2c6),
{
    let down = view.after_key(source, button, ButtonState::Pressed);
    lemma_key_parts(view, source, button, ButtonState::Pressed);
    lemma_key_parts(down, source, button, ButtonState::Repeated);
    lemma_key_parts(down, source, button, ButtonState::Released);
    assert(!engine::is_down(view.held, button));
    assert(down.held.contains((source, button)));
    let again = down.held_after(source, button, ButtonState::Repeated);
    assert(again.contains((source, button)));
    let up = down.held_after(source, button, ButtonState::Released);
    if engine::is_down(up, button) {
        let s = choose|s: InputSource| #[trigger] up.contains((s, button));
        assert(view.held.contains((s, button)));
    }
}

/// A desktop profile presses no gamepad key, unless aiming drives the right stick.
pub proof fn the_desktop_profile_presses_no_gamepad_key(
    view: EngineView,
    source: InputSource,
    button: Button,
    state: ButtonState,
)
    requires
        view.profile is Desktop,
        view.config.aim_mode !is RightStick,
    ensures
        keys_on(
            OutputDevice::Gamepad,
            view.actions(EngineInput::Key { source, button, state }),
        ) == Seq::<OutputAction>::empty(),
{
    lemma_key_parts(view, source, button, state);
}

/// Whether nobody holds a direction.
pub open spec fn no_direction_held(view: EngineView) -> bool {
    is_up(view, Button::Left) && is_up(view, Button::Right) && is_up(view, Button::Up) && is_up(
        view,
        Button::Down,
    )
}

/// Whether actions move the mouse by exactly this much.
pub open spec fn moves_by(actions: Seq<OutputAction>, dx: int, dy: int) -> bool {
    travel(0, actions) == dx && travel(1, actions) == dy
}

/// A direction on the desktop moves the mouse its way, by the configured speed: at once when it is
/// pressed, and again with every tick until it is released.
pub proof fn directions_move_the_pointer(view: EngineView, source: InputSource, button: Button)
    requires
        view.profile is Desktop || view.profile is Both,
        view.config.aim_mode !is Mouse,
        view.well_formed(),
        engine::pointer_agrees(view),
        no_direction_held(view),
        button is Left || button is Right || button is Up || button is Down,
    ensures
        ({
            let speed = view.config.pointer_speed as int;
            let dx = if button is Right {
                speed
            } else if button is Left {
                -speed
            } else {
                0
            };
            let dy = if button is Down {
                speed
            } else if button is Up {
                -speed
            } else {
                0
            };
            let press = EngineInput::Key { source, button, state: ButtonState::Pressed };
            let release = EngineInput::Key { source, button, state: ButtonState::Released };
            let down = view.after(press);
            &&& moves_by(view.actions(press), dx, dy)
            &&& moves_by(down.actions(EngineInput::PointerTick), dx, dy)
            &&& moves_by(down.actions(release), 0, 0)
            &&& down.after(release).actions(EngineInput::PointerTick) == Seq::<
                OutputAction,
            >::empty()
        }),
{
    let press = EngineInput::Key { source, button, state: ButtonState::Pressed };
    let release = EngineInput::Key { source, button, state: ButtonState::Released };
    let down = view.after(press);
    let up = down.after(release);
    lemma_key_parts(view, source, button, ButtonState::Pressed);
    lemma_key_parts(down, source, button, ButtonState::Released);
    engine::pointer_follows_the_held_directions(view.config, view.profile, view, press);
    engine::pointer_follows_the_held_directions(view.config, view.profile, down, release);
    assert(!engine::is_down(view.held, button));
    assert(down.held.contains((source, button)));
    assert(engine::is_down(down.held, button));
    assert forall|b: Button|
        b is Left || b is Right || b is Up || b is Down implies !#[trigger] engine::is_down(
        up.held,
        b,
    ) by {
        if engine::is_down(up.held, b) {
            let s = choose|s: InputSource| #[trigger] up.held.contains((s, b));
            assert(view.held.contains((s, b)));
        }
    }
    let first = view.pointer_after(source, button, ButtonState::Pressed).tick_delta();
    let second = down.pointer_after(source, button, ButtonState::Released).tick_delta();
    lemma_pointer(OutputDevice::Desktop, 0, first.dx, first.dy);
    lemma_pointer(OutputDevice::Desktop, 1, first.dx, first.dy);
    lemma_pointer(OutputDevice::Desktop, 0, second.dx, second.dy);
    lemma_pointer(OutputDevice::Desktop, 1, second.dx, second.dy);
    assert(!engine::is_down(view.held, Button::Left));
    assert(!engine::is_down(view.held, Button::Right));
    assert(!engine::is_down(view.held, Button::Up));
    assert(!engine::is_down(view.held, Button::Down));
    assert(!engine::is_down(up.held, Button::Left));
    assert(!engine::is_down(up.held, Button::Right));
    assert(!engine::is_down(up.held, Button::Up));
    assert(!engine::is_down(up.held, Button::Down));
    assert(up.actions(EngineInput::PointerTick) =~= Seq::empty());
}

/// Opposite directions that are held together cancel out, and different axes add up: a tick moves
/// right by the speed for a held right and left for a held left, and so up and down.
pub proof fn ticks_add_up_the_held_directions(view: EngineView)
    requires
        view.profile is Desktop || view.profile is Both,
        view.well_formed(),
        engine::pointer_agrees(view),
    ensures
        ({
            let speed = view.config.pointer_speed as int;
            let part = |button: Button| if is_up(view, button) {
                0int
            } else {
                speed
            };
            moves_by(
                view.actions(EngineInput::PointerTick),
                part(Button::Right) - part(Button::Left),
                part(Button::Down) - part(Button::Up),
            )
        }),
{
    let delta = view.pointer.tick_delta();
    lemma_pointer(OutputDevice::Desktop, 0, delta.dx, delta.dy);
    lemma_pointer(OutputDevice::Desktop, 1, delta.dx, delta.dy);
    lemma_one(OutputDevice::Desktop, 0, OutputAction::Sync(OutputDevice::Desktop));
    lemma_one(OutputDevice::Desktop, 1, OutputAction::Sync(OutputDevice::Desktop));
    assert forall|b: Button| #[trigger] engine::is_down(view.held, b) == !is_up(view, b) by {}
    assert(engine::is_down(view.held, Button::Left) == !is_up(view, Button::Left));
    assert(engine::is_down(view.held, Button::Right) == !is_up(view, Button::Right));
    assert(engine::is_down(view.held, Button::Up) == !is_up(view, Button::Up));
    assert(engine::is_down(view.held, Button::Down) == !is_up(view, Button::Down));
}

/// A new engine holds nothing, and its settings are those of its configuration.
pub proof fn a_new_engine_holds_nothing(config: ConfigView, profile: Profile)
    ensures
        ({
            let view = EngineView::initial(config, profile);
            &&& view.config == config
            &&& view.profile == profile
            &&& no_binding_held(view)
            &&& no_direction_held(view)
            &&& forall|button: Button| #[trigger] is_up(view, button)
            &&& view.actions(EngineInput::PointerTick) == Seq::<OutputAction>::empty()
        }),
{
}

/// A button that is pressed is held by its source, one that is released is not, and no other button
/// and no other source is touched.
pub proof fn buttons_are_held_until_released(
    view: EngineView,
    source: InputSource,
    button: Button,
    state: ButtonState,
    pair: (InputSource, Button),
)
    ensures
        ({
            let after = view.after(EngineInput::Key { source, button, state });
            &&& pair != (source, button) ==> after.held.contains(pair) == view.held.contains(pair)
            &&& after.held.contains((source, button)) == (state is Pressed || state is Repeated)
        }),
{
}

/// Whether actions leave the mouse where it is.
pub open spec fn is_still(actions: Seq<OutputAction>) -> bool {
    moves_by(actions, 0, 0)
}

/// Buttons other than the four directions, and profiles without a desktop, leave the mouse alone.
pub proof fn other_buttons_do_not_move_the_pointer(
    view: EngineView,
    source: InputSource,
    button: Button,
    state: ButtonState,
)
    requires
        view.config.aim_mode !is Mouse,
        view.profile is Gamepad || !(button is Left || button is Right || button is Up
            || button is Down),
    ensures
        is_still(view.actions(EngineInput::Key { source, button, state })),
{
    lemma_key_parts(view, source, button, state);
    lemma_one(OutputDevice::Desktop, 0, OutputAction::Sync(OutputDevice::Desktop));
    lemma_one(OutputDevice::Desktop, 1, OutputAction::Sync(OutputDevice::Desktop));
}

} // verus!
