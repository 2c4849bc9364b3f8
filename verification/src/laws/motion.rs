//! Motion reports on the virtual gamepad.
use crate::engine;
use crate::engine::{EngineInput, EngineView, OutputAction, OutputDevice};
use crate::mapping;
use crate::mapping::{Abs3, MotionKind};
use vstd::prelude::*;

verus! {

/// A value on a gamepad axis.
pub open spec fn on_axis(code: u16, value: i32) -> OutputAction {
    OutputAction::Abs(OutputDevice::Gamepad, code, value)
}

/// The end of what is output at once on the gamepad.
pub open spec fn done() -> OutputAction {
    OutputAction::Sync(OutputDevice::Gamepad)
}

proof fn lemma_alone(view: EngineView, kind: MotionKind, axes: [Abs3; 8])
    requires
        view.profile is Gamepad || view.profile is Both,
        view.config.aim_mode is Off,
    ensures
        view.actions(EngineInput::Motion { kind, axes }) == engine::axis_actions(
            mapping::motion_axes(kind, axes@),
        ),
{
    let first = engine::axis_actions(mapping::motion_axes(kind, axes@));
    assert(first + Seq::<OutputAction>::empty() =~= first);
}

/// On a gamepad the sensors of the remote and the pointing of its attachments go to the Linux axes
/// of their own: every value of a report arrives unchanged, and nothing else does.
pub proof fn sensors_drive_their_axes(view: EngineView, axes: [Abs3; 8])
    requires
        view.profile is Gamepad || view.profile is Both,
        view.config.aim_mode is Off,
    ensures
        view.actions(EngineInput::Motion { kind: MotionKind::Accel, axes }) == seq![
            on_axis(0x14, axes@[0].x),
            on_axis(0x15, axes@[0].y),
            on_axis(2, axes@[0].z),
            done(),
        ],
        view.actions(EngineInput::Motion { kind: MotionKind::MotionPlus, axes }) == seq![
            on_axis(0x16, axes@[0].x),
            on_axis(0x17, axes@[0].y),
            on_axis(5, axes@[0].z),
            done(),
        ],
        view.actions(EngineInput::Motion { kind: MotionKind::Balance, axes }) == seq![
            on_axis(0x10, axes@[0].x),
            on_axis(0x11, axes@[1].x),
            on_axis(0x12, axes@[2].x),
            on_axis(0x13, axes@[3].x),
            done(),
        ],
{
    lemma_alone(view, MotionKind::Accel, axes);
    lemma_alone(view, MotionKind::MotionPlus, axes);
    lemma_alone(view, MotionKind::Balance, axes);
    assert(view.actions(EngineInput::Motion { kind: MotionKind::Accel, axes }) =~= seq![
        on_axis(0x14, axes@[0].x),
        on_axis(0x15, axes@[0].y),
        on_axis(2, axes@[0].z),
        done(),
    ]);
    assert(view.actions(EngineInput::Motion { kind: MotionKind::MotionPlus, axes }) =~= seq![
        on_axis(0x16, axes@[0].x),
        on_axis(0x17, axes@[0].y),
        on_axis(5, axes@[0].z),
        done(),
    ]);
    assert(view.actions(EngineInput::Motion { kind: MotionKind::Balance, axes }) =~= seq![
        on_axis(0x10, axes@[0].x),
        on_axis(0x11, axes@[1].x),
        on_axis(0x12, axes@[2].x),
        on_axis(0x13, axes@[3].x),
        done(),
    ]);
}

/// Sticks of attached controllers are sticks of the gamepad: the left stick is its left stick, and a
/// right stick its right one. Triggers, the whammy bar and drum pads have axes of their own.
pub proof fn sticks_drive_the_sticks(view: EngineView, axes: [Abs3; 8])
    requires
        view.profile is Gamepad || view.profile is Both,
        view.config.aim_mode is Off,
    ensures
        view.actions(EngineInput::Motion { kind: MotionKind::Nunchuk, axes }) == seq![
            on_axis(0, axes@[0].x),
            on_axis(1, axes@[0].y),
            done(),
        ],
        view.actions(EngineInput::Motion { kind: MotionKind::Classic, axes }) == seq![
            on_axis(0, axes@[0].x),
            on_axis(1, axes@[0].y),
            on_axis(3, axes@[1].x),
            on_axis(4, axes@[1].y),
            on_axis(2, axes@[2].x),
            on_axis(5, axes@[2].y),
            done(),
        ],
        view.actions(EngineInput::Motion { kind: MotionKind::Pro, axes }) == seq![
            on_axis(0, axes@[0].x),
            on_axis(1, axes@[0].y),
            on_axis(3, axes@[1].x),
            on_axis(4, axes@[1].y),
            done(),
        ],
        view.actions(EngineInput::Motion { kind: MotionKind::Guitar, axes }) == seq![
            on_axis(0, axes@[0].x),
            on_axis(1, axes@[0].y),
            on_axis(0x10, axes@[1].x),
            on_axis(0x11, axes@[2].x),
            done(),
        ],
        view.actions(EngineInput::Motion { kind: MotionKind::Drums, axes }) == seq![
            on_axis(0, axes@[0].x),
            on_axis(1, axes@[0].y),
            on_axis(0x10, axes@[1].x),
            on_axis(0x11, axes@[2].x),
            on_axis(0x12, axes@[3].x),
            on_axis(0x13, axes@[4].x),
            on_axis(0x14, axes@[5].x),
            on_axis(0x15, axes@[6].x),
            done(),
        ],
{
    lemma_alone(view, MotionKind::Nunchuk, axes);
    lemma_alone(view, MotionKind::Classic, axes);
    lemma_alone(view, MotionKind::Pro, axes);
    lemma_alone(view, MotionKind::Guitar, axes);
    lemma_alone(view, MotionKind::Drums, axes);
    assert(view.actions(EngineInput::Motion { kind: MotionKind::Nunchuk, axes }) =~= seq![
        on_axis(0, axes@[0].x),
        on_axis(1, axes@[0].y),
        done(),
    ]);
    assert(view.actions(EngineInput::Motion { kind: MotionKind::Classic, axes }) =~= seq![
        on_axis(0, axes@[0].x),
        on_axis(1, axes@[0].y),
        on_axis(3, axes@[1].x),
        on_axis(4, axes@[1].y),
        on_axis(2, axes@[2].x),
        on_axis(5, axes@[2].y),
        done(),
    ]);
    assert(view.actions(EngineInput::Motion { kind: MotionKind::Pro, axes }) =~= seq![
        on_axis(0, axes@[0].x),
        on_axis(1, axes@[0].y),
        on_axis(3, axes@[1].x),
        on_axis(4, axes@[1].y),
        done(),
    ]);
    assert(view.actions(EngineInput::Motion { kind: MotionKind::Guitar, axes }) =~= seq![
        on_axis(0, axes@[0].x),
        on_axis(1, axes@[0].y),
        on_axis(0x10, axes@[1].x),
        on_axis(0x11, axes@[2].x),
        done(),
    ]);
    assert(view.actions(EngineInput::Motion { kind: MotionKind::Drums, axes }) =~= seq![
        on_axis(0, axes@[0].x),
        on_axis(1, axes@[0].y),
        on_axis(0x10, axes@[1].x),
        on_axis(0x11, axes@[2].x),
        on_axis(0x12, axes@[3].x),
        on_axis(0x13, axes@[4].x),
        on_axis(0x14, axes@[5].x),
        on_axis(0x15, axes@[6].x),
        done(),
    ]);
}

/// Aiming adds to what a gamepad outputs and takes nothing from it: with any aiming mode, a motion
/// report begins with what it outputs without one.
pub proof fn aiming_only_adds_to_the_gamepad(view: EngineView, kind: MotionKind, axes: [Abs3; 8])
    requires
        view.profile is Gamepad || view.profile is Both,
    ensures
        ({
            let off = EngineView {
                config: crate::config::ConfigView {
                    aim_mode: crate::config::AimMode::Off,
                    ..view.config
                },
                ..view
            };
            let input = EngineInput::Motion { kind, axes };
            off.actions(input).is_prefix_of(view.actions(input))
        }),
{
    let off = EngineView {
        config: crate::config::ConfigView {
            aim_mode: crate::config::AimMode::Off,
            ..view.config
        },
        ..view
    };
    lemma_alone(off, kind, axes);
    let input = EngineInput::Motion { kind, axes };
    assert(off.actions(input) =~= view.actions(input).subrange(
        0,
        off.actions(input).len() as int,
    ));
}

/// On the desktop alone, motion without aiming outputs nothing.
pub proof fn motion_is_not_for_the_desktop(view: EngineView, kind: MotionKind, axes: [Abs3; 8])
    requires
        view.profile is Desktop,
        view.config.aim_mode is Off,
    ensures
        view.actions(EngineInput::Motion { kind, axes }) == Seq::<OutputAction>::empty(),
{
    assert(view.actions(EngineInput::Motion { kind, axes }) =~= Seq::empty());
}

} // verus!
