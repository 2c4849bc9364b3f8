//! The form: its ranges, its bindings, its rules and what it offers.
use crate::config::{Config, DesktopAction, DesktopBindings, IrScreen};
use crate::control::ControlCenter;
use crate::form::{self, BoundButton, NumberField, Range};
use crate::model::ConfigModel;
use crate::palette::Palette;
use crate::process::ServiceAction;
use crate::rules::{self, RuleActions, RuleEdit, RuleIds, RuleRow};
use crate::window::{CaptureNotice, Confirmation, Discard, SaveBar, ServiceCard};
use vstd::prelude::*;
use vstd::string::*;

verus! {

/// The ranges that are offered.
pub proof fn fields_offer_ranges(
    field: NumberField,
    range: Range,
    screen: Range,
    calibration: Range,
)
    requires
        call_ensures(NumberField::range, (field, ), range),
        call_ensures(form::screen_range, (), screen),
        call_ensures(form::calibration_range, (), calibration),
    ensures
        field is PointerSpeed || field is IrSpeed || field is AimSensitivity ==> range.min == 1
            && range.max == 127,
        field is IrDeadzone ==> range.min == 0 && range.max == 127,
        field is IrSmoothing || field is AimSmoothing ==> range.min == 0 && range.max == 95,
        field is AimDeadzone ==> range.min == 0 && range.max == 32767,
        field is AimCalibrationDuration ==> range.min == 1 && range.max == 30,
        screen.min == 0 && screen.max == 32767,
        calibration.min == -32768 && calibration.max == 32767,
{
}

/// A screen is reversed where a side is not before its opposite.
pub proof fn reversed_screens_have_no_area(screen: &IrScreen, r: bool)
    requires
        call_ensures(form::screen_is_reversed, (screen, ), r),
    ensures
        !r <==> screen.left < screen.right && screen.top < screen.bottom,
{
}

/// What is switched on starts with these values, and what is switched off is gone.
pub proof fn switches_set_starting_values(
    screen: &mut Config,
    accel: &mut Config,
    motion: &mut Config,
    on: bool,
)
    requires
        call_ensures(form::set_screen, (screen, on), ()),
        call_ensures(form::set_accel, (accel, on), ()),
        call_ensures(form::set_motion, (motion, on), ()),
    ensures
        on ==> (final(screen).ir_screen matches Some(s) && s.left == 0 && s.right == 1023 && s.top
            == 0 && s.bottom == 767),
        on ==> (final(accel).aim_accel_zero matches Some(c) && c.x == 0 && c.y == 0 && c.z == 0),
        on ==> (final(motion).aim_motion_plus_bias matches Some(c) && c.x == 0 && c.y == 0 && c.z
            == 0),
        !on ==> final(screen).ir_screen is None && final(accel).aim_accel_zero is None
            && final(motion).aim_motion_plus_bias is None,
        final(screen).aim_accel_zero == old(screen).aim_accel_zero,
        final(accel).ir_screen == old(accel).ir_screen,
        final(motion).profile == old(motion).profile,
{
}

/// A button that is bound has its action, and the others keep theirs.
pub proof fn bindings_are_set_one_by_one(
    button: BoundButton,
    other: BoundButton,
    bindings: &mut DesktopBindings,
    action: DesktopAction,
    after: &DesktopBindings,
    before: &DesktopBindings,
    now: DesktopAction,
    was: DesktopAction,
)
    requires
        call_ensures(BoundButton::bind, (button, bindings, action), ()),
        *after == *final(bindings),
        *before == *old(bindings),
        call_ensures(BoundButton::bound, (other, after), now),
        call_ensures(BoundButton::bound, (other, before), was),
    ensures
        other == button ==> now == action,
        other != button ==> now == was,
{
}

/// Each button of the form is the button that it is named after.
pub proof fn buttons_of_the_form(
    button: BoundButton,
    bindings: &DesktopBindings,
    action: DesktopAction,
)
    requires
        call_ensures(BoundButton::bound, (button, bindings), action),
    ensures
        button is A ==> action == bindings.a,
        button is B ==> action == bindings.b,
        button is Plus ==> action == bindings.plus,
        button is Minus ==> action == bindings.minus,
        button is Home ==> action == bindings.home,
        button is One ==> action == bindings.one,
        button is Two ==> action == bindings.two,
{
}

/// A change makes the form unsaved, and no change does not.
pub proof fn changes_make_the_form_unsaved(model: &mut ConfigModel, changed: bool)
    requires
        call_ensures(form::note_change, (model, changed), ()),
    ensures
        changed ==> final(model).dirty && final(model).revision != old(model).revision,
        !changed ==> *final(model) == *old(model),
{
}

/// Sixty-four rules can be added.
pub proof fn rules_can_be_added(config: &Config, r: bool)
    requires
        call_ensures(rules::can_add_rule, (config, ), r),
    ensures
        r <==> config.device_rules@.len() < 64,
{
}

/// A row of the rules can move towards either end, up to the ends.
pub proof fn rows_can_move_to_the_ends(model: &ConfigModel, index: usize, row: RuleRow)
    requires
        call_ensures(rules::rule_row, (model, index), row),
    ensures
        row.can_move_earlier <==> index > 0,
        row.can_move_later <==> index + 1 < model.config.device_rules@.len(),
        row.last <==> index + 1 == model.config.device_rules@.len(),
{
}

/// Removing a rule takes that rule away, moving one exchanges two, and a new rule stands last, for a
/// device type that is not entered yet, with the gamepad profile; the form is unsaved after any of
/// them.
pub proof fn rules_are_edited(
    model: &mut ConfigModel,
    ids: &mut RuleIds,
    actions: RuleActions,
)
    requires
        call_ensures(rules::edit_rules, (model, ids, actions), ()),
        old(ids).rows@.len() == old(model).config.device_rules@.len(),
        actions.edit matches Some(edit) ==> edit.fits(old(ids).rows@.len()),
    ensures
        actions.edit matches Some(RuleEdit::Remove(i)) ==> (!actions.add
            ==> final(model).config@.device_rules == old(model).config@.device_rules.remove(
            i as int,
        ) && final(ids).rows@ == old(ids).rows@.remove(i as int)),
        actions.edit matches Some(RuleEdit::Move(a, b)) ==> (!actions.add ==> {
            &&& final(model).config@.device_rules[a as int]
                == old(model).config@.device_rules[b as int]
            &&& final(model).config@.device_rules[b as int]
                == old(model).config@.device_rules[a as int]
            &&& final(ids).rows@[a as int] == old(ids).rows@[b as int]
        }),
        actions.edit is None && actions.add && old(ids).rows@.len() < 64 ==> {
            &&& final(model).config@.device_rules.len() == old(model).config@.device_rules.len() + 1
            &&& final(model).config@.device_rules.last().kind is Devtype
            &&& final(model).config@.device_rules.last().match_text.len() == 0
            &&& final(model).config@.device_rules.last().profile is Gamepad
            &&& final(ids).rows@ == old(ids).rows@.push(old(ids).next)
        },
        actions.edit is Some || actions.changed ==> final(model).dirty,
        actions.edit is None && !actions.add && !actions.changed ==> final(model).dirty
            == old(model).dirty && final(model).config@.device_rules
                == old(model).config@.device_rules,
{
    assert(old(model).config@.device_rules.len() == old(model).config.device_rules@.len());
}

/// The form can be saved while nothing is running, where it is valid and has a target; the service
/// can be restarted where it would read that file.
pub proof fn valid_forms_can_be_saved(center: &ControlCenter, bar: SaveBar)
    requires
        call_ensures(ControlCenter::save_bar, (center, ), bar),
    ensures
        bar.can_save <==> center.config_task is None && center.model.config@.valid()
            && center.model.config_path@.len() > 0,
        bar.can_restart <==> bar.can_save && !center.model.explicit(center.model.config_path@),
        bar.can_reload <==> center.config_task is None,
        bar.unsaved == center.model.dirty,
        bar.busy == (center.config_task is Some),
        center.model.config@.first_problem() is Some <==> bar.notice is Problem,
{
}

/// The shortcut saves an unsaved form while nothing is running and nothing is asked.
pub proof fn the_shortcut_saves_unsaved_forms(center: &ControlCenter, r: bool)
    requires
        call_ensures(ControlCenter::shortcut_saves, (center, ), r),
    ensures
        r <==> center.model.dirty && center.config_task is None && !center.close_confirmation
            && !center.reload_confirmation,
{
}

/// Closing with unsaved changes asks first; having agreed, and without changes, it does not.
pub proof fn closing_asks_about_changes(center: &mut ControlCenter, stays: bool)
    requires
        call_ensures(ControlCenter::request_close, (center, ), stays),
    ensures
        stays <==> old(center).model.dirty && !old(center).close_approved,
        stays ==> final(center).close_confirmation,
        final(center).model == old(center).model,
{
}

/// What is asked is told, closing first; going on with editing asks nothing more, and changes
/// nothing.
pub proof fn questions_are_withdrawn(
    center: &ControlCenter,
    asked: Option<Confirmation>,
    other: &mut ControlCenter,
)
    requires
        call_ensures(ControlCenter::confirmation, (center, ), asked),
        call_ensures(ControlCenter::keep_editing, (other, ), ()),
    ensures
        asked == (if center.close_confirmation {
            Some(Confirmation::Close)
        } else if center.reload_confirmation {
            Some(Confirmation::Reload)
        } else {
            None
        }),
        !final(other).close_confirmation && !final(other).reload_confirmation,
        final(other).model == old(other).model,
{
}

/// Discarding changes does what was asked: it closes, or loads again.
pub proof fn discarding_does_what_was_asked(center: &mut ControlCenter, discard: Discard)
    requires
        call_ensures(ControlCenter::discard_changes, (center, ), discard),
    ensures
        discard is Close <==> old(center).close_confirmation,
        discard is Close ==> final(center).close_approved,
        old(center).config_task is None && old(center).model.transaction is None && discard
            is Reload ==> final(center).config_task is Some,
{
}

/// A service that runs is offered to be restarted, any other to be started; one that does not run
/// is a warning.
pub proof fn services_are_offered(center: &ControlCenter, card: ServiceCard)
    requires
        call_ensures(ControlCenter::service_card, (center, ), card),
    ensures
        center.service_status@ == "Running"@ <==> card.primary == ServiceAction::Restart,
        center.service_status@ != "Running"@ <==> card.primary == ServiceAction::Start,
        center.service_status@ == "Running"@ ==> !card.warning,
        center.service_status@ == "Failed"@ || center.service_status@ == "Stopped"@
            || center.service_status@ == "Unavailable"@ ==> card.warning,
        card.busy == (center.service_task is Some),
{
    reveal_strlit("Running");
    reveal_strlit("Failed");
    reveal_strlit("Stopped");
    reveal_strlit("Unavailable");
    assert("Running"@[0] == 'R');
    assert("Failed"@[0] == 'F');
    assert("Stopped"@[0] == 'S');
    assert("Unavailable"@[0] == 'U');
}

/// A capture warns of changes that it does not see, and of a file that the daemon does not read.
pub proof fn captures_warn_of_changes(center: &ControlCenter, notice: CaptureNotice)
    requires
        call_ensures(ControlCenter::capture_notice, (center, ), notice),
    ensures
        notice is CustomFile <==> !center.direct_capture && center.model.explicit(
            center.model.config_path@,
        ),
        center.direct_capture ==> (notice is UnsavedDirect <==> center.model.dirty),
        notice is UnsavedDaemon ==> center.model.dirty && !center.direct_capture,
        !center.model.dirty && !(notice is CustomFile) ==> notice is Nothing,
{
}

/// A capture can be stopped once; the center is occupied while anything runs.
pub proof fn running_work_is_known(center: &ControlCenter, stop: bool, occupied: bool)
    requires
        call_ensures(ControlCenter::can_stop_capture, (center, ), stop),
        call_ensures(ControlCenter::is_occupied, (center, ), occupied),
    ensures
        stop <==> (center.validation_task matches Some(task) && !task.cancel_requested),
        occupied <==> center.config_task is Some || center.command_task is Some
            || center.validation_task is Some,
{
}

/// How bright a color is, in thousandths of its channels.
pub open spec fn brightness(c: crate::palette::Rgb) -> int {
    299 * c.red + 587 * c.green + 114 * c.blue
}

/// A dark palette is light on dark, the other dark on light, and what stands on the accent can be
/// told from it.
pub proof fn palettes_have_contrast(dark: bool, palette: Palette)
    requires
        call_ensures(Palette::new, (dark, ), palette),
    ensures
        dark ==> brightness(palette.ink) > brightness(palette.canvas) + 150000 && brightness(
            palette.ink,
        ) > brightness(palette.surface) + 150000 && brightness(palette.accent) > brightness(
            palette.on_accent,
        ) + 100000,
        !dark ==> brightness(palette.canvas) > brightness(palette.ink) + 150000 && brightness(
            palette.surface,
        ) > brightness(palette.ink) + 150000 && brightness(palette.on_accent) > brightness(
            palette.accent,
        ) + 100000,
{
}

/// Rows have identities of their own: a new one gets the next, and the rows are fitted to the rules
/// from the end.
pub proof fn rows_have_identities(
    pushed: &mut RuleIds,
    fitted: &mut RuleIds,
    count: usize,
    i: int,
)
    requires
        call_ensures(RuleIds::push, (pushed, ), ()),
        call_ensures(RuleIds::fit, (fitted, count), ()),
        0 <= i < count,
    ensures
        final(pushed).rows@ == old(pushed).rows@.push(old(pushed).next),
        final(pushed).next == old(pushed).next + 1,
        final(fitted).rows@.len() == count,
        i < old(fitted).rows@.len() ==> final(fitted).rows@[i] == old(fitted).rows@[i],
        i >= old(fitted).rows@.len() ==> final(fitted).rows@[i] >= old(fitted).next,
{
    if i < old(fitted).rows@.len() {
        assert(final(fitted).rows@[i] == old(fitted).rows@[i]);
    } else {
        assert(final(fitted).rows@[i] == old(fitted).next + (i - old(fitted).rows@.len()));
    }
}

} // verus!
