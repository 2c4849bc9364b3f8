//! A configuration that was written reads back as it was.
use crate::config;
use crate::config::{
    AimActivation, AimMode, AimSource, ConfigView, DesktopAction, DesktopBindings, DeviceRuleKind,
    DeviceRuleView, IrAimMapping, IrScreen, IrTracking, Profile, SensorCalibration,
};
use crate::config_text;
use crate::config_text::{Assignment, ConfigErrorView, DraftView, PartialScreen, PartialTriple};
use crate::text;
use crate::validation;
use crate::validation::CalibrationResult;
use vstd::prelude::*;

verus! {

/// Whether a text stands on one line as it is: it is not blank, and no whitespace at its ends and
/// no line break would be lost.
pub open spec fn is_plain(s: Seq<char>) -> bool {
    &&& s.len() > 0
    &&& !text::is_space(s[0])
    &&& !text::is_space(s[s.len() - 1])
    &&& forall|i: int| 0 <= i < s.len() ==> #[trigger] s[i] != '\n'
}

/// Whether a text is a plain key.
pub open spec fn is_key(s: Seq<char>) -> bool {
    &&& is_plain(s)
    &&& s[0] != '#'
    &&& forall|i: int| 0 <= i < s.len() ==> #[trigger] s[i] != '='
}

/// Whether a text has a length, a first and a last character.
pub open spec fn marked(s: Seq<char>, len: nat, first: char, last: char) -> bool {
    s.len() == len && len > 0 && s[0] == first && s[len - 1] == last
}

pub(crate) proof fn lemma_number_keys()
    ensures
        is_key("pointer-speed"@),
        marked("pointer-speed"@, 13, 'p', 'd'),
        is_key("ir-speed"@),
        marked("ir-speed"@, 8, 'i', 'd'),
        is_key("ir-deadzone"@),
        marked("ir-deadzone"@, 11, 'i', 'e'),
        is_key("ir-smoothing"@),
        marked("ir-smoothing"@, 12, 'i', 'g'),
        is_key("aim-sensitivity"@),
        marked("aim-sensitivity"@, 15, 'a', 'y'),
        is_key("aim-deadzone"@),
        marked("aim-deadzone"@, 12, 'a', 'e'),
        is_key("aim-smoothing"@),
        marked("aim-smoothing"@, 13, 'a', 'g'),
        is_key("aim-calibration-duration"@),
        marked("aim-calibration-duration"@, 24, 'a', 'n'),
{
    reveal_strlit("pointer-speed");
    reveal_strlit("ir-speed");
    reveal_strlit("ir-deadzone");
    reveal_strlit("ir-smoothing");
    reveal_strlit("aim-sensitivity");
    reveal_strlit("aim-deadzone");
    reveal_strlit("aim-smoothing");
    reveal_strlit("aim-calibration-duration");
}

pub(crate) proof fn lemma_choice_keys()
    ensures
        is_key("profile"@),
        marked("profile"@, 7, 'p', 'e'),
        is_key("ir-tracking"@),
        marked("ir-tracking"@, 11, 'i', 'g'),
        is_key("ir-aim-mapping"@),
        marked("ir-aim-mapping"@, 14, 'i', 'g'),
        is_key("aim-mode"@),
        marked("aim-mode"@, 8, 'a', 'e'),
        is_key("aim-source"@),
        marked("aim-source"@, 10, 'a', 'e'),
        is_key("aim-activation"@),
        marked("aim-activation"@, 14, 'a', 'n'),
        is_key("aim-invert-x"@),
        marked("aim-invert-x"@, 12, 'a', 'x'),
        is_key("aim-invert-y"@),
        marked("aim-invert-y"@, 12, 'a', 'y'),
{
    reveal_strlit("profile");
    reveal_strlit("ir-tracking");
    reveal_strlit("ir-aim-mapping");
    reveal_strlit("aim-mode");
    reveal_strlit("aim-source");
    reveal_strlit("aim-activation");
    reveal_strlit("aim-invert-x");
    reveal_strlit("aim-invert-y");
}

pub(crate) proof fn lemma_binding_keys()
    ensures
        is_key("bind-a"@),
        marked("bind-a"@, 6, 'b', 'a'),
        is_key("bind-b"@),
        marked("bind-b"@, 6, 'b', 'b'),
        is_key("bind-plus"@),
        marked("bind-plus"@, 9, 'b', 's'),
        is_key("bind-minus"@),
        marked("bind-minus"@, 10, 'b', 's'),
        is_key("bind-home"@),
        marked("bind-home"@, 9, 'b', 'e'),
        is_key("bind-one"@),
        marked("bind-one"@, 8, 'b', 'e'),
        is_key("bind-two"@),
        marked("bind-two"@, 8, 'b', 'o'),
{
    reveal_strlit("bind-a");
    reveal_strlit("bind-b");
    reveal_strlit("bind-plus");
    reveal_strlit("bind-minus");
    reveal_strlit("bind-home");
    reveal_strlit("bind-one");
    reveal_strlit("bind-two");
}

pub(crate) proof fn lemma_part_keys()
    ensures
        is_key("aim-accel-zero-x"@),
        marked("aim-accel-zero-x"@, 16, 'a', 'x'),
        is_key("aim-accel-zero-y"@),
        marked("aim-accel-zero-y"@, 16, 'a', 'y'),
        is_key("aim-accel-zero-z"@),
        marked("aim-accel-zero-z"@, 16, 'a', 'z'),
        is_key("aim-motion-plus-bias-x"@),
        marked("aim-motion-plus-bias-x"@, 22, 'a', 'x'),
        is_key("aim-motion-plus-bias-y"@),
        marked("aim-motion-plus-bias-y"@, 22, 'a', 'y'),
        is_key("aim-motion-plus-bias-z"@),
        marked("aim-motion-plus-bias-z"@, 22, 'a', 'z'),
        is_key("ir-screen-left"@),
        marked("ir-screen-left"@, 14, 'i', 't'),
        is_key("ir-screen-right"@),
        marked("ir-screen-right"@, 15, 'i', 't'),
        is_key("ir-screen-top"@),
        marked("ir-screen-top"@, 13, 'i', 'p'),
        is_key("ir-screen-bottom"@),
        marked("ir-screen-bottom"@, 16, 'i', 'm'),
{
    reveal_strlit("aim-accel-zero-x");
    reveal_strlit("aim-accel-zero-y");
    reveal_strlit("aim-accel-zero-z");
    reveal_strlit("aim-motion-plus-bias-x");
    reveal_strlit("aim-motion-plus-bias-y");
    reveal_strlit("aim-motion-plus-bias-z");
    reveal_strlit("ir-screen-left");
    reveal_strlit("ir-screen-right");
    reveal_strlit("ir-screen-top");
    reveal_strlit("ir-screen-bottom");
}

pub(crate) proof fn lemma_rule_keys()
    ensures
        is_key("rule-syspath"@),
        marked("rule-syspath"@, 12, 'r', 'h'),
        is_key("rule-devtype"@),
        marked("rule-devtype"@, 12, 'r', 'e'),
{
    reveal_strlit("rule-syspath");
    reveal_strlit("rule-devtype");
}

pub(crate) proof fn lemma_keys()
    ensures
        marked("pointer-speed"@, 13, 'p', 'd'),
        marked("ir-speed"@, 8, 'i', 'd'),
        marked("ir-deadzone"@, 11, 'i', 'e'),
        marked("ir-smoothing"@, 12, 'i', 'g'),
        marked("aim-sensitivity"@, 15, 'a', 'y'),
        marked("aim-deadzone"@, 12, 'a', 'e'),
        marked("aim-smoothing"@, 13, 'a', 'g'),
        marked("aim-calibration-duration"@, 24, 'a', 'n'),
        marked("profile"@, 7, 'p', 'e'),
        marked("ir-tracking"@, 11, 'i', 'g'),
        marked("ir-aim-mapping"@, 14, 'i', 'g'),
        marked("aim-mode"@, 8, 'a', 'e'),
        marked("aim-source"@, 10, 'a', 'e'),
        marked("aim-activation"@, 14, 'a', 'n'),
        marked("aim-invert-x"@, 12, 'a', 'x'),
        marked("aim-invert-y"@, 12, 'a', 'y'),
        marked("bind-a"@, 6, 'b', 'a'),
        marked("bind-b"@, 6, 'b', 'b'),
        marked("bind-plus"@, 9, 'b', 's'),
        marked("bind-minus"@, 10, 'b', 's'),
        marked("bind-home"@, 9, 'b', 'e'),
        marked("bind-one"@, 8, 'b', 'e'),
        marked("bind-two"@, 8, 'b', 'o'),
        marked("aim-accel-zero-x"@, 16, 'a', 'x'),
        marked("aim-accel-zero-y"@, 16, 'a', 'y'),
        marked("aim-accel-zero-z"@, 16, 'a', 'z'),
        marked("aim-motion-plus-bias-x"@, 22, 'a', 'x'),
        marked("aim-motion-plus-bias-y"@, 22, 'a', 'y'),
        marked("aim-motion-plus-bias-z"@, 22, 'a', 'z'),
        marked("ir-screen-left"@, 14, 'i', 't'),
        marked("ir-screen-right"@, 15, 'i', 't'),
        marked("ir-screen-top"@, 13, 'i', 'p'),
        marked("ir-screen-bottom"@, 16, 'i', 'm'),
        marked("rule-syspath"@, 12, 'r', 'h'),
        marked("rule-devtype"@, 12, 'r', 'e'),
{
    lemma_number_keys();
    lemma_choice_keys();
    lemma_binding_keys();
    lemma_part_keys();
    lemma_rule_keys();
}

proof fn lemma_plain_is_trimmed(s: Seq<char>)
    requires
        is_plain(s),
    ensures
        text::trimmed(s) == s,
{
}

proof fn lemma_first_equals(s: Seq<char>, at: nat, from: nat)
    requires
        from <= at < s.len(),
        s[at as int] == '=',
        forall|i: int| from <= i < at ==> #[trigger] s[i] != '=',
    ensures
        config_text::first_equals(s, from) == Some(at),
    decreases at - from,
{
    if from < at {
        lemma_first_equals(s, at, from + 1);
    }
}

pub(crate) proof fn lemma_line(draft: DraftView, key: Seq<char>, value: Seq<char>)
    requires
        is_key(key),
        is_plain(value),
    ensures
        config_text::after_line(draft, key + "="@ + value) == (match config_text::assignment(
            draft,
            key,
            value,
        ) {
            Assignment::Accepted(next) => Some(next),
            _ => None,
        }),
{
    reveal_strlit("=");
    let line = key + "="@ + value;
    let n = key.len();
    assert(line[n as int] == '=');
    assert forall|i: int| 0 <= i < n implies #[trigger] line[i] != '=' by {
        assert(line[i] == key[i]);
    }
    assert(line[0] == key[0]);
    assert(line[line.len() - 1] == value[value.len() - 1]);
    assert(text::trimmed(line) == line);
    lemma_first_equals(line, n, 0);
    assert(line.subrange(0, n as int) =~= key);
    assert(line.subrange(n as int + 1, line.len() as int) =~= value);
    lemma_plain_is_trimmed(key);
    lemma_plain_is_trimmed(value);
}

proof fn lemma_open_line(s: Seq<char>, line: Seq<char>)
    requires
        config_text::lines(s).len() > 0,
        config_text::lines(s).last() == Seq::<char>::empty(),
        forall|i: int| 0 <= i < line.len() ==> #[trigger] line[i] != '\n',
    ensures
        config_text::lines(s + line) == config_text::lines(s).drop_last().push(line),
    decreases line.len(),
{
    let before = config_text::lines(s);
    if line.len() == 0 {
        assert(s + line =~= s);
        assert(line =~= Seq::<char>::empty());
        assert(before.drop_last().push(line) =~= before);
    } else {
        let shorter = line.drop_last();
        lemma_open_line(s, shorter);
        assert((s + line).drop_last() =~= s + shorter);
        assert((s + line).last() == line.last());
        assert(line.last() == line[line.len() - 1]);
        let partial = config_text::lines(s + shorter);
        assert(partial.last() == shorter);
        assert(shorter.push(line.last()) =~= line);
        assert(partial.update(partial.len() - 1, line) =~= before.drop_last().push(line));
    }
}

proof fn lemma_closed_line(s: Seq<char>, line: Seq<char>)
    requires
        config_text::lines(s).len() > 0,
        config_text::lines(s).last() == Seq::<char>::empty(),
        forall|i: int| 0 <= i < line.len() ==> #[trigger] line[i] != '\n',
    ensures
        config_text::lines(s + line + "\n"@) == config_text::lines(s).drop_last().push(line).push(
            Seq::empty(),
        ),
{
    reveal_strlit("\n");
    lemma_open_line(s, line);
    assert((s + line + "\n"@).drop_last() =~= s + line);
    assert((s + line + "\n"@).last() == '\n');
}

proof fn lemma_same_beginning(draft: DraftView, a: Seq<Seq<char>>, b: Seq<Seq<char>>, n: nat)
    requires
        n <= a.len(),
        n <= b.len(),
        forall|i: int| 0 <= i < n ==> a[i] == b[i],
    ensures
        config_text::after_lines(draft, a, n) == config_text::after_lines(draft, b, n),
    decreases n,
{
    if n > 0 {
        lemma_same_beginning(draft, a, b, (n - 1) as nat);
    }
}

/// Whether a text that ends with a whole line reads as a draft.
#[verifier::opaque]
spec fn reads(s: Seq<char>, draft: DraftView) -> bool {
    &&& config_text::lines(s).len() > 0
    &&& config_text::lines(s).last() == Seq::<char>::empty()
    &&& config_text::after_lines(
        config_text::fresh(config::default_config()),
        config_text::lines(s),
        config_text::lines(s).len(),
    ) == Ok::<DraftView, usize>(draft)
}

proof fn lemma_blank_line(draft: DraftView)
    ensures
        config_text::after_line(draft, Seq::empty()) == Some(draft),
{
    assert(text::trimmed(Seq::<char>::empty()) =~= Seq::empty());
}

proof fn lemma_step(
    s: Seq<char>,
    draft: DraftView,
    key: Seq<char>,
    value: Seq<char>,
    next: DraftView,
)
    requires
        reads(s, draft),
        is_key(key),
        is_plain(value),
        config_text::assignment(draft, key, value) == Assignment::Accepted(next),
    ensures
        reads(s + config_text::line_text(key, value), next),
{
    reveal(reads);
    reveal_strlit("=");
    let start = config_text::fresh(config::default_config());
    let line = key + "="@ + value;
    assert forall|i: int| 0 <= i < line.len() implies #[trigger] line[i] != '\n' by {
        if i < key.len() {
            assert(line[i] == key[i]);
        } else if i > key.len() {
            assert(line[i] == value[i - key.len() - 1]);
        }
    }
    let before = config_text::lines(s);
    let whole = s + config_text::line_text(key, value);
    assert(whole =~= s + line + "\n"@);
    lemma_closed_line(s, line);
    let after = config_text::lines(whole);
    let n = before.len();
    assert(after.len() == n + 1);
    assert forall|i: int| 0 <= i < n - 1 implies before[i] == after[i] by {
        assert(before.drop_last()[i] == before[i]);
    }
    lemma_blank_line(draft);
    lemma_blank_line(next);
    lemma_line(draft, key, value);
    lemma_same_beginning(start, before, after, (n - 1) as nat);
    assert(before[n - 1] == Seq::<char>::empty());
    assert(config_text::after_lines(start, before, (n - 1) as nat) == Ok::<DraftView, usize>(
        draft,
    )) by {
        match config_text::after_lines(start, before, (n - 1) as nat) {
            Ok(d) => {
                lemma_blank_line(d);
            },
            Err(_) => {},
        }
    }
    assert(after[n - 1] == line);
    assert(config_text::after_lines(start, after, n) == Ok::<DraftView, usize>(next));
    assert(after[n as int] == Seq::<char>::empty());
    assert(config_text::after_lines(start, after, n + 1) == Ok::<DraftView, usize>(next));
}

pub(crate) proof fn lemma_digits(n: nat)
    ensures
        text::decimal(n).len() > 0,
        text::all_digits(text::decimal(n)),
        text::numeral(text::decimal(n)) == n,
    decreases n,
{
    reveal_with_fuel(text::numeral, 2);
    if n < 10 {
        assert(seq![text::digit_char(n)].drop_last() =~= Seq::<char>::empty());
    } else {
        lemma_digits(n / 10);
        let front = text::decimal(n / 10);
        let s = text::decimal(n);
        assert(s.drop_last() =~= front);
        assert(s.last() == text::digit_char(n % 10));
    }
}

pub(crate) proof fn lemma_number_value(n: i32)
    ensures
        is_plain(text::signed_decimal(n as int)),
        config_text::integer(text::signed_decimal(n as int)) == Some(n),
{
    let s = text::signed_decimal(n as int);
    if n < 0 {
        lemma_digits((-n) as nat);
        let digits = text::decimal((-n) as nat);
        assert(s.subrange(1, s.len() as int) =~= digits);
        assert forall|i: int| 0 <= i < s.len() implies #[trigger] s[i] != '\n' by {
            if i > 0 {
                assert(s[i] == digits[i - 1]);
            }
        }
        assert(s[s.len() - 1] == digits[digits.len() - 1]);
    } else {
        lemma_digits(n as nat);
    }
}

pub(crate) proof fn lemma_profile_value(value: Profile)
    ensures
        is_plain(config_text::profile_text(value)),
        config_text::profile_named(config_text::profile_text(value)) == Some(value),
{
    reveal_strlit("gamepad");
    reveal_strlit("desktop");
    reveal_strlit("both");
    assert(marked("gamepad"@, 7, 'g', 'd'));
    assert(marked("desktop"@, 7, 'd', 'p'));
    assert(marked("both"@, 4, 'b', 'h'));
}

pub(crate) proof fn lemma_ir_tracking_value(value: IrTracking)
    ensures
        is_plain(config_text::ir_tracking_text(value)),
        config_text::ir_tracking_named(config_text::ir_tracking_text(value)) == Some(value),
{
    reveal_strlit("dual");
    reveal_strlit("centroid");
    reveal_strlit("first");
    assert(marked("dual"@, 4, 'd', 'l'));
    assert(marked("centroid"@, 8, 'c', 'd'));
    assert(marked("first"@, 5, 'f', 't'));
}

pub(crate) proof fn lemma_ir_mapping_value(value: IrAimMapping)
    ensures
        is_plain(config_text::ir_mapping_text(value)),
        config_text::ir_mapping_named(config_text::ir_mapping_text(value)) == Some(value),
{
    reveal_strlit("relative");
    reveal_strlit("absolute");
    assert(marked("relative"@, 8, 'r', 'e'));
    assert(marked("absolute"@, 8, 'a', 'e'));
}

pub(crate) proof fn lemma_aim_mode_value(value: AimMode)
    ensures
        is_plain(config_text::aim_mode_text(value)),
        config_text::aim_mode_named(config_text::aim_mode_text(value)) == Some(value),
{
    reveal_strlit("off");
    reveal_strlit("right-stick");
    reveal_strlit("mouse");
    assert(marked("off"@, 3, 'o', 'f'));
    assert(marked("right-stick"@, 11, 'r', 'k'));
    assert(marked("mouse"@, 5, 'm', 'e'));
}

pub(crate) proof fn lemma_aim_source_value(value: AimSource)
    ensures
        is_plain(config_text::aim_source_text(value)),
        config_text::aim_source_named(config_text::aim_source_text(value)) == Some(value),
{
    reveal_strlit("auto");
    reveal_strlit("ir");
    reveal_strlit("motion-plus");
    reveal_strlit("accelerometer");
    assert(marked("auto"@, 4, 'a', 'o'));
    assert(marked("ir"@, 2, 'i', 'r'));
    assert(marked("motion-plus"@, 11, 'm', 's'));
    assert(marked("accelerometer"@, 13, 'a', 'r'));
}

pub(crate) proof fn lemma_aim_activation_value(value: AimActivation)
    ensures
        is_plain(config_text::aim_activation_text(value)),
        config_text::aim_activation_named(config_text::aim_activation_text(value)) == Some(value),
{
    reveal_strlit("b");
    reveal_strlit("always");
    reveal_strlit("z");
    reveal_strlit("c");
    assert(marked("b"@, 1, 'b', 'b'));
    assert(marked("always"@, 6, 'a', 's'));
    assert(marked("z"@, 1, 'z', 'z'));
    assert(marked("c"@, 1, 'c', 'c'));
}

pub(crate) proof fn lemma_action_value(value: DesktopAction)
    ensures
        is_plain(config_text::action_text(value)),
        config_text::action_named(config_text::action_text(value)) == Some(value),
{
    reveal_strlit("left-click");
    reveal_strlit("right-click");
    reveal_strlit("enter");
    reveal_strlit("escape");
    reveal_strlit("overview");
    reveal_strlit("page-up");
    reveal_strlit("page-down");
    reveal_strlit("disabled");
    assert(marked("left-click"@, 10, 'l', 'k'));
    assert(marked("right-click"@, 11, 'r', 'k'));
    assert(marked("enter"@, 5, 'e', 'r'));
    assert(marked("escape"@, 6, 'e', 'e'));
    assert(marked("overview"@, 8, 'o', 'w'));
    assert(marked("page-up"@, 7, 'p', 'p'));
    assert(marked("page-down"@, 9, 'p', 'n'));
    assert(marked("disabled"@, 8, 'd', 'd'));
}

pub(crate) proof fn lemma_switch_value(value: bool)
    ensures
        is_plain(config_text::switch_text(value)),
        config_text::switch_named(config_text::switch_text(value)) == Some(value),
{
    reveal_strlit("true");
    reveal_strlit("false");
    assert(marked("true"@, 4, 't', 'e'));
    assert(marked("false"@, 5, 'f', 'e'));
}

proof fn lemma_regroup(a: Seq<char>, b: Seq<char>, c: Seq<char>)
    ensures
        a + b + c == a + (b + c),
{
    assert(a + b + c =~= a + (b + c));
}

/// One more line after a beginning and the lines that were read since.
proof fn lemma_next(
    s: Seq<char>,
    t: Seq<char>,
    draft: DraftView,
    key: Seq<char>,
    value: Seq<char>,
    next: DraftView,
)
    requires
        reads(s + t, draft),
        is_key(key),
        is_plain(value),
        config_text::assignment(draft, key, value) == Assignment::Accepted(next),
    ensures
        reads(s + (t + config_text::line_text(key, value)), next),
{
    lemma_step(s + t, draft, key, value, next);
    lemma_regroup(s, t, config_text::line_text(key, value));
}

spec fn pointer_read(d: DraftView, c: ConfigView) -> DraftView {
    DraftView {
        config: ConfigView {
            profile: c.profile,
            pointer_speed: c.pointer_speed,
            ir_speed: c.ir_speed,
            ir_deadzone: c.ir_deadzone,
            ir_smoothing: c.ir_smoothing,
            ir_tracking: c.ir_tracking,
            ir_aim_mapping: c.ir_aim_mapping,
            ..d.config
        },
        ..d
    }
}

#[verifier::spinoff_prover]
proof fn lemma_pointer(s: Seq<char>, d: DraftView, c: ConfigView)
    requires
        reads(s, d),
    ensures
        reads(s + config_text::pointer_text(c), pointer_read(d, c)),
{
    lemma_number_keys();
    lemma_choice_keys();
    let d1 = DraftView { config: ConfigView { profile: c.profile, ..d.config }, ..d };
    let t1 = config_text::line_text("profile"@, config_text::profile_text(c.profile));
    lemma_profile_value(c.profile);
    assert(
        config_text::assignment(d, "profile"@, config_text::profile_text(c.profile))
            == Assignment::Accepted(d1)
    ) by {
        lemma_keys();
    }
    lemma_step(s, d, "profile"@, config_text::profile_text(c.profile), d1);
    let d2 = DraftView { config: ConfigView { pointer_speed: c.pointer_speed, ..d1.config }, ..d1 };
    let t2 = t1
        + config_text::line_text(
            "pointer-speed"@,
            text::signed_decimal(c.pointer_speed as int),
        );
    lemma_number_value(c.pointer_speed);
    assert(
        config_text::assignment(d1, "pointer-speed"@, text::signed_decimal(c.pointer_speed as int))
            == Assignment::Accepted(d2)
    ) by {
        lemma_keys();
    }
    lemma_next(s, t1, d1, "pointer-speed"@, text::signed_decimal(c.pointer_speed as int), d2);
    let d3 = DraftView { config: ConfigView { ir_speed: c.ir_speed, ..d2.config }, ..d2 };
    let t3 = t2 + config_text::line_text("ir-speed"@, text::signed_decimal(c.ir_speed as int));
    lemma_number_value(c.ir_speed);
    assert(
        config_text::assignment(d2, "ir-speed"@, text::signed_decimal(c.ir_speed as int))
            == Assignment::Accepted(d3)
    ) by {
        lemma_keys();
    }
    lemma_next(s, t2, d2, "ir-speed"@, text::signed_decimal(c.ir_speed as int), d3);
    let d4 = DraftView { config: ConfigView { ir_deadzone: c.ir_deadzone, ..d3.config }, ..d3 };
    let t4 = t3
        + config_text::line_text(
            "ir-deadzone"@,
            text::signed_decimal(c.ir_deadzone as int),
        );
    lemma_number_value(c.ir_deadzone);
    assert(
        config_text::assignment(d3, "ir-deadzone"@, text::signed_decimal(c.ir_deadzone as int))
            == Assignment::Accepted(d4)
    ) by {
        lemma_keys();
    }
    lemma_next(s, t3, d3, "ir-deadzone"@, text::signed_decimal(c.ir_deadzone as int), d4);
    let d5 = DraftView { config: ConfigView { ir_smoothing: c.ir_smoothing, ..d4.config }, ..d4 };
    let t5 = t4
        + config_text::line_text(
            "ir-smoothing"@,
            text::signed_decimal(c.ir_smoothing as int),
        );
    lemma_number_value(c.ir_smoothing);
    assert(
        config_text::assignment(d4, "ir-smoothing"@, text::signed_decimal(c.ir_smoothing as int))
            == Assignment::Accepted(d5)
    ) by {
        lemma_keys();
    }
    lemma_next(s, t4, d4, "ir-smoothing"@, text::signed_decimal(c.ir_smoothing as int), d5);
    let d6 = DraftView { config: ConfigView { ir_tracking: c.ir_tracking, ..d5.config }, ..d5 };
    let t6 = t5
        + config_text::line_text(
            "ir-tracking"@,
            config_text::ir_tracking_text(c.ir_tracking),
        );
    lemma_ir_tracking_value(c.ir_tracking);
    assert(
        config_text::assignment(d5, "ir-tracking"@, config_text::ir_tracking_text(c.ir_tracking))
            == Assignment::Accepted(d6)
    ) by {
        lemma_keys();
    }
    lemma_next(s, t5, d5, "ir-tracking"@, config_text::ir_tracking_text(c.ir_tracking), d6);
    let d7 = DraftView {
        config: ConfigView { ir_aim_mapping: c.ir_aim_mapping, ..d6.config },
        ..d6
    };
    lemma_ir_mapping_value(c.ir_aim_mapping);
    assert(
        config_text::assignment(
            d6,
            "ir-aim-mapping"@,
            config_text::ir_mapping_text(c.ir_aim_mapping),
        )
            == Assignment::Accepted(d7)
    ) by {
        lemma_keys();
    }
    lemma_next(s, t6, d6, "ir-aim-mapping"@, config_text::ir_mapping_text(c.ir_aim_mapping), d7);
}

spec fn aim_read(d: DraftView, c: ConfigView) -> DraftView {
    DraftView {
        config: ConfigView {
            aim_mode: c.aim_mode,
            aim_source: c.aim_source,
            aim_activation: c.aim_activation,
            aim_sensitivity: c.aim_sensitivity,
            aim_deadzone: c.aim_deadzone,
            aim_smoothing: c.aim_smoothing,
            aim_invert_x: c.aim_invert_x,
            aim_invert_y: c.aim_invert_y,
            aim_calibration_duration: c.aim_calibration_duration,
            ..d.config
        },
        ..d
    }
}

#[verifier::spinoff_prover]
proof fn lemma_aim(s: Seq<char>, d: DraftView, c: ConfigView)
    requires
        reads(s, d),
    ensures
        reads(s + config_text::aim_text(c), aim_read(d, c)),
{
    lemma_number_keys();
    lemma_choice_keys();
    let d1 = DraftView { config: ConfigView { aim_mode: c.aim_mode, ..d.config }, ..d };
    let t1 = config_text::line_text("aim-mode"@, config_text::aim_mode_text(c.aim_mode));
    lemma_aim_mode_value(c.aim_mode);
    assert(
        config_text::assignment(d, "aim-mode"@, config_text::aim_mode_text(c.aim_mode))
            == Assignment::Accepted(d1)
    ) by {
        lemma_keys();
    }
    lemma_step(s, d, "aim-mode"@, config_text::aim_mode_text(c.aim_mode), d1);
    let d2 = DraftView { config: ConfigView { aim_source: c.aim_source, ..d1.config }, ..d1 };
    let t2 = t1 + config_text::line_text("aim-source"@, config_text::aim_source_text(c.aim_source));
    lemma_aim_source_value(c.aim_source);
    assert(
        config_text::assignment(d1, "aim-source"@, config_text::aim_source_text(c.aim_source))
            == Assignment::Accepted(d2)
    ) by {
        lemma_keys();
    }
    lemma_next(s, t1, d1, "aim-source"@, config_text::aim_source_text(c.aim_source), d2);
    let d3 = DraftView {
        config: ConfigView { aim_activation: c.aim_activation, ..d2.config },
        ..d2
    };
    let t3 = t2
        + config_text::line_text(
            "aim-activation"@,
            config_text::aim_activation_text(c.aim_activation),
        );
    lemma_aim_activation_value(c.aim_activation);
    assert(
        config_text::assignment(
            d2,
            "aim-activation"@,
            config_text::aim_activation_text(c.aim_activation),
        )
            == Assignment::Accepted(d3)
    ) by {
        lemma_keys();
    }
    lemma_next(s, t2, d2, "aim-activation"@, config_text::aim_activation_text(c.aim_activation), d3);
    let d4 = DraftView {
        config: ConfigView { aim_sensitivity: c.aim_sensitivity, ..d3.config },
        ..d3
    };
    let t4 = t3
        + config_text::line_text(
            "aim-sensitivity"@,
            text::signed_decimal(c.aim_sensitivity as int),
        );
    lemma_number_value(c.aim_sensitivity);
    assert(
        config_text::assignment(
            d3,
            "aim-sensitivity"@,
            text::signed_decimal(c.aim_sensitivity as int),
        )
            == Assignment::Accepted(d4)
    ) by {
        lemma_keys();
    }
    lemma_next(s, t3, d3, "aim-sensitivity"@, text::signed_decimal(c.aim_sensitivity as int), d4);
    let d5 = DraftView { config: ConfigView { aim_deadzone: c.aim_deadzone, ..d4.config }, ..d4 };
    let t5 = t4
        + config_text::line_text(
            "aim-deadzone"@,
            text::signed_decimal(c.aim_deadzone as int),
        );
    lemma_number_value(c.aim_deadzone);
    assert(
        config_text::assignment(d4, "aim-deadzone"@, text::signed_decimal(c.aim_deadzone as int))
            == Assignment::Accepted(d5)
    ) by {
        lemma_keys();
    }
    lemma_next(s, t4, d4, "aim-deadzone"@, text::signed_decimal(c.aim_deadzone as int), d5);
    let d6 = DraftView { config: ConfigView { aim_smoothing: c.aim_smoothing, ..d5.config }, ..d5 };
    let t6 = t5
        + config_text::line_text(
            "aim-smoothing"@,
            text::signed_decimal(c.aim_smoothing as int),
        );
    lemma_number_value(c.aim_smoothing);
    assert(
        config_text::assignment(d5, "aim-smoothing"@, text::signed_decimal(c.aim_smoothing as int))
            == Assignment::Accepted(d6)
    ) by {
        lemma_keys();
    }
    lemma_next(s, t5, d5, "aim-smoothing"@, text::signed_decimal(c.aim_smoothing as int), d6);
    let d7 = DraftView { config: ConfigView { aim_invert_x: c.aim_invert_x, ..d6.config }, ..d6 };
    let t7 = t6 + config_text::line_text("aim-invert-x"@, config_text::switch_text(c.aim_invert_x));
    lemma_switch_value(c.aim_invert_x);
    assert(
        config_text::assignment(d6, "aim-invert-x"@, config_text::switch_text(c.aim_invert_x))
            == Assignment::Accepted(d7)
    ) by {
        lemma_keys();
    }
    lemma_next(s, t6, d6, "aim-invert-x"@, config_text::switch_text(c.aim_invert_x), d7);
    let d8 = DraftView { config: ConfigView { aim_invert_y: c.aim_invert_y, ..d7.config }, ..d7 };
    let t8 = t7 + config_text::line_text("aim-invert-y"@, config_text::switch_text(c.aim_invert_y));
    lemma_switch_value(c.aim_invert_y);
    assert(
        config_text::assignment(d7, "aim-invert-y"@, config_text::switch_text(c.aim_invert_y))
            == Assignment::Accepted(d8)
    ) by {
        lemma_keys();
    }
    lemma_next(s, t7, d7, "aim-invert-y"@, config_text::switch_text(c.aim_invert_y), d8);
    let d9 = DraftView {
        config: ConfigView { aim_calibration_duration: c.aim_calibration_duration, ..d8.config },
        ..d8
    };
    lemma_number_value(c.aim_calibration_duration);
    assert(
        config_text::assignment(
            d8,
            "aim-calibration-duration"@,
            text::signed_decimal(c.aim_calibration_duration as int),
        )
            == Assignment::Accepted(d9)
    ) by {
        lemma_keys();
    }
    lemma_next(
        s,
        t8,
        d8,
        "aim-calibration-duration"@,
        text::signed_decimal(c.aim_calibration_duration as int),
        d9,
    );
}

spec fn left_bindings_read(d: DraftView, b: DesktopBindings) -> DraftView {
    DraftView {
        config: ConfigView {
            desktop_bindings: DesktopBindings {
                a: b.a,
                b: b.b,
                plus: b.plus,
                minus: b.minus,
                ..d.config.desktop_bindings
            },
            ..d.config
        },
        ..d
    }
}

spec fn right_bindings_read(d: DraftView, b: DesktopBindings) -> DraftView {
    DraftView {
        config: ConfigView {
            desktop_bindings: DesktopBindings {
                home: b.home,
                one: b.one,
                two: b.two,
                ..d.config.desktop_bindings
            },
            ..d.config
        },
        ..d
    }
}

spec fn bindings_read(d: DraftView, c: ConfigView) -> DraftView {
    DraftView {
        config: ConfigView { desktop_bindings: c.desktop_bindings, ..d.config },
        ..d
    }
}

spec fn left_bindings_text(b: DesktopBindings) -> Seq<char> {
    config_text::line_text("bind-a"@, config_text::action_text(b.a)) + config_text::line_text(
        "bind-b"@,
        config_text::action_text(b.b),
    ) + config_text::line_text("bind-plus"@, config_text::action_text(b.plus))
        + config_text::line_text("bind-minus"@, config_text::action_text(b.minus))
}

spec fn right_bindings_text(b: DesktopBindings) -> Seq<char> {
    config_text::line_text("bind-home"@, config_text::action_text(b.home)) + config_text::line_text(
        "bind-one"@,
        config_text::action_text(b.one),
    ) + config_text::line_text("bind-two"@, config_text::action_text(b.two))
}

#[verifier::spinoff_prover]
proof fn lemma_left_bindings(s: Seq<char>, d: DraftView, b: DesktopBindings)
    requires
        reads(s, d),
    ensures
        reads(s + left_bindings_text(b), left_bindings_read(d, b)),
{
    lemma_binding_keys();
    let d1 = DraftView {
        config: ConfigView {
            desktop_bindings: DesktopBindings { a: b.a, ..d.config.desktop_bindings },
            ..d.config
        },
        ..d
    };
    let t1 = config_text::line_text("bind-a"@, config_text::action_text(b.a));
    lemma_action_value(b.a);
    assert(
        config_text::assignment(d, "bind-a"@, config_text::action_text(b.a))
            == Assignment::Accepted(d1)
    ) by {
        lemma_keys();
    }
    lemma_step(s, d, "bind-a"@, config_text::action_text(b.a), d1);
    let d2 = DraftView {
        config: ConfigView {
            desktop_bindings: DesktopBindings { b: b.b, ..d1.config.desktop_bindings },
            ..d1.config
        },
        ..d1
    };
    let t2 = t1 + config_text::line_text("bind-b"@, config_text::action_text(b.b));
    lemma_action_value(b.b);
    assert(
        config_text::assignment(d1, "bind-b"@, config_text::action_text(b.b))
            == Assignment::Accepted(d2)
    ) by {
        lemma_keys();
    }
    lemma_next(s, t1, d1, "bind-b"@, config_text::action_text(b.b), d2);
    let d3 = DraftView {
        config: ConfigView {
            desktop_bindings: DesktopBindings { plus: b.plus, ..d2.config.desktop_bindings },
            ..d2.config
        },
        ..d2
    };
    let t3 = t2 + config_text::line_text("bind-plus"@, config_text::action_text(b.plus));
    lemma_action_value(b.plus);
    assert(
        config_text::assignment(d2, "bind-plus"@, config_text::action_text(b.plus))
            == Assignment::Accepted(d3)
    ) by {
        lemma_keys();
    }
    lemma_next(s, t2, d2, "bind-plus"@, config_text::action_text(b.plus), d3);
    let d4 = DraftView {
        config: ConfigView {
            desktop_bindings: DesktopBindings { minus: b.minus, ..d3.config.desktop_bindings },
            ..d3.config
        },
        ..d3
    };
    lemma_action_value(b.minus);
    assert(
        config_text::assignment(d3, "bind-minus"@, config_text::action_text(b.minus))
            == Assignment::Accepted(d4)
    ) by {
        lemma_keys();
    }
    lemma_next(s, t3, d3, "bind-minus"@, config_text::action_text(b.minus), d4);
}

#[verifier::spinoff_prover]
proof fn lemma_right_bindings(s: Seq<char>, d: DraftView, b: DesktopBindings)
    requires
        reads(s, d),
    ensures
        reads(s + right_bindings_text(b), right_bindings_read(d, b)),
{
    lemma_binding_keys();
    let d1 = DraftView {
        config: ConfigView {
            desktop_bindings: DesktopBindings { home: b.home, ..d.config.desktop_bindings },
            ..d.config
        },
        ..d
    };
    let t1 = config_text::line_text("bind-home"@, config_text::action_text(b.home));
    lemma_action_value(b.home);
    assert(
        config_text::assignment(d, "bind-home"@, config_text::action_text(b.home))
            == Assignment::Accepted(d1)
    ) by {
        lemma_keys();
    }
    lemma_step(s, d, "bind-home"@, config_text::action_text(b.home), d1);
    let d2 = DraftView {
        config: ConfigView {
            desktop_bindings: DesktopBindings { one: b.one, ..d1.config.desktop_bindings },
            ..d1.config
        },
        ..d1
    };
    let t2 = t1 + config_text::line_text("bind-one"@, config_text::action_text(b.one));
    lemma_action_value(b.one);
    assert(
        config_text::assignment(d1, "bind-one"@, config_text::action_text(b.one))
            == Assignment::Accepted(d2)
    ) by {
        lemma_keys();
    }
    lemma_next(s, t1, d1, "bind-one"@, config_text::action_text(b.one), d2);
    let d3 = DraftView {
        config: ConfigView {
            desktop_bindings: DesktopBindings { two: b.two, ..d2.config.desktop_bindings },
            ..d2.config
        },
        ..d2
    };
    lemma_action_value(b.two);
    assert(
        config_text::assignment(d2, "bind-two"@, config_text::action_text(b.two))
            == Assignment::Accepted(d3)
    ) by {
        lemma_keys();
    }
    lemma_next(s, t2, d2, "bind-two"@, config_text::action_text(b.two), d3);
}

proof fn lemma_bindings(s: Seq<char>, d: DraftView, c: ConfigView)
    requires
        reads(s, d),
    ensures
        reads(s + config_text::bindings_text(c), bindings_read(d, c)),
{
    let b = c.desktop_bindings;
    lemma_left_bindings(s, d, b);
    lemma_right_bindings(s + left_bindings_text(b), left_bindings_read(d, b), b);
    assert(s + left_bindings_text(b) + right_bindings_text(b) =~= s + config_text::bindings_text(c));
    assert(right_bindings_read(left_bindings_read(d, b), b) == bindings_read(d, c));
}

spec fn screen_read(d: DraftView, screen: IrScreen) -> DraftView {
    DraftView {
        screen: PartialScreen {
            left: Some(screen.left),
            right: Some(screen.right),
            top: Some(screen.top),
            bottom: Some(screen.bottom),
        },
        ..d
    }
}

#[verifier::spinoff_prover]
proof fn lemma_screen(s: Seq<char>, d: DraftView, screen: IrScreen)
    requires
        reads(s, d),
    ensures
        reads(s + config_text::screen_text(Some(screen)), screen_read(d, screen)),
{
    lemma_part_keys();
    let d1 = DraftView { screen: PartialScreen { left: Some(screen.left), ..d.screen }, ..d };
    let t1 = config_text::line_text("ir-screen-left"@, text::signed_decimal(screen.left as int));
    lemma_number_value(screen.left);
    assert(
        config_text::assignment(d, "ir-screen-left"@, text::signed_decimal(screen.left as int))
            == Assignment::Accepted(d1)
    ) by {
        lemma_keys();
    }
    lemma_step(s, d, "ir-screen-left"@, text::signed_decimal(screen.left as int), d1);
    let d2 = DraftView { screen: PartialScreen { right: Some(screen.right), ..d1.screen }, ..d1 };
    let t2 = t1
        + config_text::line_text(
            "ir-screen-right"@,
            text::signed_decimal(screen.right as int),
        );
    lemma_number_value(screen.right);
    assert(
        config_text::assignment(d1, "ir-screen-right"@, text::signed_decimal(screen.right as int))
            == Assignment::Accepted(d2)
    ) by {
        lemma_keys();
    }
    lemma_next(s, t1, d1, "ir-screen-right"@, text::signed_decimal(screen.right as int), d2);
    let d3 = DraftView { screen: PartialScreen { top: Some(screen.top), ..d2.screen }, ..d2 };
    let t3 = t2 + config_text::line_text("ir-screen-top"@, text::signed_decimal(screen.top as int));
    lemma_number_value(screen.top);
    assert(
        config_text::assignment(d2, "ir-screen-top"@, text::signed_decimal(screen.top as int))
            == Assignment::Accepted(d3)
    ) by {
        lemma_keys();
    }
    lemma_next(s, t2, d2, "ir-screen-top"@, text::signed_decimal(screen.top as int), d3);
    let d4 = DraftView { screen: PartialScreen { bottom: Some(screen.bottom), ..d3.screen }, ..d3 };
    lemma_number_value(screen.bottom);
    assert(
        config_text::assignment(d3, "ir-screen-bottom"@, text::signed_decimal(screen.bottom as int))
            == Assignment::Accepted(d4)
    ) by {
        lemma_keys();
    }
    lemma_next(s, t3, d3, "ir-screen-bottom"@, text::signed_decimal(screen.bottom as int), d4);
}

spec fn accel_read(d: DraftView, calibration: SensorCalibration) -> DraftView {
    DraftView {
        accel: PartialTriple {
            x: Some(calibration.x),
            y: Some(calibration.y),
            z: Some(calibration.z),
        },
        ..d
    }
}

#[verifier::spinoff_prover]
proof fn lemma_accel(s: Seq<char>, d: DraftView, calibration: SensorCalibration)
    requires
        reads(s, d),
    ensures
        reads(s + config_text::accel_text(Some(calibration)), accel_read(d, calibration)),
{
    lemma_part_keys();
    let d1 = DraftView { accel: PartialTriple { x: Some(calibration.x), ..d.accel }, ..d };
    let t1 = config_text::line_text(
        "aim-accel-zero-x"@,
        text::signed_decimal(calibration.x as int),
    );
    lemma_number_value(calibration.x);
    assert(
        config_text::assignment(d, "aim-accel-zero-x"@, text::signed_decimal(calibration.x as int))
            == Assignment::Accepted(d1)
    ) by {
        lemma_keys();
    }
    lemma_step(s, d, "aim-accel-zero-x"@, text::signed_decimal(calibration.x as int), d1);
    let d2 = DraftView { accel: PartialTriple { y: Some(calibration.y), ..d1.accel }, ..d1 };
    let t2 = t1
        + config_text::line_text(
            "aim-accel-zero-y"@,
            text::signed_decimal(calibration.y as int),
        );
    lemma_number_value(calibration.y);
    assert(
        config_text::assignment(d1, "aim-accel-zero-y"@, text::signed_decimal(calibration.y as int))
            == Assignment::Accepted(d2)
    ) by {
        lemma_keys();
    }
    lemma_next(s, t1, d1, "aim-accel-zero-y"@, text::signed_decimal(calibration.y as int), d2);
    let d3 = DraftView { accel: PartialTriple { z: Some(calibration.z), ..d2.accel }, ..d2 };
    lemma_number_value(calibration.z);
    assert(
        config_text::assignment(d2, "aim-accel-zero-z"@, text::signed_decimal(calibration.z as int))
            == Assignment::Accepted(d3)
    ) by {
        lemma_keys();
    }
    lemma_next(s, t2, d2, "aim-accel-zero-z"@, text::signed_decimal(calibration.z as int), d3);
}

spec fn motion_read(d: DraftView, calibration: SensorCalibration) -> DraftView {
    DraftView {
        motion: PartialTriple {
            x: Some(calibration.x),
            y: Some(calibration.y),
            z: Some(calibration.z),
        },
        ..d
    }
}

#[verifier::spinoff_prover]
proof fn lemma_motion(s: Seq<char>, d: DraftView, calibration: SensorCalibration)
    requires
        reads(s, d),
    ensures
        reads(s + config_text::motion_text(Some(calibration)), motion_read(d, calibration)),
{
    lemma_part_keys();
    let d1 = DraftView { motion: PartialTriple { x: Some(calibration.x), ..d.motion }, ..d };
    let t1 = config_text::line_text(
        "aim-motion-plus-bias-x"@,
        text::signed_decimal(calibration.x as int),
    );
    lemma_number_value(calibration.x);
    assert(
        config_text::assignment(
            d,
            "aim-motion-plus-bias-x"@,
            text::signed_decimal(calibration.x as int),
        )
            == Assignment::Accepted(d1)
    ) by {
        lemma_keys();
    }
    lemma_step(s, d, "aim-motion-plus-bias-x"@, text::signed_decimal(calibration.x as int), d1);
    let d2 = DraftView { motion: PartialTriple { y: Some(calibration.y), ..d1.motion }, ..d1 };
    let t2 = t1
        + config_text::line_text(
            "aim-motion-plus-bias-y"@,
            text::signed_decimal(calibration.y as int),
        );
    lemma_number_value(calibration.y);
    assert(
        config_text::assignment(
            d1,
            "aim-motion-plus-bias-y"@,
            text::signed_decimal(calibration.y as int),
        )
            == Assignment::Accepted(d2)
    ) by {
        lemma_keys();
    }
    lemma_next(s, t1, d1, "aim-motion-plus-bias-y"@, text::signed_decimal(calibration.y as int), d2);
    let d3 = DraftView { motion: PartialTriple { z: Some(calibration.z), ..d2.motion }, ..d2 };
    lemma_number_value(calibration.z);
    assert(
        config_text::assignment(
            d2,
            "aim-motion-plus-bias-z"@,
            text::signed_decimal(calibration.z as int),
        )
            == Assignment::Accepted(d3)
    ) by {
        lemma_keys();
    }
    lemma_next(s, t2, d2, "aim-motion-plus-bias-z"@, text::signed_decimal(calibration.z as int), d3);
}

proof fn lemma_first_space(s: Seq<char>, at: nat, from: nat)
    requires
        from <= at < s.len(),
        text::is_space(s[at as int]),
        forall|i: int| from <= i < at ==> !text::is_space(#[trigger] s[i]),
    ensures
        config_text::first_space(s, from) == Some(at),
    decreases at - from,
{
    if from < at {
        lemma_first_space(s, at, from + 1);
    }
}

proof fn lemma_profile_has_no_space(profile: Profile)
    ensures
        forall|i: int|
            0 <= i < config_text::profile_text(profile).len() ==> !text::is_space(
                #[trigger] config_text::profile_text(profile)[i],
            ),
{
    reveal_strlit("gamepad");
    reveal_strlit("desktop");
    reveal_strlit("both");
}

pub(crate) proof fn lemma_rule_value(rule: DeviceRuleView)
    requires
        is_plain(rule.match_text),
    ensures
        is_plain(config_text::profile_text(rule.profile) + " "@ + rule.match_text),
        config_text::rule_of(
            rule.kind,
            config_text::profile_text(rule.profile) + " "@ + rule.match_text,
        ) == Some(rule),
{
    reveal_strlit(" ");
    let name = config_text::profile_text(rule.profile);
    let value = name + " "@ + rule.match_text;
    let n = name.len();
    lemma_profile_value(rule.profile);
    lemma_profile_has_no_space(rule.profile);
    assert(value[n as int] == ' ');
    assert forall|i: int| 0 <= i < n implies !text::is_space(#[trigger] value[i]) by {
        assert(value[i] == name[i]);
    }
    lemma_first_space(value, n, 0);
    assert(value.subrange(0, n as int) =~= name);
    let tail = value.subrange(n as int, value.len() as int);
    assert(tail[0] == ' ');
    assert(tail.subrange(1, tail.len() as int) =~= rule.match_text);
    reveal_with_fuel(text::trim_start, 2);
    assert(text::trim_start(tail) == rule.match_text);
    assert(text::trimmed(tail) == rule.match_text);
    assert(value[0] == name[0]);
    assert(value[value.len() - 1] == rule.match_text[rule.match_text.len() - 1]);
    assert forall|i: int| 0 <= i < value.len() implies #[trigger] value[i] != '\n' by {
        if i < n {
            assert(value[i] == name[i]);
        } else if i > n {
            assert(value[i] == rule.match_text[i - n - 1]);
        }
    }
}

proof fn lemma_rule(s: Seq<char>, d: DraftView, rule: DeviceRuleView)
    requires
        reads(s, d),
        is_plain(rule.match_text),
    ensures
        reads(
            s + config_text::rule_text(rule),
            DraftView {
                config: ConfigView {
                    device_rules: d.config.device_rules.push(rule),
                    ..d.config
                },
                ..d
            },
        ),
{
    lemma_keys();
    lemma_rule_keys();
    lemma_rule_value(rule);
    let value = config_text::profile_text(rule.profile) + " "@ + rule.match_text;
    let next = DraftView {
        config: ConfigView { device_rules: d.config.device_rules.push(rule), ..d.config },
        ..d
    };
    match rule.kind {
        DeviceRuleKind::Syspath => {
            lemma_step(s, d, "rule-syspath"@, value, next);
        },
        DeviceRuleKind::Devtype => {
            lemma_step(s, d, "rule-devtype"@, value, next);
        },
    }
}

proof fn lemma_rules(s: Seq<char>, d: DraftView, rules: Seq<DeviceRuleView>, n: nat)
    requires
        reads(s, d),
        n <= rules.len(),
        forall|i: int| 0 <= i < rules.len() ==> is_plain((#[trigger] rules[i]).match_text),
    ensures
        reads(
            s + config_text::rules_text(rules, n),
            DraftView {
                config: ConfigView {
                    device_rules: d.config.device_rules + rules.subrange(0, n as int),
                    ..d.config
                },
                ..d
            },
        ),
    decreases n,
{
    if n == 0 {
        assert(s + config_text::rules_text(rules, 0) =~= s);
        assert(d.config.device_rules + rules.subrange(0, 0) =~= d.config.device_rules);
    } else {
        let m = (n - 1) as nat;
        lemma_rules(s, d, rules, m);
        let before = DraftView {
            config: ConfigView {
                device_rules: d.config.device_rules + rules.subrange(0, m as int),
                ..d.config
            },
            ..d
        };
        assert(is_plain(rules[n - 1].match_text));
        lemma_rule(s + config_text::rules_text(rules, m), before, rules[n - 1]);
        assert(s + config_text::rules_text(rules, m) + config_text::rule_text(rules[n - 1]) =~= s
            + config_text::rules_text(rules, n));
        assert((d.config.device_rules + rules.subrange(0, m as int)).push(rules[n - 1])
            =~= d.config.device_rules + rules.subrange(0, n as int));
    }
}

spec fn upper_read(c: ConfigView) -> DraftView {
    let d = pointer_read(config_text::fresh(config::default_config()), c);
    aim_read(
        match c.ir_screen {
            Some(screen) => screen_read(d, screen),
            None => d,
        },
        c,
    )
}

spec fn lower_read(d: DraftView, c: ConfigView) -> DraftView {
    let d1 = match c.aim_accel_zero {
        Some(calibration) => accel_read(d, calibration),
        None => d,
    };
    let d2 = match c.aim_motion_plus_bias {
        Some(calibration) => motion_read(d1, calibration),
        None => d1,
    };
    bindings_read(d2, c)
}

proof fn lemma_nothing_reads()
    ensures
        reads(Seq::empty(), config_text::fresh(config::default_config())),
{
    reveal(reads);
    let start = config_text::fresh(config::default_config());
    let s = Seq::<char>::empty();
    lemma_blank_line(start);
    assert(config_text::lines(s) =~= seq![Seq::<char>::empty()]);
    assert(config_text::after_lines(start, config_text::lines(s), 0) == Ok::<DraftView, usize>(
        start,
    ));
}

proof fn lemma_optional_screen(s: Seq<char>, d: DraftView, screen: Option<IrScreen>)
    requires
        reads(s, d),
    ensures
        reads(
            s + config_text::screen_text(screen),
            match screen {
                Some(screen) => screen_read(d, screen),
                None => d,
            },
        ),
{
    match screen {
        Some(screen) => {
            lemma_screen(s, d, screen);
        },
        None => {
            assert(s + config_text::screen_text(None) =~= s);
        },
    }
}

proof fn lemma_optional_accel(s: Seq<char>, d: DraftView, calibration: Option<SensorCalibration>)
    requires
        reads(s, d),
    ensures
        reads(
            s + config_text::accel_text(calibration),
            match calibration {
                Some(calibration) => accel_read(d, calibration),
                None => d,
            },
        ),
{
    match calibration {
        Some(calibration) => {
            lemma_accel(s, d, calibration);
        },
        None => {
            assert(s + config_text::accel_text(None) =~= s);
        },
    }
}

proof fn lemma_optional_motion(s: Seq<char>, d: DraftView, calibration: Option<SensorCalibration>)
    requires
        reads(s, d),
    ensures
        reads(
            s + config_text::motion_text(calibration),
            match calibration {
                Some(calibration) => motion_read(d, calibration),
                None => d,
            },
        ),
{
    match calibration {
        Some(calibration) => {
            lemma_motion(s, d, calibration);
        },
        None => {
            assert(s + config_text::motion_text(None) =~= s);
        },
    }
}

proof fn lemma_upper(c: ConfigView)
    ensures
        reads(
            config_text::pointer_text(c) + config_text::screen_text(c.ir_screen)
                + config_text::aim_text(c),
            upper_read(c),
        ),
{
    let start = config_text::fresh(config::default_config());
    let s0 = Seq::<char>::empty();
    lemma_nothing_reads();
    lemma_pointer(s0, start, c);
    let d1 = pointer_read(start, c);
    let s1 = config_text::pointer_text(c);
    assert(s0 + s1 =~= s1);
    lemma_optional_screen(s1, d1, c.ir_screen);
    let d2 = match c.ir_screen {
        Some(screen) => screen_read(d1, screen),
        None => d1,
    };
    lemma_aim(s1 + config_text::screen_text(c.ir_screen), d2, c);
}

proof fn lemma_lower(s: Seq<char>, d: DraftView, c: ConfigView)
    requires
        reads(s, d),
    ensures
        reads(
            s + config_text::accel_text(c.aim_accel_zero) + config_text::motion_text(
                c.aim_motion_plus_bias,
            ) + config_text::bindings_text(c),
            lower_read(d, c),
        ),
{
    lemma_optional_accel(s, d, c.aim_accel_zero);
    let d1 = match c.aim_accel_zero {
        Some(calibration) => accel_read(d, calibration),
        None => d,
    };
    let s1 = s + config_text::accel_text(c.aim_accel_zero);
    lemma_optional_motion(s1, d1, c.aim_motion_plus_bias);
    let d2 = match c.aim_motion_plus_bias {
        Some(calibration) => motion_read(d1, calibration),
        None => d1,
    };
    lemma_bindings(s1 + config_text::motion_text(c.aim_motion_plus_bias), d2, c);
}

spec fn whole_read(c: ConfigView) -> DraftView {
    let d = lower_read(upper_read(c), c);
    DraftView { config: ConfigView { device_rules: c.device_rules, ..d.config }, ..d }
}

proof fn lemma_whole(c: ConfigView)
    requires
        forall|i: int|
            0 <= i < c.device_rules.len() ==> is_plain((#[trigger] c.device_rules[i]).match_text),
    ensures
        reads(config_text::rendered(c), whole_read(c)),
{
    let n = c.device_rules.len();
    let upper = config_text::pointer_text(c) + config_text::screen_text(c.ir_screen)
        + config_text::aim_text(c);
    let d = lower_read(upper_read(c), c);
    lemma_upper(c);
    lemma_lower(upper, upper_read(c), c);
    let s = upper + config_text::accel_text(c.aim_accel_zero) + config_text::motion_text(
        c.aim_motion_plus_bias,
    ) + config_text::bindings_text(c);
    lemma_rules(s, d, c.device_rules, n);
    assert(s + config_text::rules_text(c.device_rules, n) == config_text::rendered(c));
    assert(d.config.device_rules == Seq::<DeviceRuleView>::empty());
    assert(d.config.device_rules + c.device_rules.subrange(0, n as int) =~= c.device_rules);
}

proof fn lemma_complete(c: ConfigView)
    ensures
        config_text::completed(whole_read(c)) == Some(c),
{
}

/// A valid configuration whose rules match plain texts reads back from its file exactly as it was.
pub proof fn saved_configurations_read_back(origin: Seq<char>, c: ConfigView)
    requires
        c.valid(),
        forall|i: int|
            0 <= i < c.device_rules.len() ==> is_plain((#[trigger] c.device_rules[i]).match_text),
    ensures
        config_text::parsed(origin, vstd::utf8::encode_utf8(config_text::rendered(c))) == Ok::<
            ConfigView,
            ConfigErrorView,
        >(c),
{
    let file = config_text::rendered(c);
    lemma_whole(c);
    lemma_complete(c);
    reveal(reads);
    vstd::utf8::encode_utf8_valid_utf8(file);
    vstd::utf8::encode_utf8_decode_utf8(file);
    config::valid_means_nothing_to_report(c);
}

/// A file that sets the profile and the pointer speed alone leaves every other setting at its
/// default.
pub proof fn settings_left_out_keep_their_defaults(
    origin: Seq<char>,
    profile: Profile,
    speed: i32,
)
    requires
        1 <= speed <= 127,
    ensures
        config_text::parsed(
            origin,
            vstd::utf8::encode_utf8(
                config_text::line_text("profile"@, config_text::profile_text(profile))
                    + config_text::line_text(
                    "pointer-speed"@,
                    text::signed_decimal(speed as int),
                ),
            ),
        ) == Ok::<ConfigView, ConfigErrorView>(
            ConfigView { profile, pointer_speed: speed, ..config::default_config() },
        ),
{
    let start = config_text::fresh(config::default_config());
    let s0 = Seq::<char>::empty();
    let first = config_text::line_text("profile"@, config_text::profile_text(profile));
    let second = config_text::line_text("pointer-speed"@, text::signed_decimal(speed as int));
    let d1 = DraftView { config: ConfigView { profile, ..start.config }, ..start };
    let d2 = DraftView { config: ConfigView { pointer_speed: speed, ..d1.config }, ..d1 };
    lemma_nothing_reads();
    lemma_number_keys();
    lemma_choice_keys();
    lemma_profile_value(profile);
    lemma_number_value(speed);
    assert(config_text::assignment(start, "profile"@, config_text::profile_text(profile))
        == Assignment::Accepted(d1)) by {
        lemma_keys();
    }
    lemma_step(s0, start, "profile"@, config_text::profile_text(profile), d1);
    assert(s0 + first =~= first);
    assert(config_text::assignment(d1, "pointer-speed"@, text::signed_decimal(speed as int))
        == Assignment::Accepted(d2)) by {
        lemma_keys();
    }
    lemma_step(first, d1, "pointer-speed"@, text::signed_decimal(speed as int), d2);
    reveal(reads);
    vstd::utf8::encode_utf8_valid_utf8(first + second);
    vstd::utf8::encode_utf8_decode_utf8(first + second);
    let c = ConfigView { profile, pointer_speed: speed, ..config::default_config() };
    config::default_configuration_is_valid();
    assert forall|setting: config::Setting| #[trigger] c.setting_valid(setting) by {
        assert(config::default_config().setting_valid(setting));
    }
    config::valid_means_nothing_to_report(c);
}

/// What a calibration measured reads back from the lines that it writes, each sensor on its own.
pub proof fn measured_calibrations_read_back(
    accel: Option<SensorCalibration>,
    motion: Option<SensorCalibration>,
)
    requires
        accel is Some || motion is Some,
        config::calibration_valid(accel),
        config::calibration_valid(motion),
    ensures
        validation::calibration_in(
            vstd::utf8::encode_utf8(
                config_text::accel_text(accel) + config_text::motion_text(motion),
            ),
        ) == Ok::<CalibrationResult, Seq<char>>(CalibrationResult { accel, motion_plus: motion }),
{
    let start = config_text::fresh(config::default_config());
    let s0 = Seq::<char>::empty();
    let file = config_text::accel_text(accel) + config_text::motion_text(motion);
    lemma_nothing_reads();
    lemma_optional_accel(s0, start, accel);
    assert(s0 + config_text::accel_text(accel) =~= config_text::accel_text(accel));
    let d = match accel {
        Some(calibration) => accel_read(start, calibration),
        None => start,
    };
    lemma_optional_motion(config_text::accel_text(accel), d, motion);
    reveal(reads);
    vstd::utf8::encode_utf8_valid_utf8(file);
    vstd::utf8::encode_utf8_decode_utf8(file);
    let c = ConfigView {
        aim_accel_zero: accel,
        aim_motion_plus_bias: motion,
        ..config::default_config()
    };
    config::default_configuration_is_valid();
    assert forall|setting: config::Setting| #[trigger] c.setting_valid(setting) by {
        assert(config::default_config().setting_valid(setting));
    }
    config::valid_means_nothing_to_report(c);
}

} // verus!
