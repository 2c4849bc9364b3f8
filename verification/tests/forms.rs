use wiiland::config::{Config, DeviceRule, DeviceRuleKind, IrScreen, Profile};
use wiiland::form::{
    calibration_range, screen_is_reversed, screen_range, set_accel, set_motion, set_screen,
    BoundButton, NumberField, Range,
};
use wiiland::log::{OutputBuffer, OUTPUT_BLOCK_LIMIT};
use wiiland::palette::{Palette, Rgb};
use wiiland::model::{ApplyCompletion, Completion, ConfigModel, ConfigValue, TransactionKind};
use wiiland::rules::{
    can_add_rule, edit_rules, rule_count_text, rule_row, RuleActions, RuleEdit, RuleIds,
};
use wiiland::smoke::{
    begin_save, check_calibration, check_error, check_load, check_output, check_save, SmokeReport,
};

fn model(texts: &[&str]) -> ConfigModel {
    let mut model = ConfigModel::new("config".into(), None);
    for text in texts {
        model.config.device_rules.push(DeviceRule {
            kind: DeviceRuleKind::Syspath,
            match_text: (*text).into(),
            profile: Profile::Desktop,
        });
    }
    model
}

fn texts(model: &ConfigModel) -> Vec<&str> {
    model.config.device_rules.iter().map(|rule| rule.match_text.as_str()).collect()
}

const NOTHING: RuleActions = RuleActions { changed: false, edit: None, add: false };

#[test]
fn identities_travel_with_rules() {
    let mut model = model(&["a", "b", "c"]);
    let mut ids = RuleIds::new();
    ids.fit(3);
    assert_eq!(ids.rows, [0, 1, 2]);
    edit_rules(&mut model, &mut ids, RuleActions { edit: Some(RuleEdit::Move(0, 1)), ..NOTHING });
    assert_eq!(texts(&model), ["b", "a", "c"]);
    assert_eq!(ids.rows, [1, 0, 2]);
    assert_eq!((model.dirty, model.revision), (true, 1));
    edit_rules(&mut model, &mut ids, RuleActions { edit: Some(RuleEdit::Remove(1)), ..NOTHING });
    assert_eq!(texts(&model), ["b", "c"]);
    assert_eq!(ids.rows, [1, 2]);
    edit_rules(&mut model, &mut ids, RuleActions { add: true, ..NOTHING });
    assert_eq!(texts(&model), ["b", "c", ""]);
    assert_eq!(ids.rows, [1, 2, 3]);
    assert_eq!(model.config.device_rules[2].kind, DeviceRuleKind::Devtype);
    edit_rules(&mut model, &mut ids, NOTHING);
    assert_eq!(model.revision, 3);
}

#[test]
fn identities_fit_the_rules() {
    let mut ids = RuleIds::new();
    ids.fit(4);
    ids.fit(1);
    ids.fit(3);
    assert_eq!(ids.rows, [0, 4, 5]);
}

#[test]
fn no_more_rules_than_allowed_are_added() {
    let mut model = model(&vec!["x"; 64]);
    let mut ids = RuleIds::new();
    ids.fit(64);
    assert!(!can_add_rule(&model.config));
    assert_eq!(rule_count_text(&model.config), "64 / 64 rules");
    edit_rules(&mut model, &mut ids, RuleActions { add: true, ..NOTHING });
    assert_eq!(model.config.device_rules.len(), 64);
    assert!(!model.dirty);
}

#[test]
fn rows_show_where_a_rule_can_go() {
    let model = model(&["a", " "]);
    let first = rule_row(&model, 0);
    assert_eq!(first.title, "Rule 1");
    assert!(!first.last && !first.can_move_earlier && first.can_move_later && !first.blank);
    let last = rule_row(&model, 1);
    assert_eq!(last.title, "Rule 2");
    assert!(last.last && last.can_move_earlier && !last.can_move_later && last.blank);
}

#[test]
fn fields_offer_the_valid_values() {
    assert_eq!(NumberField::PointerSpeed.range(), Range { min: 1, max: 127 });
    assert_eq!(NumberField::IrSmoothing.range(), Range { min: 0, max: 95 });
    assert_eq!(NumberField::AimDeadzone.range(), Range { min: 0, max: 32767 });
    assert_eq!(NumberField::AimCalibrationDuration.range(), Range { min: 1, max: 30 });
    assert_eq!(screen_range(), Range { min: 0, max: 32767 });
    assert_eq!(calibration_range(), Range { min: -32768, max: 32767 });
}

#[test]
fn switching_parts_on_and_off() {
    let mut config = Config::default();
    set_screen(&mut config, true);
    assert_eq!(config.ir_screen, Some(IrScreen { left: 0, right: 1023, top: 0, bottom: 767 }));
    assert!(!screen_is_reversed(&config.ir_screen.unwrap()));
    set_accel(&mut config, true);
    set_motion(&mut config, true);
    assert_eq!(config.aim_accel_zero, config.aim_motion_plus_bias);
    set_screen(&mut config, false);
    set_accel(&mut config, false);
    set_motion(&mut config, false);
    assert!(config.same(&Config::default()));
}

#[test]
fn binding_one_button_leaves_the_others() {
    let mut config = Config::default();
    let before = config.desktop_bindings;
    let action = BoundButton::Two.bound(&before);
    BoundButton::A.bind(&mut config.desktop_bindings, action);
    assert_eq!(config.desktop_bindings.a, before.two);
    assert_eq!(config.desktop_bindings.b, before.b);
}

#[test]
fn the_appearances_have_their_own_colours() {
    assert_eq!(Palette::new(false).canvas, Rgb { red: 0xf2, green: 0xf1, blue: 0xea });
    assert_eq!(Palette::new(true).accent, Rgb { red: 135, green: 207, blue: 185 });
    assert_ne!(Palette::new(true).error, Palette::new(false).error);
}

#[test]
fn the_log_keeps_the_most_recent_lines() {
    let mut log = OutputBuffer::new();
    log.append("a");
    log.append("b\nc");
    assert_eq!(log.block_count(), 2);
    assert_eq!(log.as_text(), "ab\nc");
    for n in 0..OUTPUT_BLOCK_LIMIT {
        log.append(&format!("\n{n}"));
    }
    assert_eq!(log.block_count(), OUTPUT_BLOCK_LIMIT);
    assert!(log.as_text().ends_with("\n1999"));
    assert!(!log.as_text().contains("ab"));
    log.clear();
    assert_eq!(log.block_count(), 0);
}

#[test]
fn the_daemon_is_the_entered_or_the_installed_one() {
    let mut model = model(&[]);
    assert_eq!(model.daemon_program(), "wiilandd");
    model.daemon_path = " /opt/wiilandd ".into();
    assert_eq!(model.daemon_program(), "/opt/wiilandd");
}

#[test]
fn an_operation_of_the_wrong_kind_fails() {
    let mut model = model(&[]);
    let load = model.begin(TransactionKind::Load, Vec::new()).unwrap();
    assert!(model.begin(TransactionKind::Save, Vec::new()).is_none());
    assert_eq!(
        model.finish(Completion { transaction: 9, result: Ok(ConfigValue::Saved) }),
        ApplyCompletion::Stale
    );
    assert_eq!(
        model.finish(Completion::new(&load, Ok(ConfigValue::Saved))),
        ApplyCompletion::Failed
    );
    let load = model.begin(TransactionKind::Load, Vec::new()).unwrap();
    let loaded = Config { pointer_speed: 3, ..Config::default() };
    assert_eq!(
        model.finish(Completion::new(&load, Ok(ConfigValue::Loaded(loaded)))),
        ApplyCompletion::Applied
    );
    assert_eq!(model.config.pointer_speed, 3);
}

#[test]
fn the_smoke_check_finds_nothing() {
    let mut model = model(&[]);
    model.config.profile = Profile::Desktop;
    model.mark_dirty();
    let load_transaction_safe = check_load(&mut model);
    let save = begin_save(&mut model).unwrap();
    let completion = Completion::new(&save, Ok(ConfigValue::Saved));
    let save_transaction_safe =
        check_save(&mut model, completion, &save.captured, Some(save.captured.clone()));
    assert_eq!(model.config.pointer_speed, 18);
    let report = SmokeReport {
        calibration_isolated: false,
        default_path_absolute: true,
        load_transaction_safe,
        save_transaction_safe,
        error_recovered: check_error(&mut model),
        output_bounded: check_output(),
    };
    let report = SmokeReport { calibration_isolated: check_calibration(&mut model), ..report };
    assert_eq!(
        report.render("wayland"),
        "eframe.platform=wayland\nservice.restart.explicit-config=disabled\n\
         calibration.partial-source=isolated\nconfig.choice-values=canonical\n\
         config.compact-layout=responsive\nconfig.default-path=absolute\n\
         config.unsaved-state=tracked\nconfig.transaction.load=revision-safe\n\
         config.transaction.save=revision-safe\nconfig.transaction.error=recovered\n\
         output.actions=available\noutput.buffer=bounded\nvalidation.controls=coordinated\n\
         validation.form=visible\n"
    );
}
