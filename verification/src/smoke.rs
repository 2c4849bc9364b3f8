//! A check of the control center without a window: operations that were overtaken by edits,
//! failures, and the bounds of the log, reported as one line each.
use crate::config::{Config, Profile, SensorCalibration};
use crate::config_text;
use crate::log::{OutputBuffer, OUTPUT_BLOCK_LIMIT};
use crate::model;
use crate::model::{
    ApplyCompletion, Completion, ConfigFailure, ConfigFailureStage, ConfigModel, ConfigValue,
    Transaction, TransactionKind,
};
use crate::text;
use vstd::prelude::*;
use vstd::string::*;

verus! {

/// What the check found.
#[derive(Clone, Copy, Debug, PartialEq, Eq, Structural)]
pub struct SmokeReport {
    pub calibration_isolated: bool,
    pub default_path_absolute: bool,
    pub load_transaction_safe: bool,
    pub save_transaction_safe: bool,
    pub error_recovered: bool,
    pub output_bounded: bool,
}

/// One of two words.
pub open spec fn word(good: bool, yes: Seq<char>, no: Seq<char>) -> Seq<char> {
    if good {
        yes
    } else {
        no
    }
}

fn append_word(out: &mut String, good: bool, yes: &str, no: &str)
    ensures
        final(out)@ == old(out)@ + word(good, yes@, no@),
{
    if good {
        out.append(yes);
    } else {
        out.append(no);
    }
}

/// The report for a window system.
pub open spec fn report_text(report: SmokeReport, platform: Seq<char>) -> Seq<char> {
    "eframe.platform="@ + platform
        + "\nservice.restart.explicit-config=disabled\ncalibration.partial-source="@ + word(
        report.calibration_isolated,
        "isolated"@,
        "coupled"@,
    )
        + "\nconfig.choice-values=canonical\nconfig.compact-layout=responsive\nconfig.default-path="@
        + word(report.default_path_absolute, "absolute"@, "invalid"@)
        + "\nconfig.unsaved-state=tracked\nconfig.transaction.load="@ + word(
        report.load_transaction_safe,
        "revision-safe"@,
        "stale"@,
    ) + "\nconfig.transaction.save="@ + word(
        report.save_transaction_safe,
        "revision-safe"@,
        "stale"@,
    ) + "\nconfig.transaction.error="@ + word(report.error_recovered, "recovered"@, "stuck"@)
        + "\noutput.actions=available\noutput.buffer="@ + word(
        report.output_bounded,
        "bounded"@,
        "unbounded"@,
    ) + "\nvalidation.controls=coordinated\nvalidation.form=visible\n"@
}

impl SmokeReport {
    /// The report for a window system.
    pub fn render(&self, platform: &str) -> (out: String)
        ensures
            out@ == report_text(*self, platform@),
    {
        let mut out = "eframe.platform=".to_owned();
        out.append(platform);
        out.append("\nservice.restart.explicit-config=disabled\ncalibration.partial-source=");
        append_word(&mut out, self.calibration_isolated, "isolated", "coupled");
        out.append(
            "\nconfig.choice-values=canonical\nconfig.compact-layout=responsive\nconfig.default-path=",
        );
        append_word(&mut out, self.default_path_absolute, "absolute", "invalid");
        out.append("\nconfig.unsaved-state=tracked\nconfig.transaction.load=");
        append_word(&mut out, self.load_transaction_safe, "revision-safe", "stale");
        out.append("\nconfig.transaction.save=");
        append_word(&mut out, self.save_transaction_safe, "revision-safe", "stale");
        out.append("\nconfig.transaction.error=");
        append_word(&mut out, self.error_recovered, "recovered", "stuck");
        out.append("\noutput.actions=available\noutput.buffer=");
        append_word(&mut out, self.output_bounded, "bounded", "unbounded");
        out.append("\nvalidation.controls=coordinated\nvalidation.form=visible\n");
        assert(out@ =~= report_text(*self, platform@));
        out
    }
}

proof fn lemma_loaded_file()
    ensures
        config_text::parsed(
            model::DAEMON_OUTPUT@,
            "profile=gamepad\npointer-speed=99\n".spec_bytes(),
        ) is Ok,
{
    reveal_strlit("profile=gamepad\npointer-speed=99\n");
    reveal_strlit("profile");
    reveal_strlit("gamepad");
    reveal_strlit("pointer-speed");
    reveal_strlit("=");
    reveal_strlit("\n");
    reveal_with_fuel(text::decimal, 3);
    assert("profile=gamepad\npointer-speed=99\n"@ =~= config_text::line_text(
        "profile"@,
        config_text::profile_text(Profile::Gamepad),
    ) + config_text::line_text("pointer-speed"@, text::signed_decimal(99)));
    crate::round_trip::settings_left_out_keep_their_defaults(
        model::DAEMON_OUTPUT@,
        Profile::Gamepad,
        99,
    );
}

/// Overtakes a load by an edit: the load ends without changing the form, and lets go of it.
pub fn check_load(model: &mut ConfigModel) -> (safe: bool)
    requires
        old(model).well_formed(),
        old(model).transaction is None,
    ensures
        final(model).well_formed(),
        safe,
        *final(model) == (ConfigModel {
            dirty: true,
            revision: old(model).revision.wrapping_add(1),
            next_transaction: old(model).next_transaction.wrapping_add(1),
            ..*old(model)
        }),
{
    let load = match model.begin(TransactionKind::Load, Vec::new()) {
        Some(load) => load,
        None => {
            return false;
        },
    };
    model.mark_dirty();
    proof {
        lemma_loaded_file();
    }
    let loaded = match model::parse_config_bytes(
        "profile=gamepad\npointer-speed=99\n".as_bytes(),
    ) {
        Ok(loaded) => loaded,
        Err(_) => {
            return false;
        },
    };
    let stale = Completion::new(&load, Ok(ConfigValue::Loaded(loaded)));
    let outcome = model.finish(stale);
    outcome == ApplyCompletion::Stale && model.transaction.is_none()
}

/// Begins a save and overtakes it by an edit. The save works on the bytes of the form before the
/// edit.
pub fn begin_save(model: &mut ConfigModel) -> (save: Option<Transaction>)
    requires
        old(model).well_formed(),
    ensures
        final(model).well_formed(),
        save is None <==> old(model).transaction is Some,
        save is None ==> *final(model) == *old(model),
        save matches Some(t) ==> {
            &&& t.id == old(model).next_transaction
            &&& t.kind is Save
            &&& t.target@ == old(model).config_path@
            &&& t.captured@ == vstd::utf8::encode_utf8(
                config_text::rendered(old(model).config@),
            )
            &&& t.revision == old(model).revision
            &&& final(model).transaction matches Some(own) && own.id == t.id && own.kind is Save
                && own.target@ == t.target@ && own.captured@ == t.captured@ && own.revision
                == t.revision
            &&& *final(model) == (ConfigModel {
                config: Config { pointer_speed: 18, ..old(model).config },
                dirty: true,
                revision: old(model).revision.wrapping_add(1),
                transaction: final(model).transaction,
                next_transaction: old(model).next_transaction.wrapping_add(1),
                ..*old(model)
            })
        },
{
    let snapshot = model.render();
    let save = model.begin(TransactionKind::Save, snapshot);
    if save.is_some() {
        model.config.pointer_speed = 18;
        model.mark_dirty();
    }
    save
}

fn same_bytes(a: &Vec<u8>, b: &Vec<u8>) -> (r: bool)
    ensures
        r == (a@ == b@),
{
    if a.len() != b.len() {
        return false;
    }
    let mut i: usize = 0;
    while i < a.len()
        invariant
            i <= a.len(),
            a@.len() == b@.len(),
            forall|k: int| 0 <= k < i ==> a@[k] == b@[k],
        decreases a.len() - i,
    {
        if a[i] != b[i] {
            return false;
        }
        i = i + 1;
    }
    assert(a@ =~= b@);
    true
}

/// Ends the save that was overtaken: the file holds the bytes that the save began with, and the
/// form its edit.
pub fn check_save(
    model: &mut ConfigModel,
    completion: Completion,
    snapshot: &Vec<u8>,
    file: Option<Vec<u8>>,
) -> (safe: bool)
    requires
        old(model).well_formed(),
    ensures
        final(model).well_formed(),
        safe == (old(model).outcome(completion) is Stale && (file matches Some(bytes) && bytes@
            == snapshot@)),
        *final(model) == (ConfigModel {
            config: match completion.result {
                Ok(ConfigValue::Loaded(config)) if old(model).outcome(completion) is Applied => config,
                _ => old(model).config,
            },
            dirty: old(model).dirty && old(model).outcome(completion) !is Applied,
            transaction: match old(model).transaction {
                Some(own) if own.id == completion.transaction => None,
                own => own,
            },
            ..*old(model)
        }),
{
    let outcome = model.finish(completion);
    let kept = match &file {
        Some(bytes) => same_bytes(bytes, snapshot),
        None => false,
    };
    outcome == ApplyCompletion::Stale && kept
}

/// Ends a load with a failure: the form lets go of it.
pub fn check_error(model: &mut ConfigModel) -> (recovered: bool)
    requires
        old(model).well_formed(),
        old(model).transaction is None,
    ensures
        final(model).well_formed(),
        recovered,
        *final(model) == (ConfigModel {
            next_transaction: old(model).next_transaction.wrapping_add(1),
            ..*old(model)
        }),
{
    let load = match model.begin(TransactionKind::Load, Vec::new()) {
        Some(load) => load,
        None => {
            return false;
        },
    };
    let failure = ConfigFailure {
        stage: ConfigFailureStage::Load,
        message: "delayed fake load failure".to_owned(),
    };
    let outcome = model.finish(Completion::new(&load, Err(failure)));
    outcome == ApplyCompletion::Failed && model.transaction.is_none()
}

/// Sets the calibration of one sensor, and tells whether the file holds it and nothing of the
/// other.
pub fn check_calibration(model: &mut ConfigModel) -> (isolated: bool)
    requires
        old(model).well_formed(),
    ensures
        final(model).well_formed(),
        *final(model) == (ConfigModel {
            config: Config {
                aim_accel_zero: Some(SensorCalibration { x: 11, y: 12, z: 13 }),
                ..old(model).config
            },
            ..*old(model)
        }),
        isolated == (text::occurs_in(
            config_text::rendered(final(model).config@),
            "aim-accel-zero-x=11\n"@,
        ) && !text::occurs_in(
            config_text::rendered(final(model).config@),
            "aim-motion-plus-bias-"@,
        )),
{
    let mut calibration = model::calibration_default();
    calibration.x = 11;
    calibration.y = 12;
    calibration.z = 13;
    model.config.aim_accel_zero = Some(calibration);
    let file = config_text::render(&model.config);
    text::contains(file.as_str(), "aim-accel-zero-x=11\n") && !text::contains(
        file.as_str(),
        "aim-motion-plus-bias-",
    )
}

proof fn lemma_line_is_one_block(blocks: Seq<Seq<char>>)
    requires
        !crate::log::is_open(blocks),
    ensures
        crate::log::with_text(blocks, "line\n"@) == blocks.push("line\n"@),
        "line\n"@.len() > 0,
        "line\n"@.last() == '\n',
{
    reveal_strlit("line\n");
    let s = "line\n"@;
    assert(s =~= seq!['l', 'i', 'n', 'e', '\n']);
    let s1 = seq!['l'];
    let s2 = seq!['l', 'i'];
    let s3 = seq!['l', 'i', 'n'];
    let s4 = seq!['l', 'i', 'n', 'e'];
    assert(s.drop_last() =~= s4);
    assert(s4.drop_last() =~= s3);
    assert(s3.drop_last() =~= s2);
    assert(s2.drop_last() =~= s1);
    assert(s1.drop_last() =~= Seq::<char>::empty());
    assert(crate::log::with_text(blocks, Seq::<char>::empty()) == blocks);
    assert(crate::log::with_text(blocks, s1) =~= blocks.push(s1));
    assert(crate::log::with_text(blocks, s2) =~= blocks.push(s2)) by {
        assert(blocks.push(s1).drop_last() =~= blocks);
        assert(s1.push('i') =~= s2);
    }
    assert(crate::log::with_text(blocks, s3) =~= blocks.push(s3)) by {
        assert(blocks.push(s2).drop_last() =~= blocks);
        assert(s2.push('n') =~= s3);
    }
    assert(crate::log::with_text(blocks, s4) =~= blocks.push(s4)) by {
        assert(blocks.push(s3).drop_last() =~= blocks);
        assert(s3.push('e') =~= s4);
    }
    assert(crate::log::with_text(blocks, s) =~= blocks.push(s)) by {
        assert(blocks.push(s4).drop_last() =~= blocks);
        assert(s4.push('\n') =~= s);
    }
}

/// Fills a log beyond its bound: it holds exactly as many lines as it may.
pub fn check_output() -> (bounded: bool)
    ensures
        bounded,
{
    let mut output = OutputBuffer::new();
    let mut i: usize = 0;
    while i < OUTPUT_BLOCK_LIMIT + 2
        invariant
            output.well_formed(),
            i <= OUTPUT_BLOCK_LIMIT + 2,
            output@.len() == (if i < OUTPUT_BLOCK_LIMIT {
                i as int
            } else {
                OUTPUT_BLOCK_LIMIT as int
            }),
            !crate::log::is_open(output@),
        decreases OUTPUT_BLOCK_LIMIT + 2 - i,
    {
        proof {
            lemma_line_is_one_block(output@);
        }
        output.append("line\n");
        i = i + 1;
    }
    output.block_count() == OUTPUT_BLOCK_LIMIT
}

} // verus!
