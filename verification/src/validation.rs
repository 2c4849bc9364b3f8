//! Traces and calibrations that the control center runs, and what their results mean.
use crate::config::{Config, SensorCalibration};
use crate::config_text;
use crate::live::{Capture, CaptureView};
use crate::model::{CalibrationTransaction, ConfigModel};
use crate::process;
use crate::process::{End, ProcessEvent, ProcessResult, ProcessTask};
use vstd::prelude::*;
use vstd::string::*;

verus! {

/// What is captured.
#[derive(Clone, Copy, Debug, PartialEq, Eq, Structural)]
pub enum ValidationKind {
    Trace,
    Calibration,
}

/// What a calibration measured.
#[derive(Clone, Copy, Debug, PartialEq, Eq, Structural)]
pub struct CalibrationResult {
    pub accel: Option<SensorCalibration>,
    pub motion_plus: Option<SensorCalibration>,
}

/// What a capture gave.
#[derive(Clone, Copy, Debug, PartialEq, Eq, Structural)]
pub enum CaptureResult {
    TraceStopped,
    Calibrated(CalibrationResult),
}

/// What errors call the calibration that a capture wrote.
pub const CALIBRATION_OUTPUT: &'static str = "calibration-output";

/// What bytes tell of a calibration. A sensor counts only with all of its values.
pub open spec fn calibration_in(bytes: Seq<u8>) -> Result<CalibrationResult, Seq<char>> {
    match config_text::parsed(CALIBRATION_OUTPUT@, bytes) {
        Err(error) => Err(error.text()),
        Ok(config) => if config.aim_accel_zero is None && config.aim_motion_plus_bias is None {
            Err("Capture returned no complete sensor calibration"@)
        } else {
            Ok(
                CalibrationResult {
                    accel: config.aim_accel_zero,
                    motion_plus: config.aim_motion_plus_bias,
                },
            )
        },
    }
}

/// What the end of a capture means.
pub open spec fn capture_in(end: End, kind: ValidationKind) -> Result<CaptureResult, Seq<char>> {
    if !end.success {
        Err(
            match end.error {
                Some(error) => error,
                None => "Capture process failed (exit "@ + process::exit_text(end.code) + ")"@,
            },
        )
    } else if kind is Trace {
        Ok(CaptureResult::TraceStopped)
    } else {
        match calibration_in(end.stdout) {
            Ok(value) => Ok(CaptureResult::Calibrated(value)),
            Err(error) => Err(error),
        }
    }
}

/// The view of a result whose error is a text.
pub open spec fn result_view<T>(result: Result<T, String>) -> Result<T, Seq<char>> {
    match result {
        Ok(value) => Ok(value),
        Err(error) => Err(error@),
    }
}

/// What bytes tell of a calibration.
pub fn decode_calibration(bytes: &[u8]) -> (result: Result<CalibrationResult, String>)
    ensures
        result_view(result) == calibration_in(bytes@),
{
    match Config::parse_bytes(CALIBRATION_OUTPUT, bytes) {
        Err(error) => Err(error.describe()),
        Ok(config) => {
            if config.aim_accel_zero.is_none() && config.aim_motion_plus_bias.is_none() {
                return Err("Capture returned no complete sensor calibration".to_owned());
            }
            Ok(
                CalibrationResult {
                    accel: config.aim_accel_zero,
                    motion_plus: config.aim_motion_plus_bias,
                },
            )
        },
    }
}

/// What the end of a capture means.
pub fn decode_capture_result(result: ProcessResult, kind: ValidationKind) -> (decoded: Result<
    CaptureResult,
    String,
>)
    ensures
        result_view(decoded) == capture_in(result@, kind),
{
    if !result.success {
        return match result.error {
            Some(error) => Err(error),
            None => {
                let mut reason = "Capture process failed (exit ".to_owned();
                process::append_exit(&mut reason, result.code);
                reason.append(")");
                Err(reason)
            },
        };
    }
    if kind == ValidationKind::Trace {
        return Ok(CaptureResult::TraceStopped);
    }
    match decode_calibration(result.stdout.as_slice()) {
        Ok(value) => Ok(CaptureResult::Calibrated(value)),
        Err(error) => Err(error),
    }
}

/// How a capture is made: by a command of its own, or through the running daemon.
pub enum CaptureTask {
    Direct(ProcessTask),
    Daemon(Capture),
}

/// The state of a capture.
pub enum CaptureTaskView {
    Direct {
        program: Seq<char>,
        args: Seq<Seq<char>>,
        captures: bool,
        events: Seq<ProcessEvent>,
        lost: bool,
        terminated: bool,
    },
    Daemon(CaptureView),
}

impl View for CaptureTask {
    type V = CaptureTaskView;

    open spec fn view(&self) -> CaptureTaskView {
        match self {
            CaptureTask::Direct(task) => CaptureTaskView::Direct {
                program: task.program@,
                args: process::argument_texts(task.args@),
                captures: task.captures,
                events: task.events@,
                lost: task.lost,
                terminated: task.terminated,
            },
            CaptureTask::Daemon(capture) => CaptureTaskView::Daemon(capture@),
        }
    }
}

impl CaptureTaskView {
    /// How the capture ends, as far as it has reported by now.
    pub open spec fn end(self, now: u64) -> Option<End> {
        match self {
            CaptureTaskView::Direct { events, lost, .. } => process::task_end(events, lost),
            CaptureTaskView::Daemon(capture) => capture.polled(now),
        }
    }

    /// The log after what the capture has reported by now.
    pub open spec fn logged(self, blocks: Seq<Seq<char>>, now: u64) -> Seq<Seq<char>> {
        match self {
            CaptureTaskView::Direct { events, .. } => process::process_log(blocks, events),
            CaptureTaskView::Daemon(capture) => capture.logged(
                blocks,
                now,
                crate::live::MAX_EVENTS_PER_POLL as nat,
            ),
        }
    }

    /// The capture after it was asked to end.
    pub open spec fn stopping(self) -> CaptureTaskView {
        match self {
            CaptureTaskView::Direct { program, args, captures, events, lost, .. } =>
                CaptureTaskView::Direct {
                program,
                args,
                captures,
                events,
                lost,
                terminated: true,
            },
            CaptureTaskView::Daemon(capture) => CaptureTaskView::Daemon(
                CaptureView {
                    session: crate::session::SessionView { cancelled: true, ..capture.session },
                    ..capture
                },
            ),
        }
    }

    /// The capture after its reports were taken, up to its end.
    pub open spec fn after_poll(self, now: u64) -> CaptureTaskView {
        match self {
            CaptureTaskView::Direct { program, args, captures, events, lost, terminated } =>
                CaptureTaskView::Direct {
                program,
                args,
                captures,
                events: process::after_end(events),
                lost,
                terminated,
            },
            CaptureTaskView::Daemon(capture) => CaptureTaskView::Daemon(capture.after_poll(now)),
        }
    }
}

impl CaptureTask {
    /// What always holds of a capture.
    pub open spec fn well_formed(self) -> bool {
        self matches CaptureTask::Daemon(capture) ==> capture.well_formed()
    }

    /// Asks the capture to end.
    pub fn terminate(&mut self)
        requires
            old(self).well_formed(),
        ensures
            final(self).well_formed(),
            final(self)@ == old(self)@.stopping(),
    {
        match self {
            CaptureTask::Direct(task) => task.terminate(),
            CaptureTask::Daemon(capture) => capture.cancel(),
        }
    }

    /// Shows what the capture has reported by now, and gives what it means once it has ended.
    pub fn poll(&mut self, now: u64, model: &mut ConfigModel, kind: ValidationKind) -> (result:
        Option<Result<CaptureResult, String>>)
        requires
            old(self).well_formed(),
            old(model).well_formed(),
        ensures
            final(self).well_formed(),
            final(model).well_formed(),
            *final(model) == (ConfigModel { output: final(model).output, ..*old(model) }),
            final(model).output@ == old(self)@.logged(old(model).output@, now),
            match old(self)@.end(now) {
                Some(end) => result matches Some(r) && result_view(r) == capture_in(end, kind),
                None => result is None,
            },
            final(self)@ == old(self)@.after_poll(now),
    {
        let end = match self {
            CaptureTask::Direct(task) => process::poll_process(task, model),
            CaptureTask::Daemon(capture) => capture.poll(now, model),
        };
        match end {
            Some(end) => Some(decode_capture_result(end, kind)),
            None => None,
        }
    }
}

/// What a calibration belongs to.
#[derive(Debug)]
pub struct CalibrationOwnership {
    pub transaction: CalibrationTransaction,
    /// The device that was selected.
    pub device: String,
}

/// A capture that is under way.
pub struct ValidationTask {
    pub kind: ValidationKind,
    pub cancel_requested: bool,
    pub process: CaptureTask,
    pub calibration: Option<CalibrationOwnership>,
}

/// Nothing but a complete triple of a sensor counts as a calibration.
pub proof fn calibrations_are_complete(bytes: Seq<u8>)
    ensures
        calibration_in(bytes) matches Ok(value) ==> value.accel is Some || value.motion_plus is Some,
{
}

/// A capture that failed gives no calibration.
pub proof fn failed_captures_give_nothing(end: End, kind: ValidationKind)
    requires
        !end.success,
    ensures
        capture_in(end, kind) is Err,
{
}

} // verus!
