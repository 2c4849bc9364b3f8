//! Live capture: samples of the running daemon become trace lines or a calibration.
use crate::calibration;
use crate::calibration::CalibrationStats;
use crate::client::ClientError;
use crate::config::Profile;
use crate::config_text;
use crate::log;
use crate::model::ConfigModel;
use crate::process;
use crate::process::{End, ProcessResult};
use crate::protocol::{
    Axis3, ButtonEvent, DeviceInfo, Diagnostics, InputPayload, Notification, Status, Timestamp,
};
use crate::session;
use crate::session::{Session, SessionEvent, SessionView};
use crate::text;
use crate::trace::TraceFilter;
use vstd::prelude::*;
use vstd::string::*;

verus! {

/// How many events one turn takes at most.
pub const MAX_EVENTS_PER_POLL: usize = 256;

/// The text of a button transition.
pub open spec fn button_text(name: Seq<char>, event: ButtonEvent) -> Seq<char> {
    name + "(ButtonEvent { code: "@ + text::decimal(event.code as nat) + ", state: "@
        + text::decimal(event.state as nat) + " })"@
}

/// The text of one three-axis value.
pub open spec fn axis_text(axis: Axis3) -> Seq<char> {
    "Axis3 { x: "@ + text::signed_decimal(axis.x as int) + ", y: "@ + text::signed_decimal(
        axis.y as int,
    ) + ", z: "@ + text::signed_decimal(axis.z as int) + " }"@
}

/// The text of the first `n` values of a list.
pub open spec fn axes_text(axes: Seq<Axis3>, n: nat) -> Seq<char>
    decreases n,
{
    if n == 0 {
        Seq::empty()
    } else if n == 1 {
        axis_text(axes[0])
    } else {
        axes_text(axes, (n - 1) as nat) + ", "@ + axis_text(axes[n - 1])
    }
}

/// The text of a report that is one value.
pub open spec fn sample_text(name: Seq<char>, axis: Axis3) -> Seq<char> {
    name + "("@ + axis_text(axis) + ")"@
}

/// The text of a report that is a list of values.
pub open spec fn list_text(name: Seq<char>, axes: Seq<Axis3>) -> Seq<char> {
    name + "(["@ + axes_text(axes, axes.len()) + "])"@
}

/// The text of what an input report holds.
pub open spec fn payload_text(payload: InputPayload) -> Seq<char> {
    match payload {
        InputPayload::Key(e) => button_text("Key"@, e),
        InputPayload::Accel(a) => sample_text("Accel"@, a),
        InputPayload::Ir(a) => list_text("Ir"@, a@),
        InputPayload::BalanceBoard(a) => list_text("BalanceBoard"@, a@),
        InputPayload::MotionPlus(a) => sample_text("MotionPlus"@, a),
        InputPayload::ProControllerKey(e) => button_text("ProControllerKey"@, e),
        InputPayload::ProControllerMove(a) => list_text("ProControllerMove"@, a@),
        InputPayload::Watch => "Watch"@,
        InputPayload::ClassicControllerKey(e) => button_text("ClassicControllerKey"@, e),
        InputPayload::ClassicControllerMove(a) => list_text("ClassicControllerMove"@, a@),
        InputPayload::NunchukKey(e) => button_text("NunchukKey"@, e),
        InputPayload::NunchukMove(a) => list_text("NunchukMove"@, a@),
        InputPayload::DrumsKey(e) => button_text("DrumsKey"@, e),
        InputPayload::DrumsMove(a) => list_text("DrumsMove"@, a@),
        InputPayload::GuitarKey(e) => button_text("GuitarKey"@, e),
        InputPayload::GuitarMove(a) => list_text("GuitarMove"@, a@),
        InputPayload::Gone => "Gone"@,
        InputPayload::Unknown(code) => "Unknown("@ + text::decimal(code as nat) + ")"@,
    }
}

fn append_button(out: &mut String, name: &str, event: ButtonEvent)
    ensures
        final(out)@ == old(out)@ + button_text(name@, event),
{
    out.append(name);
    out.append("(ButtonEvent { code: ");
    text::append_decimal(out, event.code as u64);
    out.append(", state: ");
    text::append_decimal(out, event.state as u64);
    out.append(" })");
    assert(out@ =~= old(out)@ + button_text(name@, event));
}

fn append_axis(out: &mut String, axis: Axis3)
    ensures
        final(out)@ == old(out)@ + axis_text(axis),
{
    out.append("Axis3 { x: ");
    text::append_signed(out, axis.x as i64);
    out.append(", y: ");
    text::append_signed(out, axis.y as i64);
    out.append(", z: ");
    text::append_signed(out, axis.z as i64);
    out.append(" }");
    assert(out@ =~= old(out)@ + axis_text(axis));
}

fn append_sample(out: &mut String, name: &str, axis: Axis3)
    ensures
        final(out)@ == old(out)@ + sample_text(name@, axis),
{
    out.append(name);
    out.append("(");
    append_axis(out, axis);
    out.append(")");
    assert(out@ =~= old(out)@ + sample_text(name@, axis));
}

fn append_list(out: &mut String, name: &str, axes: &[Axis3])
    ensures
        final(out)@ == old(out)@ + list_text(name@, axes@),
{
    out.append(name);
    out.append("([");
    let ghost head = out@;
    let mut i: usize = 0;
    assert(out@ =~= head + axes_text(axes@, 0));
    while i < axes.len()
        invariant
            i <= axes.len(),
            out@ == head + axes_text(axes@, i as nat),
        decreases axes.len() - i,
    {
        if i > 0 {
            out.append(", ");
        }
        append_axis(out, axes[i]);
        i = i + 1;
        assert(out@ =~= head + axes_text(axes@, i as nat));
    }
    out.append("])");
    assert(out@ =~= old(out)@ + list_text(name@, axes@));
}

/// Appends what an input report holds.
pub fn append_payload(out: &mut String, payload: &InputPayload)
    ensures
        final(out)@ == old(out)@ + payload_text(*payload),
{
    match payload {
        InputPayload::Key(e) => append_button(out, "Key", *e),
        InputPayload::Accel(a) => append_sample(out, "Accel", *a),
        InputPayload::Ir(a) => append_list(out, "Ir", a.as_slice()),
        InputPayload::BalanceBoard(a) => append_list(out, "BalanceBoard", a.as_slice()),
        InputPayload::MotionPlus(a) => append_sample(out, "MotionPlus", *a),
        InputPayload::ProControllerKey(e) => append_button(out, "ProControllerKey", *e),
        InputPayload::ProControllerMove(a) => append_list(out, "ProControllerMove", a.as_slice()),
        InputPayload::Watch => out.append("Watch"),
        InputPayload::ClassicControllerKey(e) => append_button(out, "ClassicControllerKey", *e),
        InputPayload::ClassicControllerMove(a) => append_list(
            out,
            "ClassicControllerMove",
            a.as_slice(),
        ),
        InputPayload::NunchukKey(e) => append_button(out, "NunchukKey", *e),
        InputPayload::NunchukMove(a) => append_list(out, "NunchukMove", a.as_slice()),
        InputPayload::DrumsKey(e) => append_button(out, "DrumsKey", *e),
        InputPayload::DrumsMove(a) => append_list(out, "DrumsMove", a.as_slice()),
        InputPayload::GuitarKey(e) => append_button(out, "GuitarKey", *e),
        InputPayload::GuitarMove(a) => append_list(out, "GuitarMove", a.as_slice()),
        InputPayload::Gone => out.append("Gone"),
        InputPayload::Unknown(code) => {
            out.append("Unknown(");
            text::append_decimal(out, *code as u64);
            out.append(")");
            assert(out@ =~= old(out)@ + payload_text(*payload));
        },
    }
}

/// The log line of an input report.
pub open spec fn input_line(
    sequence: u64,
    syspath: Seq<char>,
    timestamp: Timestamp,
    payload: InputPayload,
) -> Seq<char> {
    "seq="@ + text::decimal(sequence as nat) + " time="@ + text::signed_decimal(
        timestamp.seconds as int,
    ) + "."@ + text::padded_decimal(timestamp.micros as nat, 6) + " device="@ + syspath + " "@
        + payload_text(payload) + "\n"@
}

/// The log line of an input report.
pub fn format_input_line(
    sequence: u64,
    syspath: &str,
    timestamp: Timestamp,
    payload: &InputPayload,
) -> (line: String)
    ensures
        line@ == input_line(sequence, syspath@, timestamp, *payload),
{
    let mut line = "seq=".to_owned();
    text::append_decimal(&mut line, sequence);
    line.append(" time=");
    text::append_signed(&mut line, timestamp.seconds);
    line.append(".");
    text::append_padded(&mut line, timestamp.micros as u64, 6);
    line.append(" device=");
    line.append(syspath);
    line.append(" ");
    append_payload(&mut line, payload);
    line.append("\n");
    assert(line@ =~= input_line(sequence, syspath@, timestamp, *payload));
    line
}

/// The log line of a new connection.
pub open spec fn connected_line(status: Status, devices: nat) -> Seq<char> {
    "Connected to wiilandd "@ + status.daemon_version@ + " (pid "@ + text::decimal(
        status.pid as nat,
    ) + "), "@ + text::decimal(devices) + " capture device(s)\n"@
}

fn format_connected_line(status: &Status, devices: usize) -> (line: String)
    ensures
        line@ == connected_line(*status, devices as nat),
{
    let mut line = "Connected to wiilandd ".to_owned();
    line.append(status.daemon_version.as_str());
    line.append(" (pid ");
    text::append_decimal(&mut line, status.pid as u64);
    line.append("), ");
    text::append_decimal(&mut line, devices as u64);
    line.append(" capture device(s)\n");
    assert(line@ =~= connected_line(*status, devices as nat));
    line
}

/// A capture that is under way.
pub struct Capture {
    session: Session,
    filter: TraceFilter,
    duration: Option<u64>,
    started: Option<u64>,
    accel: CalibrationStats,
    motion: CalibrationStats,
    failed: Option<String>,
}

/// The state of a capture.
#[verifier::ext_equal]
pub struct CaptureView {
    pub session: SessionView,
    pub filter: TraceFilter,
    /// How long a calibration captures, in milliseconds. A trace has no duration.
    pub duration: Option<u64>,
    /// When the daemon was connected, in milliseconds.
    pub started: Option<u64>,
    pub accel: Seq<Axis3>,
    pub motion: Seq<Axis3>,
    /// Why the capture is worthless.
    pub failed: Option<Seq<char>>,
}

/// The samples after one more, as long as they can be counted.
pub open spec fn with_sample(samples: Seq<Axis3>, sample: Axis3) -> Seq<Axis3> {
    if samples.len() < u64::MAX {
        samples.push(sample)
    } else {
        samples
    }
}

/// The text that a capture fails with when the device disappears.
pub open spec fn disconnected_text(syspath: Seq<char>) -> Seq<char> {
    "Device disconnected: "@ + syspath
}

impl CaptureView {
    /// The capture after it failed and asked the worker to end.
    pub open spec fn failing(self, reason: Seq<char>) -> CaptureView {
        CaptureView {
            failed: Some(reason),
            session: SessionView { cancelled: true, ..self.session },
            ..self
        }
    }

    /// The capture after an input report.
    pub open spec fn sampling(self, payload: InputPayload) -> CaptureView {
        if self.duration is None {
            self
        } else {
            match payload {
                InputPayload::Watch | InputPayload::Gone => self.failing(
                    "Device interfaces changed during calibration; capture again"@,
                ),
                InputPayload::Accel(sample) => CaptureView {
                    accel: with_sample(self.accel, sample),
                    ..self
                },
                InputPayload::MotionPlus(sample) => CaptureView {
                    motion: with_sample(self.motion, sample),
                    ..self
                },
                _ => self,
            }
        }
    }

    /// The capture after an event.
    pub open spec fn taking(self, event: SessionEvent, now: u64) -> CaptureView {
        match event {
            SessionEvent::Connected { .. } => CaptureView { started: Some(now), ..self },
            SessionEvent::Notification(Notification::Input { payload, .. }) => self.sampling(
                payload,
            ),
            SessionEvent::Notification(Notification::DeviceRemoved { syspath, .. }) => self.failing(
                disconnected_text(syspath@),
            ),
            _ => self,
        }
    }

    /// What an event adds to the log.
    pub open spec fn line(self, event: SessionEvent) -> Option<Seq<char>> {
        match event {
            SessionEvent::Connected { status, devices } => Some(
                connected_line(status, devices@.len()),
            ),
            SessionEvent::Notification(
                Notification::Input { sequence, syspath, timestamp, payload },
            ) => if self.duration is None && self.filter.admits(payload.spec_event_code()) {
                Some(input_line(sequence, syspath@, timestamp, payload))
            } else {
                None
            },
            _ => None,
        }
    }

    /// The capture after it received the oldest event.
    pub open spec fn receiving(self) -> CaptureView {
        CaptureView {
            session: SessionView {
                undelivered: self.session.undelivered.subrange(
                    1,
                    self.session.undelivered.len() as int,
                ),
                ..self.session
            },
            ..self
        }
    }

    /// The capture after at most `n` events.
    pub open spec fn drained(self, now: u64, n: nat) -> CaptureView
        decreases n,
    {
        if n == 0 || self.session.undelivered.len() == 0 {
            self
        } else {
            self.receiving().taking(self.session.undelivered[0], now).drained(now, (n - 1) as nat)
        }
    }

    /// The log after at most `n` events.
    pub open spec fn logged(self, blocks: Seq<Seq<char>>, now: u64, n: nat) -> Seq<Seq<char>>
        decreases n,
    {
        if n == 0 || self.session.undelivered.len() == 0 {
            blocks
        } else {
            let event = self.session.undelivered[0];
            self.receiving().taking(event, now).logged(
                match self.line(event) {
                    Some(line) => log::recent(log::with_text(blocks, line)),
                    None => blocks,
                },
                now,
                (n - 1) as nat,
            )
        }
    }

    /// Whether the time of a calibration is over.
    pub open spec fn expired(self, now: u64) -> bool {
        self.duration is Some && self.started is Some && now - self.started->0 >= self.duration->0
    }

    /// The capture after a calibration whose time is over asked the worker to end.
    pub open spec fn expiring(self, now: u64) -> CaptureView {
        if self.expired(now) {
            CaptureView { session: SessionView { cancelled: true, ..self.session }, ..self }
        } else {
            self
        }
    }

    /// Whether the worker has ended and every event was taken.
    pub open spec fn ended(self) -> bool {
        self.session.outcome is Some && self.session.undelivered.len() == 0
    }

    /// The capture after the result of the worker was taken.
    pub open spec fn finished(self) -> CaptureView {
        CaptureView {
            session: SessionView { outcome: None, taken: true, ..self.session },
            failed: match self.session.outcome {
                Some(Ok(_)) => None,
                _ => self.failed,
            },
            ..self
        }
    }

    /// The lines of the calibrations that the samples show.
    pub open spec fn measured(self) -> Seq<char> {
        config_text::accel_text(calibration::rest_position(self.accel)) + config_text::motion_text(
            calibration::rest_position(self.motion),
        )
    }

    /// What an ended capture gives.
    pub open spec fn end(self) -> End {
        match self.session.outcome {
            Some(Err(error)) => End::unavailable("Daemon capture: "@ + error.text()),
            _ => match self.failed {
                Some(reason) => End::unavailable(reason),
                None => if self.duration is None {
                    End::output(Seq::empty())
                } else if calibration::rest_position(self.accel) is None
                    && calibration::rest_position(self.motion) is None {
                    End::unavailable(
                        "No stable sensor samples; keep the controller still and capture again"@,
                    )
                } else {
                    End::output(vstd::utf8::encode_utf8(self.measured()))
                },
            },
        }
    }

    /// The capture after a turn, before a result is taken.
    pub open spec fn turned(self, now: u64) -> CaptureView {
        self.drained(now, MAX_EVENTS_PER_POLL as nat).expiring(now)
    }

    /// What a turn gives.
    pub open spec fn polled(self, now: u64) -> Option<End> {
        if self.turned(now).ended() {
            Some(self.turned(now).end())
        } else {
            None
        }
    }

    /// The capture after a turn.
    pub open spec fn after_poll(self, now: u64) -> CaptureView {
        if self.turned(now).ended() {
            self.turned(now).finished()
        } else {
            self.turned(now)
        }
    }
}

/// A capture over a session that has just started.
pub open spec fn fresh(
    session: SessionView,
    filter: TraceFilter,
    duration: Option<u64>,
) -> CaptureView {
    CaptureView {
        session,
        filter,
        duration,
        started: None,
        accel: Seq::empty(),
        motion: Seq::empty(),
        failed: None,
    }
}

impl View for Capture {
    type V = CaptureView;

    closed spec fn view(&self) -> CaptureView {
        CaptureView {
            session: self.session@,
            filter: self.filter,
            duration: self.duration,
            started: self.started,
            accel: self.accel@,
            motion: self.motion@,
            failed: session::optional_string(self.failed),
        }
    }
}

impl Capture {
    /// What always holds of a capture.
    pub closed spec fn well_formed(self) -> bool {
        &&& self.session.well_formed()
        &&& self.accel.well_formed()
        &&& self.motion.well_formed()
    }

    /// Starts a capture: a calibration where a duration is given, and a trace otherwise.
    pub fn start(selector: String, filter: TraceFilter, duration: Option<u64>) -> (capture: Capture)
        ensures
            capture.well_formed(),
            capture@ == fresh(
                session::started(
                    None,
                    selector@,
                    duration is Some,
                    session::DeliveryPolicy::Strict,
                ),
                filter,
                duration,
            ),
    {
        Capture::with_session(
            Session::start(None, selector, duration.is_some()),
            filter,
            duration,
        )
    }

    /// A capture over a session.
    pub fn with_session(session: Session, filter: TraceFilter, duration: Option<u64>) -> (capture:
        Capture)
        requires
            session.well_formed(),
        ensures
            capture.well_formed(),
            capture@ == fresh(session@, filter, duration),
    {
        Capture {
            session,
            filter,
            duration,
            started: None,
            accel: CalibrationStats::new(),
            motion: CalibrationStats::new(),
            failed: None,
        }
    }

    /// The session of the capture, for its worker.
    pub fn session(&mut self) -> (session: &mut Session)
        requires
            old(self).well_formed(),
        ensures
            session.well_formed(),
            session@ == old(self)@.session,
            final(session).well_formed() ==> final(self).well_formed(),
            final(self)@ == (CaptureView { session: final(session)@, ..old(self)@ }),
    {
        &mut self.session
    }

    /// Asks the worker to end.
    pub fn cancel(&mut self)
        requires
            old(self).well_formed(),
        ensures
            final(self).well_formed(),
            final(self)@ == (CaptureView {
                session: SessionView { cancelled: true, ..old(self)@.session },
                ..old(self)@
            }),
    {
        self.session.cancel();
    }

    fn fail(&mut self, reason: String)
        requires
            old(self).well_formed(),
        ensures
            final(self).well_formed(),
            final(self)@ == old(self)@.failing(reason@),
    {
        self.failed = Some(reason);
        self.session.cancel();
    }

    fn sample(&mut self, payload: &InputPayload)
        requires
            old(self).well_formed(),
        ensures
            final(self).well_formed(),
            final(self)@ == old(self)@.sampling(*payload),
    {
        if self.duration.is_none() {
            return;
        }
        match payload {
            InputPayload::Watch | InputPayload::Gone => {
                self.fail("Device interfaces changed during calibration; capture again".to_owned());
            },
            InputPayload::Accel(sample) => {
                self.accel.add(*sample);
            },
            InputPayload::MotionPlus(sample) => {
                self.motion.add(*sample);
            },
            _ => {},
        }
    }

    fn take(&mut self, event: SessionEvent, now: u64, model: &mut ConfigModel)
        requires
            old(self).well_formed(),
            old(model).well_formed(),
        ensures
            final(self).well_formed(),
            final(model).well_formed(),
            final(self)@ == old(self)@.taking(event, now),
            *final(model) == (ConfigModel { output: final(model).output, ..*old(model) }),
            final(model).output@ == (match old(self)@.line(event) {
                Some(line) => log::recent(log::with_text(old(model).output@, line)),
                None => old(model).output@,
            }),
    {
        match event {
            SessionEvent::Connected { status, devices } => {
                let line = format_connected_line(&status, devices.len());
                model.append_output(line.as_str());
                self.started = Some(now);
            },
            SessionEvent::Notification(
                Notification::Input { sequence, syspath, timestamp, payload },
            ) => {
                if self.duration.is_some() {
                    self.sample(&payload);
                } else if self.filter.matches(payload.event_code()) {
                    let line = format_input_line(sequence, syspath.as_str(), timestamp, &payload);
                    model.append_output(line.as_str());
                }
            },
            SessionEvent::Notification(Notification::DeviceRemoved { syspath, .. }) => {
                let mut reason = "Device disconnected: ".to_owned();
                reason.append(syspath.as_str());
                self.fail(reason);
            },
            _ => {},
        }
    }

    fn drain(&mut self, now: u64, model: &mut ConfigModel)
        requires
            old(self).well_formed(),
            old(model).well_formed(),
        ensures
            final(self).well_formed(),
            final(model).well_formed(),
            final(self)@ == old(self)@.drained(now, MAX_EVENTS_PER_POLL as nat),
            *final(model) == (ConfigModel { output: final(model).output, ..*old(model) }),
            final(model).output@ == old(self)@.logged(
                old(model).output@,
                now,
                MAX_EVENTS_PER_POLL as nat,
            ),
    {
        let mut left: usize = MAX_EVENTS_PER_POLL;
        while left > 0
            invariant_except_break
                self.well_formed(),
                model.well_formed(),
                left <= MAX_EVENTS_PER_POLL,
                self@.drained(now, left as nat) == old(self)@.drained(
                    now,
                    MAX_EVENTS_PER_POLL as nat,
                ),
                self@.logged(model.output@, now, left as nat) == old(self)@.logged(
                    old(model).output@,
                    now,
                    MAX_EVENTS_PER_POLL as nat,
                ),
                *model == (ConfigModel { output: model.output, ..*old(model) }),
            ensures
                self.well_formed(),
                model.well_formed(),
                self@ == old(self)@.drained(now, MAX_EVENTS_PER_POLL as nat),
                model.output@ == old(self)@.logged(
                    old(model).output@,
                    now,
                    MAX_EVENTS_PER_POLL as nat,
                ),
                *model == (ConfigModel { output: model.output, ..*old(model) }),
            decreases left,
        {
            let ghost before = self@;
            match self.session.try_recv() {
                Ok(event) => {
                    assert(self@ =~= before.receiving());
                    self.take(event, now, model);
                    left = left - 1;
                },
                Err(_) => {
                    assert(self@ =~= before);
                    break;
                },
            }
        }
    }

    fn expires(&self, now: u64) -> (r: bool)
        ensures
            r == self@.expired(now),
    {
        match (self.duration, self.started) {
            (Some(duration), Some(started)) => now >= started && now - started >= duration,
            _ => false,
        }
    }

    fn measure(&self) -> (result: ProcessResult)
        requires
            self.well_formed(),
            self@.duration is Some,
        ensures
            result@ == (CaptureView {
                session: SessionView { outcome: None, ..self@.session },
                failed: None,
                ..self@
            }).end(),
    {
        let accel = self.accel.finish();
        let motion = self.motion.finish();
        if accel.is_none() && motion.is_none() {
            return ProcessResult::unavailable(
                "No stable sensor samples; keep the controller still and capture again",
            );
        }
        let mut lines = String::new();
        config_text::append_accel(&mut lines, accel);
        config_text::append_motion(&mut lines, motion);
        assert(lines@ =~= self@.measured());
        ProcessResult::output(lines.as_str().as_bytes_vec())
    }

    fn finish(&mut self) -> (result: Option<ProcessResult>)
        requires
            old(self).well_formed(),
        ensures
            final(self).well_formed(),
            if old(self)@.ended() {
                &&& process::end_of(result) == Some(old(self)@.end())
                &&& final(self)@ == old(self)@.finished()
            } else {
                result is None && final(self)@ == old(self)@
            },
    {
        let outcome = match self.session.try_finish() {
            Ok(outcome) => outcome,
            Err(_) => {
                assert(self@ =~= old(self)@);
                return None;
            },
        };
        if let Err(error) = outcome {
            let mut reason = "Daemon capture: ".to_owned();
            let cause = error.describe();
            reason.append(cause.as_str());
            assert(self@ =~= old(self)@.finished());
            return Some(ProcessResult::unavailable(reason.as_str()));
        }
        let failed = self.failed.take();
        assert(self@ =~= old(self)@.finished());
        if let Some(reason) = failed {
            return Some(ProcessResult::unavailable(reason.as_str()));
        }
        if self.duration.is_some() {
            return Some(self.measure());
        }
        let nothing = ProcessResult::output(Vec::new());
        assert(nothing@ =~= End::output(Seq::empty()));
        Some(nothing)
    }

    /// Takes what has arrived by the time `now`, in milliseconds, and gives the result once the
    /// worker has ended. A turn has a fixed bound, as the worker has.
    pub fn poll(&mut self, now: u64, model: &mut ConfigModel) -> (result: Option<ProcessResult>)
        requires
            old(self).well_formed(),
            old(model).well_formed(),
        ensures
            final(self).well_formed(),
            final(model).well_formed(),
            *final(model) == (ConfigModel { output: final(model).output, ..*old(model) }),
            final(model).output@ == old(self)@.logged(
                old(model).output@,
                now,
                MAX_EVENTS_PER_POLL as nat,
            ),
            process::end_of(result) == old(self)@.polled(now),
            final(self)@ == old(self)@.after_poll(now),
    {
        self.drain(now, model);
        if self.expires(now) {
            self.session.cancel();
        }
        assert(self@ =~= old(self)@.turned(now));
        self.finish()
    }
}

/// The lines of the first `n` devices.
pub open spec fn device_lines(devices: Seq<DeviceInfo>, n: nat) -> Seq<char>
    decreases n,
{
    if n == 0 {
        Seq::empty()
    } else {
        device_lines(devices, (n - 1) as nat) + text::decimal(n) + "\t"@ + devices[n
            - 1].syspath@ + "\t"@ + profile_name(devices[n - 1].profile) + "\n"@
    }
}

/// The name of a profile.
pub open spec fn profile_name(profile: Profile) -> Seq<char> {
    match profile {
        Profile::Gamepad => "Gamepad"@,
        Profile::Desktop => "Desktop"@,
        Profile::Both => "Both"@,
    }
}

/// The list of the devices, each with its ordinal.
pub fn format_devices(devices: &Vec<DeviceInfo>) -> (lines: String)
    ensures
        lines@ == device_lines(devices@, devices@.len()),
{
    let mut lines = String::new();
    let mut i: usize = 0;
    assert(lines@ =~= device_lines(devices@, 0));
    while i < devices.len()
        invariant
            i <= devices.len(),
            lines@ == device_lines(devices@, i as nat),
        decreases devices.len() - i,
    {
        let device = &devices[i];
        i = i + 1;
        text::append_decimal(&mut lines, i as u64);
        lines.append("\t");
        lines.append(device.syspath.as_str());
        lines.append("\t");
        lines.append(
            match device.profile {
                Profile::Gamepad => "Gamepad",
                Profile::Desktop => "Desktop",
                Profile::Both => "Both",
            },
        );
        lines.append("\n");
        assert(lines@ =~= device_lines(devices@, i as nat));
    }
    lines
}

/// The daemon in one line.
pub open spec fn status_summary(status: Status) -> Seq<char> {
    "wiilandd "@ + status.daemon_version@ + " (pid "@ + text::decimal(status.pid as nat) + "): "@
        + text::decimal(status.device_count as nat) + " device(s)"@
}

/// The report on the running daemon.
pub open spec fn status_report(status: Status, health: Diagnostics, config: Seq<char>) -> Seq<char> {
    status_summary(status) + "\ntrace drops="@ + text::decimal(health.trace_records_dropped as nat)
        + " lifecycle drops="@ + text::decimal(health.lifecycle_records_dropped as nat)
        + " max pointer lateness="@ + text::decimal(health.max_pointer_lateness_us as nat)
        + "us max dispatch="@ + text::decimal(health.max_dispatch_duration_us as nat)
        + "us\nRunning configuration:\n"@ + config
}

/// The daemon in one line.
pub fn format_summary(status: &Status) -> (summary: String)
    ensures
        summary@ == status_summary(*status),
{
    let mut summary = "wiilandd ".to_owned();
    summary.append(status.daemon_version.as_str());
    summary.append(" (pid ");
    text::append_decimal(&mut summary, status.pid as u64);
    summary.append("): ");
    text::append_decimal(&mut summary, status.device_count as u64);
    summary.append(" device(s)");
    assert(summary@ =~= status_summary(*status));
    summary
}

/// The report on the running daemon.
pub fn format_status(status: &Status, health: &Diagnostics, config: &str) -> (report: String)
    ensures
        report@ == status_report(*status, *health, config@),
{
    let mut report = format_summary(status);
    report.append("\ntrace drops=");
    text::append_decimal(&mut report, health.trace_records_dropped);
    report.append(" lifecycle drops=");
    text::append_decimal(&mut report, health.lifecycle_records_dropped);
    report.append(" max pointer lateness=");
    text::append_decimal(&mut report, health.max_pointer_lateness_us);
    report.append("us max dispatch=");
    text::append_decimal(&mut report, health.max_dispatch_duration_us);
    report.append("us\nRunning configuration:\n");
    report.append(config);
    assert(report@ =~= status_report(*status, *health, config@));
    report
}

/// What the running daemon answered to a query.
#[derive(Debug)]
pub enum QueryResult {
    Devices(Vec<DeviceInfo>),
    Status { status: Status, diagnostics: Diagnostics, config: String },
}

impl QueryResult {
    /// The text of an answer.
    pub open spec fn text(self) -> Seq<char> {
        match self {
            QueryResult::Devices(devices) => device_lines(devices@, devices@.len()),
            QueryResult::Status { status, diagnostics, config } => status_report(
                status,
                diagnostics,
                config@,
            ),
        }
    }

    /// The text of the answer.
    pub fn describe(&self) -> (r: String)
        ensures
            r@ == self.text(),
    {
        match self {
            QueryResult::Devices(devices) => format_devices(devices),
            QueryResult::Status { status, diagnostics, config } => format_status(
                status,
                diagnostics,
                config.as_str(),
            ),
        }
    }
}

/// An answer, or why there is none.
pub open spec fn query_answer(answer: Result<QueryResult, ClientError>) -> Result<
    QueryResult,
    Seq<char>,
> {
    match answer {
        Ok(answer) => Ok(answer),
        Err(error) => Err(
            "Cannot query running daemon: "@ + error.text()
                + ". Start or upgrade the service and retry."@,
        ),
    }
}

/// A query of the running daemon.
pub struct Query {
    devices: bool,
    result: Option<Result<QueryResult, String>>,
}

/// The state of a query.
pub struct QueryView {
    /// Whether the query is for the devices.
    pub devices: bool,
    /// The answer that has arrived and was not taken.
    pub answer: Option<Result<QueryResult, Seq<char>>>,
}

/// The view of an answer.
pub open spec fn answer_view<T>(answer: Option<Result<T, String>>) -> Option<Result<T, Seq<char>>> {
    match answer {
        Some(Ok(t)) => Some(Ok(t)),
        Some(Err(t)) => Some(Err(t@)),
        None => None,
    }
}

impl View for Query {
    type V = QueryView;

    closed spec fn view(&self) -> QueryView {
        QueryView { devices: self.devices, answer: answer_view(self.result) }
    }
}

impl Query {
    /// Starts a query for the devices, or for the state of the daemon.
    pub fn start(devices: bool) -> (query: Query)
        ensures
            query@ == (QueryView { devices, answer: None }),
    {
        Query { devices, result: None }
    }

    /// Notes what the daemon answered.
    pub fn complete(&mut self, answer: Result<QueryResult, ClientError>)
        ensures
            final(self)@ == (QueryView { answer: Some(query_answer(answer)), ..old(self)@ }),
    {
        self.result = Some(
            match answer {
                Ok(answer) => Ok(answer),
                Err(error) => {
                    let mut reason = "Cannot query running daemon: ".to_owned();
                    let cause = error.describe();
                    reason.append(cause.as_str());
                    reason.append(". Start or upgrade the service and retry.");
                    Err(reason)
                },
            },
        );
    }

    /// Whether the query is for the state of the daemon.
    pub fn is_status(&self) -> (r: bool)
        ensures
            r == !self@.devices,
    {
        !self.devices
    }

    /// Takes the answer, once it has arrived.
    pub fn take(&mut self) -> (answer: Option<Result<QueryResult, String>>)
        ensures
            answer_view(answer) == old(self)@.answer,
            final(self)@ == (QueryView { answer: None, ..old(self)@ }),
    {
        self.result.take()
    }

    /// Takes the text of the answer, once it has arrived.
    pub fn poll(&mut self) -> (answer: Option<Result<String, String>>)
        ensures
            match old(self)@.answer {
                None => answer is None,
                Some(Ok(result)) => answer matches Some(Ok(t)) && t@ == result.text(),
                Some(Err(reason)) => answer matches Some(Err(t)) && t@ == reason,
            },
            final(self)@ == (QueryView { answer: None, ..old(self)@ }),
    {
        match self.take() {
            None => None,
            Some(Ok(result)) => Some(Ok(result.describe())),
            Some(Err(reason)) => Some(Err(reason)),
        }
    }
}

proof fn lemma_failure_stays(view: CaptureView, now: u64, n: nat)
    requires
        view.failed is Some,
    ensures
        view.drained(now, n).failed is Some,
        view.drained(now, n).session.cancelled || !view.session.cancelled,
    decreases n,
{
    if n > 0 && view.session.undelivered.len() > 0 {
        lemma_failure_stays(
            view.receiving().taking(view.session.undelivered[0], now),
            now,
            (n - 1) as nat,
        );
    }
}

/// A capture that lost its device gives no calibration, however steady the samples were.
pub proof fn device_loss_rejects_the_capture(view: CaptureView, now: u64)
    requires
        view.failed is Some,
    ensures
        view.polled(now) matches Some(end) ==> !end.success && end.stdout.len() == 0,
{
    lemma_failure_stays(view, now, MAX_EVENTS_PER_POLL as nat);
}

/// Calibrations are written one by one: a sensor without steady samples leaves no line.
pub proof fn calibrations_are_independent(view: CaptureView)
    ensures
        calibration::rest_position(view.motion) is None ==> view.measured()
            == config_text::accel_text(calibration::rest_position(view.accel)),
        calibration::rest_position(view.accel) is None ==> view.measured()
            == config_text::motion_text(calibration::rest_position(view.motion)),
{
    assert(Seq::<char>::empty() + config_text::motion_text(
        calibration::rest_position(view.motion),
    ) =~= config_text::motion_text(calibration::rest_position(view.motion)));
    assert(config_text::accel_text(calibration::rest_position(view.accel)) + Seq::<char>::empty()
        =~= config_text::accel_text(calibration::rest_position(view.accel)));
}

} // verus!
