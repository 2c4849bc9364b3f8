//! The read-only view of the daemon's reports: what a terminal shows of one device.
use crate::hid::{EventKind, Interface, InterfaceMask};
use crate::input::{Button, ButtonEvent, ButtonState};
use crate::protocol;
use crate::protocol::{DeviceInfo, InputPayload, Notification, Status, Timestamp};
use crate::session;
use crate::session::{Session, SessionEvent, SessionView};
use crate::text;
use vstd::prelude::*;
use vstd::string::*;

verus! {

/// How many events one frame shows at most.
pub const EVENTS_PER_FRAME: usize = 256;

/// The panels of a device that are shown.
#[derive(Clone, Copy, Debug, PartialEq, Eq, Structural)]
pub struct Panels {
    pub keys_enabled: bool,
    pub accel_enabled: bool,
    pub ir_enabled: bool,
    pub motion_plus_enabled: bool,
    pub nunchuk_enabled: bool,
    pub classic_enabled: bool,
    pub balance_enabled: bool,
    pub pro_enabled: bool,
    pub drums_enabled: bool,
    pub guitar_enabled: bool,
}

/// The panels of the interfaces that are open.
pub open spec fn panels_of(bits: u32) -> Panels {
    Panels {
        keys_enabled: bits & Interface::Core.spec_bit() != 0,
        accel_enabled: bits & Interface::Accel.spec_bit() != 0,
        ir_enabled: bits & Interface::Ir.spec_bit() != 0,
        motion_plus_enabled: bits & Interface::MotionPlus.spec_bit() != 0,
        nunchuk_enabled: bits & Interface::Nunchuk.spec_bit() != 0,
        classic_enabled: bits & Interface::ClassicController.spec_bit() != 0,
        balance_enabled: bits & Interface::BalanceBoard.spec_bit() != 0,
        pro_enabled: bits & Interface::ProController.spec_bit() != 0,
        drums_enabled: bits & Interface::Drums.spec_bit() != 0,
        guitar_enabled: bits & Interface::Guitar.spec_bit() != 0,
    }
}

/// Shows the panels of the interfaces that are open.
pub fn configure(bits: u32) -> (panels: Panels)
    ensures
        panels == panels_of(bits),
{
    let mask = InterfaceMask::from_bits(bits);
    proof {
        assert(mask.has(Interface::Core) == mask.core);
        assert(mask.has(Interface::Accel) == mask.accel);
        assert(mask.has(Interface::Ir) == mask.ir);
        assert(mask.has(Interface::MotionPlus) == mask.motion_plus);
        assert(mask.has(Interface::Nunchuk) == mask.nunchuk);
        assert(mask.has(Interface::ClassicController) == mask.classic);
        assert(mask.has(Interface::BalanceBoard) == mask.balance);
        assert(mask.has(Interface::ProController) == mask.pro);
        assert(mask.has(Interface::Drums) == mask.drums);
        assert(mask.has(Interface::Guitar) == mask.guitar);
    }
    Panels {
        keys_enabled: mask.core,
        accel_enabled: mask.accel,
        ir_enabled: mask.ir,
        motion_plus_enabled: mask.motion_plus,
        nunchuk_enabled: mask.nunchuk,
        classic_enabled: mask.classic,
        balance_enabled: mask.balance,
        pro_enabled: mask.pro,
        drums_enabled: mask.drums,
        guitar_enabled: mask.guitar,
    }
}

/// The button transition that numbers stand for, if they stand for one.
pub open spec fn transition_of(v: protocol::ButtonEvent) -> Option<ButtonEvent> {
    match (Button::spec_from_code(v.code), ButtonState::spec_from_value(v.state)) {
        (Some(button), Some(state)) => Some(ButtonEvent { button, state }),
        _ => None,
    }
}

/// The button transition that numbers stand for, if they stand for one.
pub fn button(v: protocol::ButtonEvent) -> (event: Option<ButtonEvent>)
    ensures
        event == transition_of(v),
{
    match Button::from_code(v.code) {
        None => None,
        Some(button) => match ButtonState::from_value(v.state) {
            None => None,
            Some(state) => Some(ButtonEvent { button, state }),
        },
    }
}

/// The report that a payload stands for. A button or a state that does not exist makes it none.
pub open spec fn report_of(payload: InputPayload) -> Option<EventKind> {
    match payload {
        InputPayload::Key(v) => match transition_of(v) {
            Some(key) => Some(EventKind::Key(key)),
            None => None,
        },
        InputPayload::Accel(v) => Some(EventKind::Accel(v)),
        InputPayload::Ir(v) => Some(EventKind::Ir(v)),
        InputPayload::BalanceBoard(v) => Some(EventKind::BalanceBoard(v)),
        InputPayload::MotionPlus(v) => Some(EventKind::MotionPlus(v)),
        InputPayload::ProControllerKey(v) => match transition_of(v) {
            Some(key) => Some(EventKind::ProControllerKey(key)),
            None => None,
        },
        InputPayload::ProControllerMove(v) => Some(EventKind::ProControllerMove(v)),
        InputPayload::Watch => Some(EventKind::Watch),
        InputPayload::ClassicControllerKey(v) => match transition_of(v) {
            Some(key) => Some(EventKind::ClassicControllerKey(key)),
            None => None,
        },
        InputPayload::ClassicControllerMove(v) => Some(EventKind::ClassicControllerMove(v)),
        InputPayload::NunchukKey(v) => match transition_of(v) {
            Some(key) => Some(EventKind::NunchukKey(key)),
            None => None,
        },
        InputPayload::NunchukMove(v) => Some(EventKind::NunchukMove(v)),
        InputPayload::DrumsKey(v) => match transition_of(v) {
            Some(key) => Some(EventKind::DrumsKey(key)),
            None => None,
        },
        InputPayload::DrumsMove(v) => Some(EventKind::DrumsMove(v)),
        InputPayload::GuitarKey(v) => match transition_of(v) {
            Some(key) => Some(EventKind::GuitarKey(key)),
            None => None,
        },
        InputPayload::GuitarMove(v) => Some(EventKind::GuitarMove(v)),
        InputPayload::Gone => Some(EventKind::Gone),
        InputPayload::Unknown(v) => Some(EventKind::Unknown(v)),
    }
}

/// The report that a payload stands for.
pub fn input(payload: InputPayload) -> (kind: Option<EventKind>)
    ensures
        kind == report_of(payload),
{
    match payload {
        InputPayload::Key(v) => match button(v) {
            Some(key) => Some(EventKind::Key(key)),
            None => None,
        },
        InputPayload::Accel(v) => Some(EventKind::Accel(v)),
        InputPayload::Ir(v) => Some(EventKind::Ir(v)),
        InputPayload::BalanceBoard(v) => Some(EventKind::BalanceBoard(v)),
        InputPayload::MotionPlus(v) => Some(EventKind::MotionPlus(v)),
        InputPayload::ProControllerKey(v) => match button(v) {
            Some(key) => Some(EventKind::ProControllerKey(key)),
            None => None,
        },
        InputPayload::ProControllerMove(v) => Some(EventKind::ProControllerMove(v)),
        InputPayload::Watch => Some(EventKind::Watch),
        InputPayload::ClassicControllerKey(v) => match button(v) {
            Some(key) => Some(EventKind::ClassicControllerKey(key)),
            None => None,
        },
        InputPayload::ClassicControllerMove(v) => Some(EventKind::ClassicControllerMove(v)),
        InputPayload::NunchukKey(v) => match button(v) {
            Some(key) => Some(EventKind::NunchukKey(key)),
            None => None,
        },
        InputPayload::NunchukMove(v) => Some(EventKind::NunchukMove(v)),
        InputPayload::DrumsKey(v) => match button(v) {
            Some(key) => Some(EventKind::DrumsKey(key)),
            None => None,
        },
        InputPayload::DrumsMove(v) => Some(EventKind::DrumsMove(v)),
        InputPayload::GuitarKey(v) => match button(v) {
            Some(key) => Some(EventKind::GuitarKey(key)),
            None => None,
        },
        InputPayload::GuitarMove(v) => Some(EventKind::GuitarMove(v)),
        InputPayload::Gone => Some(EventKind::Gone),
        InputPayload::Unknown(v) => Some(EventKind::Unknown(v)),
    }
}

/// A button transition as numbers.
pub open spec fn numbers_of(key: ButtonEvent) -> protocol::ButtonEvent {
    protocol::ButtonEvent { code: key.button.spec_code(), state: key.state.spec_value() }
}

/// Writing a button transition as numbers and reading the numbers gives the transition back.
pub proof fn transitions_read_back(key: ButtonEvent)
    ensures
        transition_of(numbers_of(key)) == Some(key),
{
    crate::input::button_codes_identify_buttons(key.button, key.button, key.button.spec_code());
}

/// The report of a payload has the payload's event type.
pub proof fn reports_keep_their_type(payload: InputPayload)
    requires
        report_of(payload) is Some,
    ensures
        report_of(payload)->0.spec_code() == payload.spec_event_code(),
{
}

/// The smallest terminal that the view fits in.
pub const MIN_WIDTH: u16 = 80;

/// The smallest terminal that the view fits in.
pub const MIN_HEIGHT: u16 = 24;

/// What keeps a terminal from showing the view.
pub open spec fn obstacle(
    input: bool,
    output: bool,
    term: Option<Seq<char>>,
    width: u16,
    height: u16,
) -> Option<Seq<char>> {
    if !input || !output {
        Some("interactive UI requires a terminal on stdin and stdout"@)
    } else if term is None || term->0.len() == 0 || term->0 == "dumb"@ {
        Some("interactive UI requires a usable TERM value"@)
    } else if width < MIN_WIDTH || height < MIN_HEIGHT {
        Some("interactive UI requires a terminal at least 80 columns by 24 lines"@)
    } else {
        None
    }
}

/// What keeps a terminal from showing the view: its ends, its kind, or its size.
pub fn terminal_problem(
    input: bool,
    output: bool,
    term: Option<&str>,
    width: u16,
    height: u16,
) -> (problem: Option<&'static str>)
    ensures
        crate::config::optional_text(problem) == obstacle(
            input,
            output,
            crate::config::optional_text(term),
            width,
            height,
        ),
{
    if !input || !output {
        return Some("interactive UI requires a terminal on stdin and stdout");
    }
    let usable = match term {
        Some(term) => !term.is_empty() && !text::same_text(term, "dumb"),
        None => false,
    };
    if !usable {
        return Some("interactive UI requires a usable TERM value");
    }
    if width < MIN_WIDTH || height < MIN_HEIGHT {
        return Some("interactive UI requires a terminal at least 80 columns by 24 lines");
    }
    None
}

/// What a frame adds to the view.
#[derive(Debug)]
pub enum Update {
    /// A line for the user.
    Info(String),
    /// The panels of the device.
    Show(Panels),
    /// A report of the device.
    Report { time: Timestamp, kind: EventKind },
}

/// What a frame adds to the view.
pub enum UpdateView {
    Info(Seq<char>),
    Show(Panels),
    Report { time: Timestamp, kind: EventKind },
}

impl View for Update {
    type V = UpdateView;

    open spec fn view(&self) -> UpdateView {
        match self {
            Update::Info(line) => UpdateView::Info(line@),
            Update::Show(panels) => UpdateView::Show(*panels),
            Update::Report { time, kind } => UpdateView::Report { time: *time, kind: *kind },
        }
    }
}

/// The views of updates.
pub open spec fn update_views(updates: Seq<Update>) -> Seq<UpdateView> {
    updates.map_values(|update: Update| update@)
}

/// The line of a new connection.
pub open spec fn greeting(status: Status) -> Seq<char> {
    "Connected to wiilandd "@ + status.daemon_version@ + " (pid "@ + text::decimal(
        status.pid as nat,
    ) + ")"@
}

/// What an event adds to the view.
pub open spec fn updates_of(event: SessionEvent) -> Seq<UpdateView> {
    match event {
        SessionEvent::Connected { status, devices } => if devices@.len() > 0 {
            seq![
                UpdateView::Info(greeting(status)),
                UpdateView::Show(panels_of(devices@[0].opened_interfaces)),
            ]
        } else {
            seq![UpdateView::Info(greeting(status))]
        },
        SessionEvent::Notification(Notification::Input { timestamp, payload, .. }) =>
            match report_of(payload) {
                Some(kind) => seq![UpdateView::Report { time: timestamp, kind }],
                None => Seq::empty(),
            },
        _ => Seq::empty(),
    }
}

/// Whether an event says that the device went away.
pub open spec fn is_loss(event: SessionEvent) -> bool {
    event matches SessionEvent::Notification(Notification::DeviceRemoved { .. })
}

/// What one frame makes of the events that wait.
#[verifier::ext_equal]
pub struct Frame {
    /// The events that still wait.
    pub left: Seq<SessionEvent>,
    pub updates: Seq<UpdateView>,
    /// Whether the device went away.
    pub lost: bool,
}

/// What at most `n` events make of a frame.
pub open spec fn frame_after(frame: Frame, n: nat) -> Frame
    decreases n,
{
    if n == 0 || frame.left.len() == 0 || frame.lost {
        frame
    } else {
        frame_after(
            Frame {
                left: frame.left.subrange(1, frame.left.len() as int),
                updates: frame.updates + updates_of(frame.left[0]),
                lost: is_loss(frame.left[0]),
            },
            (n - 1) as nat,
        )
    }
}

fn append_updates(updates: &mut Vec<Update>, event: SessionEvent) -> (lost: bool)
    ensures
        update_views(final(updates)@) == update_views(old(updates)@) + updates_of(event),
        lost == is_loss(event),
{
    match event {
        SessionEvent::Connected { status, devices } => {
            let mut line = "Connected to wiilandd ".to_owned();
            line.append(status.daemon_version.as_str());
            line.append(" (pid ");
            text::append_decimal(&mut line, status.pid as u64);
            line.append(")");
            assert(line@ =~= greeting(status));
            updates.push(Update::Info(line));
            if devices.len() > 0 {
                updates.push(Update::Show(configure(devices[0].opened_interfaces)));
            }
            assert(update_views(updates@) =~= update_views(old(updates)@) + updates_of(event));
            false
        },
        SessionEvent::Notification(Notification::Input { timestamp, payload, .. }) => {
            match input(payload) {
                Some(kind) => updates.push(Update::Report { time: timestamp, kind }),
                None => {},
            }
            assert(update_views(updates@) =~= update_views(old(updates)@) + updates_of(event));
            false
        },
        SessionEvent::Notification(Notification::DeviceRemoved { .. }) => {
            assert(update_views(updates@) =~= update_views(old(updates)@) + updates_of(event));
            true
        },
        _ => {
            assert(update_views(updates@) =~= update_views(old(updates)@) + updates_of(event));
            false
        },
    }
}

/// What comes after a frame.
#[derive(Debug)]
pub enum Turn {
    /// The frame is drawn, and the next key is read.
    Draw,
    /// The view ends: the session is over.
    Done,
    /// The view ends with this reason.
    Failed(String),
}

/// Whether a turn is the one that a frame ends in.
pub open spec fn ends_in(frame: Frame, session: SessionView, turn: Turn) -> bool {
    if frame.lost {
        turn matches Turn::Failed(reason) && reason@ == "Device disconnected"@
    } else if frame.left.len() > 0 {
        turn is Draw
    } else {
        match session.outcome {
            None => turn is Draw,
            Some(Ok(_)) => turn is Done,
            Some(Err(error)) => turn matches Turn::Failed(reason) && reason@ == error.text(),
        }
    }
}

/// What a key does.
#[derive(Clone, Copy, Debug, PartialEq, Eq, Structural)]
pub enum KeyStep {
    Quit,
    /// The view was frozen, or runs again.
    Toggled,
    /// The key does nothing here.
    Hint,
}

/// The line for a key that does nothing.
pub const KEY_HINT: &'static str = "Hardware controls require --direct; q quits and f freezes";

/// The line that the view starts with.
pub const START_HINT: &'static str =
    "Daemon capture: q quit, f freeze; hardware controls require --direct";

/// The view of one device.
pub struct Viewer {
    pub session: Session,
    pub frozen: bool,
}

impl View for Viewer {
    type V = SessionView;

    open spec fn view(&self) -> SessionView {
        self.session@
    }
}

impl Viewer {
    /// What always holds of a view.
    pub open spec fn well_formed(self) -> bool {
        self.session.well_formed()
    }

    /// The path of the device that is shown.
    pub fn device_path(devices: Vec<DeviceInfo>, selector: &str) -> (path: Result<String, String>)
        ensures
            match session::selection(devices@, selector@, true) {
                Some(chosen) => path matches Ok(p) && p@ == chosen[0].syspath@,
                None => path matches Err(reason) && reason@ == "IPC I/O error: "@
                    + "no daemon device matches the selector"@,
            },
    {
        match session::select_devices(devices, selector, true) {
            Ok(chosen) => Ok(chosen[0].syspath.clone()),
            Err(error) => Err(error.describe()),
        }
    }

    /// Starts to show a device.
    pub fn start(socket: Option<String>, path: String) -> (viewer: Viewer)
        ensures
            viewer.well_formed(),
            !viewer.frozen,
            viewer@ == session::started(
                session::optional_string(socket),
                path@,
                true,
                session::DeliveryPolicy::Strict,
            ),
    {
        Viewer { session: Session::start(socket, path, true), frozen: false }
    }

    fn drain(&mut self, updates: &mut Vec<Update>) -> (lost: bool)
        requires
            old(self).well_formed(),
        ensures
            final(self).well_formed(),
            final(self).frozen == old(self).frozen,
            ({
                let frame = frame_after(
                    Frame {
                        left: old(self)@.undelivered,
                        updates: update_views(old(updates)@),
                        lost: false,
                    },
                    EVENTS_PER_FRAME as nat,
                );
                &&& lost == frame.lost
                &&& update_views(final(updates)@) == frame.updates
                &&& final(self)@ == (SessionView { undelivered: frame.left, ..old(self)@ })
            }),
    {
        let mut n: usize = EVENTS_PER_FRAME;
        let mut lost = false;
        let ghost whole = frame_after(
            Frame {
                left: self@.undelivered,
                updates: update_views(updates@),
                lost: false,
            },
            EVENTS_PER_FRAME as nat,
        );
        while n > 0 && !lost
            invariant_except_break
                self.well_formed(),
                self.frozen == old(self).frozen,
                self@ == (SessionView { undelivered: self@.undelivered, ..old(self)@ }),
                frame_after(
                    Frame { left: self@.undelivered, updates: update_views(updates@), lost },
                    n as nat,
                ) == whole,
            ensures
                self.well_formed(),
                self.frozen == old(self).frozen,
                self@ == (SessionView { undelivered: whole.left, ..old(self)@ }),
                update_views(updates@) == whole.updates,
                lost == whole.lost,
            decreases n,
        {
            match self.session.try_recv() {
                Ok(event) => {
                    lost = append_updates(updates, event);
                    n = n - 1;
                },
                Err(_) => {
                    break;
                },
            }
        }
        lost
    }

    /// Takes what has arrived for one frame, and tells what comes after it.
    pub fn turn(&mut self, updates: &mut Vec<Update>) -> (turn: Turn)
        requires
            old(self).well_formed(),
        ensures
            final(self).well_formed(),
            final(self).frozen == old(self).frozen,
            ({
                let frame = frame_after(
                    Frame {
                        left: old(self)@.undelivered,
                        updates: update_views(old(updates)@),
                        lost: false,
                    },
                    EVENTS_PER_FRAME as nat,
                );
                &&& update_views(final(updates)@) == frame.updates
                &&& ends_in(frame, old(self)@, turn)
                &&& final(self)@ == (SessionView {
                    undelivered: frame.left,
                    outcome: if turn is Draw || frame.lost {
                        old(self)@.outcome
                    } else {
                        None
                    },
                    taken: if turn is Draw || frame.lost {
                        old(self)@.taken
                    } else {
                        true
                    },
                    ..old(self)@
                })
            }),
    {
        if self.drain(updates) {
            return Turn::Failed("Device disconnected".to_owned());
        }
        match self.session.try_finish() {
            Ok(Ok(_)) => Turn::Done,
            Ok(Err(error)) => Turn::Failed(error.describe()),
            Err(_) => Turn::Draw,
        }
    }

    /// What a key does.
    pub fn key(&mut self, key: Option<char>) -> (step: KeyStep)
        ensures
            step == (if key == Some('q') {
                KeyStep::Quit
            } else if key == Some('f') {
                KeyStep::Toggled
            } else {
                KeyStep::Hint
            }),
            *final(self) == (Viewer {
                frozen: if key == Some('f') {
                    !old(self).frozen
                } else {
                    old(self).frozen
                },
                ..*old(self)
            }),
    {
        match key {
            Some(c) => {
                if c == 'q' {
                    KeyStep::Quit
                } else if c == 'f' {
                    self.frozen = !self.frozen;
                    KeyStep::Toggled
                } else {
                    KeyStep::Hint
                }
            },
            None => KeyStep::Hint,
        }
    }
}

/// The list of the devices, each with its ordinal.
pub open spec fn path_lines(devices: Seq<DeviceInfo>, n: nat) -> Seq<char>
    decreases n,
{
    if n == 0 {
        Seq::empty()
    } else {
        path_lines(devices, (n - 1) as nat) + text::decimal(n) + "\t"@ + devices[n - 1].syspath@
            + "\n"@
    }
}

/// The list of the devices, each with its ordinal.
pub fn list(devices: &Vec<DeviceInfo>) -> (lines: String)
    ensures
        lines@ == path_lines(devices@, devices@.len()),
{
    let mut lines = String::new();
    let mut i: usize = 0;
    assert(lines@ =~= path_lines(devices@, 0));
    while i < devices.len()
        invariant
            i <= devices.len(),
            lines@ == path_lines(devices@, i as nat),
        decreases devices.len() - i,
    {
        let device = &devices[i];
        i = i + 1;
        text::append_decimal(&mut lines, i as u64);
        lines.append("\t");
        lines.append(device.syspath.as_str());
        lines.append("\n");
        assert(lines@ =~= path_lines(devices@, i as nat));
    }
    lines
}

} // verus!
