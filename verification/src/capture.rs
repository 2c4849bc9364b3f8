//! Setting up a capture, one command at a time, and the notifications that belong to it.
use crate::client::ClientError;
use crate::failure::{IoFailure, IoKind};
use crate::protocol::{DeviceInfo, Notification, Status};
use crate::session;
use crate::session::select_devices;
use vstd::prelude::*;

verus! {

/// What a capture setup does next.
#[derive(Debug)]
pub enum SetupAction {
    /// Connect to the daemon.
    Connect,
    /// Ask for the status.
    RequestStatus,
    /// Ask for the devices.
    RequestDevices,
    /// Subscribe to every notification.
    Subscribe,
    /// Start to capture the device with this path.
    StartCapture(String),
    /// The capture is set up.
    Ready,
}

/// What has just succeeded.
#[derive(Debug)]
pub enum SetupEvent {
    Begin,
    Connected,
    Status(Status),
    Devices(Vec<DeviceInfo>),
    Subscribed,
    CaptureStarted(DeviceInfo),
}

/// A snapshot of the selected devices and of what was set up for them.
pub struct CaptureConnection {
    pub selector: String,
    pub single: bool,
    pub status: Option<Status>,
    pub devices: Vec<DeviceInfo>,
    /// How many of the devices are captured.
    pub captured: usize,
}

/// The error of a setup that was cancelled.
pub open spec fn is_cancellation(error: ClientError) -> bool {
    error matches ClientError::Io(failure) && failure.is(IoKind::Interrupted, "capture cancelled"@)
}

/// Whether an action starts to capture a device with this path.
pub open spec fn starts(action: SetupAction, path: Seq<char>) -> bool {
    action matches SetupAction::StartCapture(syspath) && syspath@ == path
}

fn proceed(cancelled: bool, action: SetupAction) -> (result: Result<SetupAction, ClientError>)
    ensures
        match result {
            Ok(next) => !cancelled && next == action,
            Err(error) => cancelled && is_cancellation(error),
        },
{
    if cancelled {
        Err(ClientError::Io(IoFailure::new(IoKind::Interrupted, "capture cancelled")))
    } else {
        Ok(action)
    }
}

impl CaptureConnection {
    /// Whether no more devices are captured than there are.
    pub open spec fn well_formed(self) -> bool {
        self.captured <= self.devices@.len()
    }

    /// A capture of which nothing is set up.
    pub fn new(selector: String, single: bool) -> (connection: CaptureConnection)
        ensures
            connection.well_formed(),
            connection.selector == selector,
            connection.single == single,
            connection.status is None,
            connection.devices@.len() == 0,
            connection.captured == 0,
    {
        CaptureConnection { selector, single, status: None, devices: Vec::new(), captured: 0 }
    }

    /// What follows the devices that are captured: the next device, or the end.
    pub open spec fn follows(self, cancelled: bool, result: Result<SetupAction, ClientError>) -> bool {
        match result {
            Err(error) => cancelled && is_cancellation(error),
            Ok(action) => !cancelled && if self.captured < self.devices@.len() {
                starts(action, self.devices@[self.captured as int].syspath@)
            } else {
                action == SetupAction::Ready
            },
        }
    }

    fn next_device(&self, cancelled: bool) -> (result: Result<SetupAction, ClientError>)
        requires
            self.well_formed(),
        ensures
            self.follows(cancelled, result),
    {
        if self.captured < self.devices.len() {
            let path = self.devices[self.captured].syspath.clone();
            proceed(cancelled, SetupAction::StartCapture(path))
        } else {
            proceed(cancelled, SetupAction::Ready)
        }
    }

    /// Takes what has just succeeded and says what to do next. Cancellation is looked at between
    /// commands: it never interrupts one, and no command follows it.
    pub fn connect_cancellable(&mut self, event: SetupEvent, cancelled: bool) -> (result: Result<
        SetupAction,
        ClientError,
    >)
        requires
            old(self).well_formed(),
            event is CaptureStarted ==> old(self).captured < old(self).devices@.len(),
        ensures
            final(self).well_formed(),
            final(self).selector == old(self).selector,
            final(self).single == old(self).single,
            match event {
                SetupEvent::Begin => {
                    &&& *final(self) == *old(self)
                    &&& match result {
                        Ok(action) => !cancelled && action == SetupAction::Connect,
                        Err(error) => cancelled && is_cancellation(error),
                    }
                },
                SetupEvent::Connected => {
                    &&& *final(self) == *old(self)
                    &&& match result {
                        Ok(action) => !cancelled && action == SetupAction::RequestStatus,
                        Err(error) => cancelled && is_cancellation(error),
                    }
                },
                SetupEvent::Status(status) => {
                    &&& *final(self) == (CaptureConnection { status: Some(status), ..*old(self) })
                    &&& match result {
                        Ok(action) => !cancelled && action == SetupAction::RequestDevices,
                        Err(error) => cancelled && is_cancellation(error),
                    }
                },
                SetupEvent::Devices(devices) => match session::selection(
                    devices@,
                    old(self).selector@,
                    old(self).single,
                ) {
                    Some(selected) => {
                        &&& final(self).devices@ == selected
                        &&& final(self).captured == 0
                        &&& final(self).status == old(self).status
                        &&& match result {
                            Ok(action) => !cancelled && action == SetupAction::Subscribe,
                            Err(error) => cancelled && is_cancellation(error),
                        }
                    },
                    None => {
                        &&& *final(self) == *old(self)
                        &&& result matches Err(ClientError::Io(failure)) && failure.is(
                            IoKind::InvalidInput,
                            "no daemon device matches the selector"@,
                        )
                    },
                },
                SetupEvent::Subscribed => {
                    &&& *final(self) == *old(self)
                    &&& old(self).follows(cancelled, result)
                },
                SetupEvent::CaptureStarted(device) => {
                    &&& final(self).devices@ == old(self).devices@.update(
                        old(self).captured as int,
                        device,
                    )
                    &&& final(self).captured == old(self).captured + 1
                    &&& final(self).status == old(self).status
                    &&& final(self).follows(cancelled, result)
                },
            },
    {
        match event {
            SetupEvent::Begin => proceed(cancelled, SetupAction::Connect),
            SetupEvent::Connected => proceed(cancelled, SetupAction::RequestStatus),
            SetupEvent::Status(status) => {
                self.status = Some(status);
                proceed(cancelled, SetupAction::RequestDevices)
            },
            SetupEvent::Devices(devices) => match select_devices(
                devices,
                self.selector.as_str(),
                self.single,
            ) {
                Err(error) => Err(error),
                Ok(selected) => {
                    self.devices = selected;
                    self.captured = 0;
                    proceed(cancelled, SetupAction::Subscribe)
                },
            },
            SetupEvent::Subscribed => self.next_device(cancelled),
            SetupEvent::CaptureStarted(device) => {
                let index = self.captured;
                assert(index < self.devices.len());
                self.devices.set(index, device);
                self.captured = index + 1;
                self.next_device(cancelled)
            },
        }
    }

    /// Whether a notification belongs to a capture: it is about no device, or about one of these.
    pub open spec fn concerns(self, notification: Notification) -> bool {
        match notification.subject() {
            None => true,
            Some(path) => exists|i: int|
                0 <= i < self.devices@.len() && (#[trigger] self.devices@[i]).syspath@ == path,
        }
    }

    /// Leaves out the notifications about devices that were not selected.
    pub fn next_event(&self, event: Notification) -> (kept: Option<Notification>)
        ensures
            kept == (if self.concerns(event) {
                Some(event)
            } else {
                None
            }),
    {
        let selected = match &event {
            Notification::Input { syspath, .. } => self.has_device(syspath),
            Notification::DeviceRemoved { syspath, .. } => self.has_device(syspath),
            Notification::DeviceAdded { device, .. } => self.has_device(&device.syspath),
            Notification::Unsupported => true,
        };
        if selected {
            Some(event)
        } else {
            None
        }
    }

    fn has_device(&self, path: &String) -> (r: bool)
        ensures
            r == (exists|i: int|
                0 <= i < self.devices@.len() && (#[trigger] self.devices@[i]).syspath@ == path@),
    {
        let mut i: usize = 0;
        while i < self.devices.len()
            invariant
                i <= self.devices.len(),
                forall|k: int| 0 <= k < i ==> (#[trigger] self.devices@[k]).syspath@ != path@,
            decreases self.devices.len() - i,
        {
            if self.devices[i].syspath == *path {
                return true;
            }
            i = i + 1;
        }
        false
    }
}

/// A capture is ready only when every selected device is captured, and nothing follows a
/// cancellation.
pub proof fn readiness_means_everything_is_captured(
    connection: CaptureConnection,
    cancelled: bool,
    result: Result<SetupAction, ClientError>,
)
    requires
        connection.well_formed(),
        connection.follows(cancelled, result),
    ensures
        result matches Ok(SetupAction::Ready) ==> connection.captured == connection.devices@.len(),
        cancelled ==> result is Err,
{
}

} // verus!
