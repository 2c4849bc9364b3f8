use wiiland::client::ClientError;
use wiiland::config::Profile;
use wiiland::protocol::{
    Axis3, ButtonEvent, DeviceInfo, InputPayload, Notification, RemovalReason, Status, Timestamp,
};
use wiiland::session::{
    select_devices, DeliveryPolicy, EventQueue, Session, SessionEvent, TryRecvError, EVENT_QUEUE,
};

fn sample(sequence: u64, key: Option<u32>) -> SessionEvent {
    SessionEvent::Notification(Notification::Input {
        sequence,
        syspath: "/sys/test".into(),
        timestamp: Timestamp { seconds: 0, micros: 0 },
        payload: key.map_or_else(
            || InputPayload::Accel(Axis3 { x: sequence as i32, y: 0, z: 0 }),
            |state| InputPayload::Key(ButtonEvent { code: 4, state }),
        ),
    })
}

#[test]
fn stalled_visualization_preserves_controls_and_latest_sensor_in_wire_order() {
    let mut queue = EventQueue::new(DeliveryPolicy::LatestSensors);
    queue.send(sample(0, Some(1))).unwrap();
    for sequence in 1..=2000 {
        queue.send(sample(sequence, None)).unwrap();
    }
    queue.send(sample(2001, Some(0))).unwrap();
    queue
        .send(SessionEvent::Notification(Notification::DeviceRemoved {
            sequence: 2002,
            syspath: "/sys/test".into(),
            reason: RemovalReason::Gone,
        }))
        .unwrap();
    assert_eq!(queue.len(), EVENT_QUEUE);
    assert_eq!(queue.coalesced(), 2003 - EVENT_QUEUE as u64);
    let mut sequences = Vec::new();
    let mut buttons = Vec::new();
    while let Ok(event) = queue.try_recv() {
        match event {
            SessionEvent::Notification(Notification::Input { sequence, payload, .. }) => {
                sequences.push(sequence);
                if let InputPayload::Key(button) = payload {
                    buttons.push(button.state);
                }
            }
            SessionEvent::Notification(Notification::DeviceRemoved { sequence, .. }) => {
                sequences.push(sequence)
            }
            _ => panic!("unexpected event"),
        }
    }
    assert_eq!(buttons, [1, 0]);
    assert!(sequences.contains(&2000));
    assert_eq!(sequences.last(), Some(&2002));
    assert!(sequences.windows(2).all(|pair| pair[0] < pair[1]));
}

#[test]
fn visualization_discards_samples_but_fails_explicitly_when_controls_overflow() {
    let mut queue = EventQueue::new(DeliveryPolicy::LatestSensors);
    for sequence in 0..EVENT_QUEUE as u64 {
        queue.send(sample(sequence, Some(1))).unwrap();
    }
    queue.send(sample(1000, None)).unwrap();
    assert_eq!(queue.coalesced(), 1);
    assert!(matches!(
        queue.send(sample(1001, Some(0))),
        Err(ClientError::SessionBacklogExceeded { .. })
    ));
    assert_eq!(queue.len(), EVENT_QUEUE);
}

#[test]
fn full_queue_fails_explicitly_and_completion_waits_for_last_event() {
    let mut session = Session::start(None, String::new(), false);
    for _ in 0..EVENT_QUEUE {
        session.send(SessionEvent::Notification(Notification::Unsupported)).unwrap();
    }
    assert!(matches!(
        session.send(SessionEvent::Notification(Notification::Unsupported)),
        Err(ClientError::SessionBacklogExceeded { .. })
    ));
    session.complete(Ok(()));
    assert!(matches!(session.try_finish(), Err(TryRecvError::Empty)));
    for _ in 0..EVENT_QUEUE {
        assert!(session.try_recv().is_ok());
    }
    session.try_finish().unwrap().unwrap();
}

#[test]
fn a_visualization_counts_what_it_replaced() {
    let mut session = Session::start_visualization(None, String::new(), true);
    for sequence in 0..EVENT_QUEUE as u64 + 5 {
        session.send(sample(sequence, None)).unwrap();
    }
    assert_eq!(session.coalesced_samples(), 5);
    session.cancel();
    assert!(session.is_cancelled());
    session.complete(Err(ClientError::PrematureEof));
    let mut last = None;
    while let Ok(event) = session.try_recv() {
        last = Some(event);
    }
    assert!(matches!(
        last,
        Some(SessionEvent::Notification(Notification::Input { sequence: 68, .. }))
    ));
    assert!(matches!(session.try_finish(), Ok(Err(ClientError::PrematureEof))));
    assert!(matches!(session.try_finish(), Err(TryRecvError::Disconnected)));
    assert!(matches!(session.try_recv(), Err(TryRecvError::Disconnected)));
}

#[test]
fn a_session_tells_its_first_event_before_its_end() {
    let mut session = Session::start(None, "2".into(), true);
    assert!(matches!(session.try_recv(), Err(TryRecvError::Empty)));
    session
        .send(SessionEvent::Connected {
            status: Status {
                daemon_version: "1".into(),
                pid: 3,
                device_count: 0,
                dry_run: false,
                socket_path: String::new(),
            },
            devices: Vec::new(),
        })
        .unwrap();
    assert!(matches!(session.try_recv(), Ok(SessionEvent::Connected { .. })));
}

fn device(path: &str) -> DeviceInfo {
    DeviceInfo {
        syspath: path.into(),
        profile: Profile::Gamepad,
        opened_interfaces: 0,
        pending_interfaces: 0,
        gamepad_output: false,
        desktop_output: false,
    }
}

fn selected(selector: &str, single: bool) -> Option<Vec<String>> {
    select_devices(vec![device("/sys/a"), device("/sys/b")], selector, single)
        .ok()
        .map(|devices| devices.into_iter().map(|device| device.syspath).collect())
}

#[test]
fn selectors_are_paths_ordinals_or_nothing() {
    assert_eq!(selected("", false).unwrap(), ["/sys/a", "/sys/b"]);
    assert_eq!(selected("", true).unwrap(), ["/sys/a"]);
    assert_eq!(selected("2", false).unwrap(), ["/sys/b"]);
    assert_eq!(selected("/sys/b", true).unwrap(), ["/sys/b"]);
    assert_eq!(selected("0", true), None);
    assert_eq!(selected("3", true), None);
    assert_eq!(selected("99999999999999999999999", true), None);
    assert_eq!(selected("/sys/c", true), None);
    let error = select_devices(Vec::new(), "", true).unwrap_err();
    assert_eq!(error.describe(), "IPC I/O error: no daemon device matches the selector");
}
