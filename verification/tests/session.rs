use task_recorder::buffer::CaptureBuffer;
use task_recorder::controller::TaskRecorderApp;
use task_recorder::event::{Action, CapturedEvent, Category, Position, RawNotification, Timestamp};

fn ts() -> Timestamp {
    Timestamp::new(2024, 1, 1, 10, 0, 0)
}

#[test]
fn fresh_recorder_is_idle_and_empty() {
    let app = TaskRecorderApp::default();
    assert!(!app.is_recording);
    assert_eq!(app.task_name, "");
    assert_eq!(app.events.len(), 0);
}

#[test]
fn start_with_empty_name_is_refused_and_touches_nothing() {
    let mut app = TaskRecorderApp::default();
    app.events.append(CapturedEvent {
        category: Category::Keyboard,
        identifier: "KeyA".to_string(),
        action: Action::Pressed,
        position: Position::NotApplicable,
        timestamp: ts(),
    });
    let started = app.start_recording();
    assert!(!started);
    assert!(!app.is_recording);
    assert_eq!(app.events.len(), 1);
}

#[test]
fn start_while_recording_is_refused() {
    let mut app = TaskRecorderApp::default();
    app.task_name = "first".to_string();
    assert!(app.start_recording());
    app.task_name = "second".to_string();
    assert!(!app.start_recording());
    assert!(app.is_recording);
}

#[test]
fn stop_while_idle_is_a_no_op() {
    let mut app = TaskRecorderApp::default();
    app.task_name = "idle-task".to_string();
    let artifact = app.stop_recording();
    assert!(artifact.is_none());
    assert!(!app.is_recording);
}

#[test]
fn typing_test_session_produces_the_expected_record() {
    let mut app = TaskRecorderApp::default();
    app.task_name = "typing-test".to_string();
    assert!(app.start_recording());
    assert!(app.is_recording);
    app.record_at(RawNotification::KeyDown { key: "KeyA".to_string() }, ts());
    app.record_at(RawNotification::KeyUp { key: "KeyA".to_string() }, ts());
    app.record_at(RawNotification::PointerMove { x: 10, y: 20 }, ts());
    let artifact = app.stop_recording().expect("stopping a session must export");
    assert!(!app.is_recording);
    assert_eq!(artifact.filename, "typing-test_events.csv");
    let lines: Vec<&str> = artifact.content.split_terminator('\n').collect();
    assert_eq!(lines.len(), 4);
    assert_eq!(lines[0], "Event Type,Button/Key,Action,Position,Timestamp");
    assert_eq!(lines[1], "Keyboard,(KeyA),Pressed,N/A,2024-01-01 10:00:00");
    assert_eq!(lines[2], "Keyboard,(KeyA),Released,N/A,2024-01-01 10:00:00");
    assert_eq!(lines[3], "Mouse,(Move),Moved,(10, 20),2024-01-01 10:00:00");
}

#[test]
fn two_sessions_do_not_contaminate_each_other() {
    let mut app = TaskRecorderApp::default();
    app.task_name = "first-task".to_string();
    assert!(app.start_recording());
    app.record_at(RawNotification::KeyDown { key: "KeyX".to_string() }, ts());
    let first = app.stop_recording().expect("stopping a session must export");
    assert_eq!(first.filename, "first-task_events.csv");

    app.task_name = "second-task".to_string();
    assert!(app.start_recording());
    app.record_at(RawNotification::KeyDown { key: "KeyY".to_string() }, ts());
    let second = app.stop_recording().expect("stopping a session must export");
    assert_eq!(second.filename, "second-task_events.csv");

    assert!(first.content.contains("KeyX"));
    assert!(!first.content.contains("KeyY"));
    assert!(second.content.contains("KeyY"));
    assert!(!second.content.contains("KeyX"));
    let second_lines: Vec<&str> = second.content.split_terminator('\n').collect();
    assert_eq!(second_lines.len(), 2);
}

#[test]
fn wheel_notifications_are_not_recorded() {
    let mut app = TaskRecorderApp::default();
    app.task_name = "quiet".to_string();
    assert!(app.start_recording());
    app.record_at(RawNotification::Wheel { delta_x: 1, delta_y: 2 }, ts());
    assert_eq!(app.events.len(), 0);
}

#[test]
fn handle_notification_appends_through_the_real_clock() {
    let mut app = TaskRecorderApp::default();
    app.task_name = "clocked".to_string();
    assert!(app.start_recording());
    app.handle_notification(RawNotification::ButtonDown { button: "Left".to_string() });
    app.handle_notification(RawNotification::Wheel { delta_x: 0, delta_y: 1 });
    assert_eq!(app.events.len(), 1);
    let records = app.events.snapshot_iterate();
    assert_eq!(records[0].category, Category::Mouse);
    assert_eq!(records[0].identifier, "Left");
    assert_eq!(records[0].action, Action::Pressed);
    assert!(records[0].timestamp.year >= 2024);
}

#[test]
fn buffer_keeps_appends_in_order_for_one_snapshot() {
    let mut buffer = CaptureBuffer::new();
    for name in ["first", "second", "third"] {
        buffer.append(CapturedEvent {
            category: Category::Keyboard,
            identifier: name.to_string(),
            action: Action::Pressed,
            position: Position::NotApplicable,
            timestamp: ts(),
        });
    }
    let snapshot = buffer.snapshot_iterate();
    assert_eq!(snapshot.len(), 3);
    assert_eq!(snapshot[0].identifier, "first");
    assert_eq!(snapshot[1].identifier, "second");
    assert_eq!(snapshot[2].identifier, "third");
}

#[test]
fn clearing_the_buffer_empties_it() {
    let mut buffer = CaptureBuffer::new();
    buffer.append(CapturedEvent {
        category: Category::Mouse,
        identifier: "Left".to_string(),
        action: Action::Released,
        position: Position::NotApplicable,
        timestamp: ts(),
    });
    assert_eq!(buffer.len(), 1);
    buffer.clear();
    assert_eq!(buffer.len(), 0);
}
