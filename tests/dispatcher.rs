use tray::dispatch::{classify, destroy_request, handle_destroy, route, translate_mouse, Action, Route};
use tray::event::{
    classify_mouse, mouse_events, DeviceId, ElementState, MouseButton, Point, TrayEvent, WindowEvent,
    WindowId, TRAY_CALLBACK_MSG, WM_LBUTTONDOWN, WM_LBUTTONUP, WM_MBUTTONUP, WM_RBUTTONDOWN,
    WM_XBUTTONUP,
};
use tray::userdata::{EventSink, InitData, WindowData, WindowTable, WM_CREATE, WM_NCCREATE};

const DESTROY_MSG: u32 = 0xC123;
const WM_PAINT: u32 = 0x000F;

fn attached_table(window: isize) -> WindowTable {
    let mut table = WindowTable::new();
    let mut init = InitData::new();
    assert_eq!(route(&table, window, WM_NCCREATE), Route::Create);
    assert!(init.on_nccreate(&mut table, window, true));
    assert_eq!(init.window, Some(window));
    table
}

#[test]
fn nested_invocations_free_state_once_after_outermost() {
    let w: isize = 7;
    let mut table = attached_table(w);
    assert!(table.enter(w));
    assert!(table.enter(w));
    assert_eq!(handle_destroy(&mut table, w), 0);
    assert_eq!(table.get(w), Some(WindowData { removed: true, recurse_depth: 2 }));
    assert!(!table.enter(w));
    assert_eq!(route(&table, w, WM_PAINT), Route::Default);
    assert!(!table.leave(w));
    assert!(table.contains(w));
    assert!(table.leave(w));
    assert!(!table.contains(w));
    assert!(!table.leave(w));
    assert!(!table.detach(w));
}

#[test]
fn detach_without_running_invocation_frees_at_once() {
    let w: isize = 3;
    let mut table = attached_table(w);
    assert!(table.detach(w));
    assert_eq!(table.get(w), None);
}

#[test]
fn posted_destroy_runs_only_in_dispatcher() {
    let w: isize = 11;
    let posted = destroy_request(w, DESTROY_MSG);
    assert_eq!(posted.window, w);
    assert_eq!(posted.msg, DESTROY_MSG);
    assert_eq!(posted.w_param, 0);
    assert_eq!(posted.l_param, 0);
    let mut table = attached_table(w);
    assert_eq!(route(&table, posted.window, posted.msg), Route::Dispatch);
    assert!(table.enter(w));
    assert_eq!(classify(posted.msg, posted.l_param, DESTROY_MSG), Action::Destroy);
    handle_destroy(&mut table, w);
    assert_eq!(route(&table, w, posted.msg), Route::Default);
    assert!(table.leave(w));
    assert_eq!(route(&table, w, posted.msg), Route::Default);
}

#[test]
fn messages_without_state_go_to_default_handling() {
    let table = WindowTable::new();
    assert_eq!(route(&table, 5, WM_PAINT), Route::Default);
    assert_eq!(route(&table, 5, DESTROY_MSG), Route::Default);
    assert_eq!(route(&table, 5, WM_CREATE), Route::AbortCreation);
    let table = attached_table(5);
    assert_eq!(route(&table, 5, WM_CREATE), Route::Default);
    assert_eq!(route(&table, 5, WM_PAINT), Route::Dispatch);
}

#[test]
fn failed_construction_attaches_nothing() {
    let mut table = WindowTable::new();
    let mut init = InitData::new();
    assert!(!init.on_nccreate(&mut table, 9, false));
    assert_eq!(init.window, None);
    assert!(!table.contains(9));
}

#[test]
fn second_handshake_does_not_replace_state() {
    let mut table = attached_table(4);
    assert!(table.enter(4));
    assert!(!table.attach(4, true));
    assert_eq!(table.get(4), Some(WindowData { removed: false, recurse_depth: 1 }));
}

#[test]
fn left_down_with_cursor_failure_emits_nothing_then_recovers() {
    let w: isize = 21;
    let mut table = attached_table(w);
    let mut sink = EventSink::new();
    assert!(table.enter(w));
    let action = classify(TRAY_CALLBACK_MSG, WM_LBUTTONDOWN as isize, DESTROY_MSG);
    assert_eq!(action, Action::Mouse(MouseButton::Left, ElementState::Pressed));
    assert_eq!(translate_mouse(&table, &mut sink, w, MouseButton::Left, ElementState::Pressed, None), 1);
    assert!(!table.leave(w));
    assert!(sink.drain().is_empty());

    assert!(table.enter(w));
    let p = Point { x: 3, y: 4 };
    assert_eq!(translate_mouse(&table, &mut sink, w, MouseButton::Left, ElementState::Pressed, Some(p)), 0);
    assert!(!table.leave(w));
    let events = sink.drain();
    assert_eq!(events.len(), 2);
    assert_eq!(events[0].event, WindowEvent::CursorMoved { device_id: DeviceId, position: p });
}

#[test]
fn button_up_at_100_50_emits_move_then_release() {
    let w: isize = 42;
    let mut table = attached_table(w);
    let mut sink = EventSink::new();
    assert_eq!(route(&table, w, TRAY_CALLBACK_MSG), Route::Dispatch);
    assert!(table.enter(w));
    let action = classify(TRAY_CALLBACK_MSG, WM_LBUTTONUP as isize, DESTROY_MSG);
    let (button, state) = match action {
        Action::Mouse(b, s) => (b, s),
        other => panic!("unexpected action {:?}", other),
    };
    let r = translate_mouse(&table, &mut sink, w, button, state, Some(Point { x: 100, y: 50 }));
    assert_eq!(r, 0);
    assert!(!table.leave(w));
    let events = sink.drain();
    assert_eq!(
        events,
        vec![
            TrayEvent {
                window_id: WindowId(42),
                event: WindowEvent::CursorMoved { device_id: DeviceId, position: Point { x: 100, y: 50 } },
            },
            TrayEvent {
                window_id: WindowId(42),
                event: WindowEvent::MouseInput {
                    device_id: DeviceId,
                    state: ElementState::Released,
                    button: MouseButton::Left,
                },
            },
        ]
    );
    assert!(sink.drain().is_empty());
}

#[test]
fn classify_recognizes_each_button_message() {
    assert_eq!(classify_mouse(WM_RBUTTONDOWN as isize), Some((MouseButton::Right, ElementState::Pressed)));
    assert_eq!(classify_mouse(WM_MBUTTONUP as isize), Some((MouseButton::Middle, ElementState::Released)));
    assert_eq!(classify_mouse(WM_XBUTTONUP as isize), Some((MouseButton::Other(0), ElementState::Released)));
    assert_eq!(classify_mouse(0x0203), None);
    assert_eq!(classify(TRAY_CALLBACK_MSG, 0x0200, DESTROY_MSG), Action::Default);
    assert_eq!(classify(WM_PAINT, WM_LBUTTONUP as isize, DESTROY_MSG), Action::Default);
    assert_eq!(classify(DESTROY_MSG, 0, DESTROY_MSG), Action::Destroy);
}

#[test]
fn events_go_nowhere_for_a_window_without_state() {
    let table = WindowTable::new();
    let mut sink = EventSink::new();
    let r = translate_mouse(&table, &mut sink, 1, MouseButton::Left, ElementState::Released, Some(Point { x: 0, y: 0 }));
    assert_eq!(r, 0);
    assert!(sink.drain().is_empty());
}

#[test]
fn mouse_events_without_cursor_are_empty() {
    let out = mouse_events(1, MouseButton::Right, ElementState::Released, None);
    assert!(out.events.is_empty());
    assert_eq!(out.result, 1);
}

#[test]
fn send_event_queues_in_order() {
    let data = WindowData::new();
    let mut sink = EventSink::new();
    let a = TrayEvent { window_id: WindowId(1), event: WindowEvent::CursorMoved { device_id: DeviceId, position: Point { x: 1, y: 2 } } };
    let b = TrayEvent { window_id: WindowId(2), event: WindowEvent::CursorMoved { device_id: DeviceId, position: Point { x: 3, y: 4 } } };
    data.send_event(&mut sink, a);
    data.send_event(&mut sink, b);
    assert_eq!(sink.drain(), vec![a, b]);
}
