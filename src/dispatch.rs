use vstd::prelude::*;
use crate::event::{
    ElementState, MouseButton, Point, TrayEvent, TRAY_CALLBACK_MSG, classify_mouse, mouse_events,
    mouse_transition, raw_mouse_message, transition_events,
};
use crate::userdata::{
    EventSink, WindowMap, WindowTable, WM_CREATE, WM_NCCREATE, can_enter, detach_spec,
};

verus! {

/// Where the window procedure sends a message before any translation.
#[derive(Clone, Copy, Debug, PartialEq, Eq, Structural)]
pub enum Route {
    /// The creation handshake: build and attach the window's state.
    Create,
    /// Creation reached a stage it cannot have reached without state: fail it.
    AbortCreation,
    /// No translation: hand the message to the platform's default handling.
    Default,
    /// Start an invocation on the attached state and translate the message.
    Dispatch,
}

pub open spec fn route_spec(m: WindowMap, w: isize, msg: u32) -> Route {
    if !m.contains_key(w) {
        if msg == WM_NCCREATE {
            Route::Create
        } else if msg == WM_CREATE {
            Route::AbortCreation
        } else {
            Route::Default
        }
    } else if msg == WM_CREATE {
        Route::Default
    } else if can_enter(m, w) {
        Route::Dispatch
    } else {
        Route::Default
    }
}

/// Routes a message for `window` by the state attached to it.
pub fn route(table: &WindowTable, window: isize, msg: u32) -> (r: Route)
    ensures
        r == route_spec(table@, window, msg),
{
    match table.get(window) {
        None => {
            if msg == WM_NCCREATE {
                Route::Create
            } else if msg == WM_CREATE {
                Route::AbortCreation
            } else {
                Route::Default
            }
        },
        Some(d) => {
            if msg == WM_CREATE {
                Route::Default
            } else if !d.removed && d.recurse_depth < u32::MAX {
                Route::Dispatch
            } else {
                Route::Default
            }
        },
    }
}

/// What a dispatched message asks of the dispatcher.
#[derive(Clone, Copy, Debug, PartialEq, Eq, Structural)]
pub enum Action {
    /// A recognized button transition on the tray icon.
    Mouse(MouseButton, ElementState),
    /// The destroy request: detach the state, then destroy the native window.
    Destroy,
    /// Nothing to translate: the platform's default handling.
    Default,
}

pub open spec fn action_spec(msg: u32, l_param: isize, destroy_msg: u32) -> Action {
    if msg == TRAY_CALLBACK_MSG && mouse_transition(raw_mouse_message(l_param)) is Some {
        let (button, state) = mouse_transition(raw_mouse_message(l_param))->0;
        Action::Mouse(button, state)
    } else if msg == destroy_msg {
        Action::Destroy
    } else {
        Action::Default
    }
}

/// Decides what a dispatched message asks for. `destroy_msg` is the
/// application-defined id of the destroy request.
pub fn classify(msg: u32, l_param: isize, destroy_msg: u32) -> (r: Action)
    ensures
        r == action_spec(msg, l_param, destroy_msg),
{
    if msg == TRAY_CALLBACK_MSG {
        match classify_mouse(l_param) {
            Some((button, state)) => {
                return Action::Mouse(button, state);
            },
            None => {},
        }
    }
    if msg == destroy_msg {
        Action::Destroy
    } else {
        Action::Default
    }
}

/// What the dispatcher does with `msg` on `w`: an action when the message is
/// dispatched, none when it goes elsewhere.
pub open spec fn decision(m: WindowMap, w: isize, msg: u32, l_param: isize, destroy_msg: u32) -> Option<
    Action,
> {
    if route_spec(m, w, msg) == Route::Dispatch {
        Some(action_spec(msg, l_param, destroy_msg))
    } else {
        None
    }
}

/// Translates a button transition of `window`, given the outcome of the cursor
/// query, and pushes its events to `sink`. Returns what the window procedure
/// reports.
pub fn translate_mouse(
    table: &WindowTable,
    sink: &mut EventSink,
    window: isize,
    button: MouseButton,
    state: ElementState,
    cursor: Option<Point>,
) -> (r: isize)
    ensures
        match cursor {
            None => r == 1 && final(sink)@ == old(sink)@,
            Some(p) => r == 0 && final(sink)@ == (if table@.contains_key(window) {
                old(sink)@ + transition_events(window, button, state, p)
            } else {
                old(sink)@
            }),
        },
{
    let outcome = mouse_events(window, button, state, cursor);
    match table.get(window) {
        Some(data) => {
            let mut i: usize = 0;
            while i < outcome.events.len()
                invariant
                    0 <= i <= outcome.events@.len(),
                    sink@ == old(sink)@ + outcome.events@.take(i as int),
                decreases outcome.events@.len() - i,
            {
                proof {
                    assert(outcome.events@.take(i as int + 1) =~= outcome.events@.take(
                        i as int,
                    ).push(outcome.events@[i as int]));
                }
                data.send_event(sink, outcome.events[i]);
                i = i + 1;
            }
            proof {
                assert(outcome.events@.take(i as int) =~= outcome.events@);
            }
        },
        None => {
            proof {
                assert(old(sink)@ + outcome.events@.take(0) =~= old(sink)@);
            }
        },
    }
    proof {
        assert(old(sink)@ + Seq::<TrayEvent>::empty() =~= old(sink)@);
    }
    outcome.result
}

/// Handles the destroy request on the owning thread: detaches the state of
/// `window`, which is freed once every running invocation has ended. The
/// caller then makes the native destroy call and reports the returned value.
pub fn handle_destroy(table: &mut WindowTable, window: isize) -> (r: isize)
    ensures
        final(table)@ == detach_spec(old(table)@, window),
        r == 0,
{
    table.detach(window);
    0
}

/// A message to post to a window's queue.
#[derive(Clone, Copy, Debug, PartialEq, Eq, Structural)]
pub struct PostedMessage {
    pub window: isize,
    pub msg: u32,
    pub w_param: usize,
    pub l_param: isize,
}

pub open spec fn destroy_request_spec(window: isize, destroy_msg: u32) -> PostedMessage {
    PostedMessage { window, msg: destroy_msg, w_param: 0, l_param: 0 }
}

/// The message that asks `window` to destroy itself. Any thread may post it:
/// building it touches no window state, and the destroy itself runs when the
/// owning thread dispatches it.
pub fn destroy_request(window: isize, destroy_msg: u32) -> (r: PostedMessage)
    ensures
        r == destroy_request_spec(window, destroy_msg),
{
    PostedMessage { window, msg: destroy_msg, w_param: 0, l_param: 0 }
}

/// The destroy action comes only out of a dispatcher invocation on the
/// window's own attached, not yet removed state, and only for the destroy
/// request: a posted request leads to it exactly when such an invocation can
/// run. Once it has been handled, a second request finds the state removed and
/// destroys nothing.
pub proof fn lemma_destroy_only_in_dispatcher(
    m: WindowMap,
    w: isize,
    msg: u32,
    l_param: isize,
    destroy_msg: u32,
)
    requires
        destroy_msg != TRAY_CALLBACK_MSG,
        destroy_msg != WM_CREATE,
        destroy_msg != WM_NCCREATE,
    ensures
        decision(m, w, msg, l_param, destroy_msg) == Some(Action::Destroy) ==> msg == destroy_msg
            && can_enter(m, w),
        ({
            let p = destroy_request_spec(w, destroy_msg);
            p.window == w && (decision(m, p.window, p.msg, p.l_param, destroy_msg) == Some(
                Action::Destroy,
            ) <==> can_enter(m, w))
        }),
        can_enter(m, w) && m[w].recurse_depth > 0 ==> decision(
            detach_spec(m, w),
            w,
            destroy_msg,
            0,
            destroy_msg,
        ) is None,
{
}

} // verus!
