use vstd::prelude::*;
use std::collections::HashMap;
use crate::event::TrayEvent;

verus! {

broadcast use vstd::std_specs::hash::group_hash_axioms;

/// The window-creation handshake message that comes before any other.
pub const WM_NCCREATE: u32 = 0x0081;

/// The creation message that follows the handshake.
pub const WM_CREATE: u32 = 0x0001;

/// The queue through which translated events reach the event loop.
pub struct EventSink {
    queue: Vec<TrayEvent>,
}

impl View for EventSink {
    type V = Seq<TrayEvent>;

    closed spec fn view(&self) -> Seq<TrayEvent> {
        self.queue@
    }
}

impl EventSink {
    pub fn new() -> (r: EventSink)
        ensures
            r@ == Seq::<TrayEvent>::empty(),
    {
        EventSink { queue: Vec::new() }
    }

    /// Hands every queued event out, oldest first, and leaves the queue empty.
    pub fn drain(&mut self) -> (r: Vec<TrayEvent>)
        ensures
            r@ == old(self)@,
            final(self)@ == Seq::<TrayEvent>::empty(),
    {
        let mut out: Vec<TrayEvent> = Vec::new();
        std::mem::swap(&mut out, &mut self.queue);
        out
    }
}

/// The state attached to one native window for as long as it lives.
#[derive(Clone, Copy, Debug, PartialEq, Eq, Structural)]
pub struct WindowData {
    /// Set once the window has been logically detached.
    pub removed: bool,
    /// How many dispatcher invocations for the window are running, nested ones
    /// included.
    pub recurse_depth: u32,
}

impl WindowData {
    pub open spec fn fresh() -> WindowData {
        WindowData { removed: false, recurse_depth: 0 }
    }

    pub fn new() -> (r: WindowData)
        ensures
            r == WindowData::fresh(),
    {
        WindowData { removed: false, recurse_depth: 0 }
    }

    /// Pushes `event` to the event loop's sink.
    pub fn send_event(&self, sink: &mut EventSink, event: TrayEvent)
        ensures
            final(sink)@ == old(sink)@.push(event),
    {
        sink.queue.push(event);
    }
}

/// What window creation hands to the creation handshake, and what the
/// handshake reports back: the window it attached state to.
pub struct InitData {
    pub window: Option<isize>,
}

impl InitData {
    pub fn new() -> (r: InitData)
        ensures
            r.window is None,
    {
        InitData { window: None }
    }

    /// Runs the creation handshake of `window`: attaches fresh state to it when
    /// building that state succeeded (`constructed`). When this returns false,
    /// the window procedure aborts the creation and no state is attached.
    pub fn on_nccreate(&mut self, table: &mut WindowTable, window: isize, constructed: bool) -> (r:
        bool)
        ensures
            r == (constructed && !old(table)@.contains_key(window)),
            final(table)@ == (if r {
                old(table)@.insert(window, WindowData::fresh())
            } else {
                old(table)@
            }),
            final(self).window == (if r { Some(window) } else { old(self).window }),
    {
        let attached = table.attach(window, constructed);
        if attached {
            self.window = Some(window);
        }
        attached
    }
}

/// The state of every live window, keyed by its native handle.
pub type WindowMap = Map<isize, WindowData>;

/// A dispatcher invocation may start on `w`: its state is attached, not yet
/// removed, and the depth counter has room.
pub open spec fn can_enter(m: WindowMap, w: isize) -> bool {
    &&& m.contains_key(w)
    &&& !m[w].removed
    &&& m[w].recurse_depth < u32::MAX
}

pub open spec fn enter_spec(m: WindowMap, w: isize) -> WindowMap {
    if can_enter(m, w) {
        m.insert(w, WindowData { recurse_depth: (m[w].recurse_depth + 1) as u32, ..m[w] })
    } else {
        m
    }
}

/// Ends one invocation: the depth drops by one, and the state is freed when it
/// was removed and no invocation is left.
pub open spec fn leave_spec(m: WindowMap, w: isize) -> WindowMap {
    if m.contains_key(w) && m[w].recurse_depth > 0 {
        let d = WindowData { recurse_depth: (m[w].recurse_depth - 1) as u32, ..m[w] };
        if d.removed && d.recurse_depth == 0 {
            m.remove(w)
        } else {
            m.insert(w, d)
        }
    } else {
        m
    }
}

/// Marks the state removed; it is freed at once only when no invocation runs.
pub open spec fn detach_spec(m: WindowMap, w: isize) -> WindowMap {
    if m.contains_key(w) {
        if m[w].recurse_depth == 0 {
            m.remove(w)
        } else {
            m.insert(w, WindowData { removed: true, ..m[w] })
        }
    } else {
        m
    }
}

/// Owner of every window's state. Only the dispatcher reads or changes it.
pub struct WindowTable {
    windows: HashMap<isize, WindowData>,
}

impl View for WindowTable {
    type V = WindowMap;

    closed spec fn view(&self) -> WindowMap {
        self.windows@
    }
}

impl WindowTable {
    pub fn new() -> (r: WindowTable)
        ensures
            r@ == Map::<isize, WindowData>::empty(),
    {
        WindowTable { windows: HashMap::new() }
    }

    /// The state attached to `window`, if any.
    pub fn get(&self, window: isize) -> (r: Option<WindowData>)
        ensures
            r == (if self@.contains_key(window) { Some(self@[window]) } else { None }),
    {
        match self.windows.get(&window) {
            Some(d) => Some(*d),
            None => None,
        }
    }

    pub fn contains(&self, window: isize) -> (r: bool)
        ensures
            r == self@.contains_key(window),
    {
        self.windows.contains_key(&window)
    }

    /// Stores fresh state for `window` after the creation handshake, when its
    /// construction succeeded and no state is attached yet.
    pub fn attach(&mut self, window: isize, constructed: bool) -> (r: bool)
        ensures
            r == (constructed && !old(self)@.contains_key(window)),
            final(self)@ == (if r {
                old(self)@.insert(window, WindowData::fresh())
            } else {
                old(self)@
            }),
    {
        if constructed && !self.windows.contains_key(&window) {
            self.windows.insert(window, WindowData::new());
            true
        } else {
            false
        }
    }

    /// Starts one dispatcher invocation on `window`, if one may start.
    pub fn enter(&mut self, window: isize) -> (r: bool)
        ensures
            r == can_enter(old(self)@, window),
            final(self)@ == enter_spec(old(self)@, window),
    {
        match self.get(window) {
            Some(d) => {
                if !d.removed && d.recurse_depth < u32::MAX {
                    self.windows.insert(
                        window,
                        WindowData { removed: d.removed, recurse_depth: d.recurse_depth + 1 },
                    );
                    true
                } else {
                    false
                }
            },
            None => false,
        }
    }

    /// Ends one dispatcher invocation on `window`; tells whether this freed
    /// its state.
    pub fn leave(&mut self, window: isize) -> (freed: bool)
        ensures
            final(self)@ == leave_spec(old(self)@, window),
            freed == (old(self)@.contains_key(window) && !final(self)@.contains_key(window)),
    {
        match self.get(window) {
            Some(d) => {
                if d.recurse_depth > 0 {
                    let depth = d.recurse_depth - 1;
                    if d.removed && depth == 0 {
                        self.windows.remove(&window);
                        true
                    } else {
                        self.windows.insert(
                            window,
                            WindowData { removed: d.removed, recurse_depth: depth },
                        );
                        false
                    }
                } else {
                    false
                }
            },
            None => false,
        }
    }

    /// Detaches the state of `window`; tells whether it was freed at once.
    pub fn detach(&mut self, window: isize) -> (freed: bool)
        ensures
            final(self)@ == detach_spec(old(self)@, window),
            freed == (old(self)@.contains_key(window) && !final(self)@.contains_key(window)),
    {
        match self.get(window) {
            Some(d) => {
                if d.recurse_depth == 0 {
                    self.windows.remove(&window);
                    true
                } else {
                    self.windows.insert(
                        window,
                        WindowData { removed: true, recurse_depth: d.recurse_depth },
                    );
                    false
                }
            },
            None => false,
        }
    }
}

} // verus!
