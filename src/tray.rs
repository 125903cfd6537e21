use vstd::prelude::*;
use raw_window_handle::RawWindowHandle;
use crate::event::{TRAY_CALLBACK_MSG, WindowId};
use crate::registrar::{Creation, InitAction, Stage, title_of};

verus! {

#[verifier::external_type_specification]
#[verifier::external_body]
pub struct ExRawWindowHandle(RawWindowHandle);

/// Why a tray operation failed.
#[derive(Clone, Copy, Debug, PartialEq, Eq, Structural)]
pub enum OsError {
    /// A platform call on the way to a working tray failed, with the platform's
    /// error code.
    CreationFailure(i32),
    /// A platform call on a live tray failed, with the platform's error code.
    Platform(i32),
    /// The input was rejected before any platform call.
    InputValidation,
}

/// The tooltip buffer of the shell, in UTF-16 units, terminator included.
pub const TOOLTIP_CAPACITY: usize = 128;

/// The shell's id of the one icon that a tray window owns.
pub const TRAY_ICON_UID: u32 = 1;

pub const NIF_MESSAGE: u32 = 0x1;
pub const NIF_ICON: u32 = 0x2;
pub const NIF_TIP: u32 = 0x4;

/// `c` as UTF-16 code units.
pub open spec fn utf16_of_char(c: char) -> Seq<u16> {
    let v = c as u32;
    if v < 0x10000 {
        seq![v as u16]
    } else {
        seq![
            (0xD800 + ((v - 0x10000) / 0x400)) as u16,
            (0xDC00 + ((v - 0x10000) % 0x400)) as u16,
        ]
    }
}

/// `s` encoded as UTF-16.
pub open spec fn utf16_units(s: Seq<char>) -> Seq<u16>
    decreases s.len(),
{
    if s.len() == 0 {
        Seq::empty()
    } else {
        utf16_units(s.drop_last()) + utf16_of_char(s.last())
    }
}

/// `s` as the platform's wide strings hold it: UTF-16 with a terminating zero.
pub open spec fn wide_of(s: Seq<char>) -> Seq<u16> {
    utf16_units(s).push(0)
}

/// Relies on str::encode_utf16: the characters of `s` in UTF-16, in order.
#[verifier::external_body]
fn encode_utf16(s: &str) -> (r: Vec<u16>)
    ensures
        r@ == utf16_units(s@),
{
    s.encode_utf16().collect()
}

/// Encodes `s` as a zero-terminated wide string.
pub fn encode_wide(s: &str) -> (r: Vec<u16>)
    ensures
        r@ == wide_of(s@),
{
    let mut r = encode_utf16(s);
    r.push(0);
    r
}

/// The shell's tooltip buffer holding `wide`: its units, then zeros.
pub open spec fn tooltip_buffer_of(wide: Seq<u16>) -> Seq<u16> {
    wide + Seq::new((TOOLTIP_CAPACITY - wide.len()) as nat, |i: int| 0u16)
}

/// A tooltip fits when its wide form, terminator included, fits the buffer:
/// at most 127 UTF-16 units of text.
pub open spec fn tooltip_fits(s: Seq<char>) -> bool {
    wide_of(s).len() <= TOOLTIP_CAPACITY
}

/// The shell's tooltip buffer for `tooltip`, or `InputValidation` when the
/// text does not fit.
pub fn tooltip_buffer(tooltip: &str) -> (r: Result<Vec<u16>, OsError>)
    ensures
        match r {
            Ok(buf) => tooltip_fits(tooltip@) && buf@ == tooltip_buffer_of(wide_of(tooltip@)),
            Err(e) => !tooltip_fits(tooltip@) && e == OsError::InputValidation,
        },
{
    let wide = encode_wide(tooltip);
    if wide.len() > TOOLTIP_CAPACITY {
        return Err(OsError::InputValidation);
    }
    let mut buf = wide;
    let ghost w = buf@;
    while buf.len() < TOOLTIP_CAPACITY
        invariant
            w.len() <= buf@.len() <= TOOLTIP_CAPACITY,
            buf@ == w + Seq::new((buf@.len() - w.len()) as nat, |i: int| 0u16),
        decreases TOOLTIP_CAPACITY - buf@.len(),
    {
        buf.push(0);
        proof {
            assert(buf@ =~= w + Seq::new((buf@.len() - w.len()) as nat, |i: int| 0u16));
        }
    }
    proof {
        assert(buf@ =~= tooltip_buffer_of(w));
    }
    Ok(buf)
}

/// An icon, by its native handle.
#[derive(Clone, Copy, Debug, PartialEq, Eq, Structural)]
pub struct Icon {
    pub handle: isize,
}

impl Icon {
    pub fn from_handle(handle: isize) -> (r: Icon)
        ensures
            r.handle == handle,
    {
        Icon { handle }
    }
}

/// What to tell the shell about a tray icon: the fields of its notify-icon
/// record, with `flags` saying which of the optional ones are set.
#[derive(Debug)]
pub struct NotifyRequest {
    pub window: isize,
    pub uid: u32,
    pub flags: u32,
    pub icon: isize,
    pub callback_msg: u32,
    pub tip: Vec<u16>,
}

/// Turns the status of a shell call into a result: zero is failure, with the
/// platform's last error code.
pub fn shell_result(status: i32, last_error: i32) -> (r: Result<(), OsError>)
    ensures
        r == (if status == 0 { Err(OsError::Platform(last_error)) } else { Ok(()) }),
{
    if status == 0 {
        Err(OsError::Platform(last_error))
    } else {
        Ok(())
    }
}

/// A tray icon, by the hidden native window that receives its input.
#[derive(Clone, Copy, Debug, PartialEq, Eq, Structural)]
pub struct Tray {
    pub window: isize,
}

impl Tray {
    /// The tray on the window that creation produced.
    pub fn new(window: isize) -> (r: Tray)
        ensures
            r.window == window,
    {
        Tray { window }
    }

    pub fn id(&self) -> (r: WindowId)
        ensures
            r == WindowId(self.window),
    {
        WindowId(self.window)
    }

    /// The shell request that shows `icon` on this tray.
    pub fn set_icon(&self, icon: Icon) -> (r: NotifyRequest)
        ensures
            r.window == self.window,
            r.uid == TRAY_ICON_UID,
            r.flags == NIF_ICON,
            r.icon == icon.handle,
            r.callback_msg == 0,
            r.tip@ == Seq::<u16>::empty(),
    {
        NotifyRequest {
            window: self.window,
            uid: TRAY_ICON_UID,
            flags: NIF_ICON,
            icon: icon.handle,
            callback_msg: 0,
            tip: Vec::new(),
        }
    }

    /// The shell request that shows `tooltip` on this tray. A text that does
    /// not fit is rejected before any platform call, so the shell keeps the
    /// tooltip it had.
    pub fn set_tooltip(&self, tooltip: &str) -> (r: Result<NotifyRequest, OsError>)
        ensures
            match r {
                Ok(req) => {
                    &&& tooltip_fits(tooltip@)
                    &&& req.window == self.window
                    &&& req.uid == TRAY_ICON_UID
                    &&& req.flags == NIF_TIP
                    &&& req.icon == 0
                    &&& req.callback_msg == 0
                    &&& req.tip@ == tooltip_buffer_of(wide_of(tooltip@))
                },
                Err(e) => !tooltip_fits(tooltip@) && e == OsError::InputValidation,
            },
    {
        let tip = tooltip_buffer(tooltip)?;
        Ok(NotifyRequest { window: self.window, uid: TRAY_ICON_UID, flags: NIF_TIP, icon: 0, callback_msg: 0, tip })
    }

    /// The shell request that adds this tray's icon, with input reported
    /// through the tray callback message.
    pub fn add_request(&self, icon: isize) -> (r: NotifyRequest)
        ensures
            r.window == self.window,
            r.uid == TRAY_ICON_UID,
            r.flags == NIF_MESSAGE | NIF_ICON,
            r.icon == icon,
            r.callback_msg == TRAY_CALLBACK_MSG,
            r.tip@ == Seq::<u16>::empty(),
    {
        NotifyRequest {
            window: self.window,
            uid: TRAY_ICON_UID,
            flags: NIF_MESSAGE | NIF_ICON,
            icon,
            callback_msg: TRAY_CALLBACK_MSG,
            tip: Vec::new(),
        }
    }
}

/// Relies on raw_window_handle::RawWindowHandle: tells its `Win32` variant
/// apart and moves out the window handle, which that crate keeps non-zero.
#[verifier::external_body]
fn win32_hwnd(handle: &RawWindowHandle) -> (r: Option<isize>)
    ensures
        r matches Some(h) ==> h != 0,
{
    match handle {
        RawWindowHandle::Win32(h) => Some(h.hwnd.get()),
        _ => None,
    }
}

/// What a tray is to be created with.
pub struct TrayBuilder {
    pub icon: Option<Icon>,
    pub tooltip: Option<String>,
    pub parent_window: Option<RawWindowHandle>,
}

impl TrayBuilder {
    pub fn new() -> (r: TrayBuilder)
        ensures
            r.icon is None,
            r.tooltip is None,
            r.parent_window is None,
    {
        TrayBuilder { icon: None, tooltip: None, parent_window: None }
    }

    pub fn with_icon(self, icon: Icon) -> (r: TrayBuilder)
        ensures
            r.icon == Some(icon),
            r.tooltip == self.tooltip,
            r.parent_window == self.parent_window,
    {
        TrayBuilder { icon: Some(icon), ..self }
    }

    pub fn with_tooltip(self, tooltip: &str) -> (r: TrayBuilder)
        ensures
            r.icon == self.icon,
            r.tooltip matches Some(t) && t@ == tooltip@,
            r.parent_window == self.parent_window,
    {
        TrayBuilder { tooltip: Some(tooltip.to_owned()), ..self }
    }

    pub fn parent_window(self, parent_window: RawWindowHandle) -> (r: TrayBuilder)
        ensures
            r.icon == self.icon,
            r.tooltip == self.tooltip,
            r.parent_window == Some(parent_window),
    {
        TrayBuilder { parent_window: Some(parent_window), ..self }
    }

    /// Starts creating the tray: see `Creation::start`.
    pub fn build(self) -> (r: Result<(Creation, InitAction), OsError>)
        ensures
            self.parent_window is None ==> r is Ok,
            match r {
                Ok((c, a)) => {
                    &&& a == InitAction::GetModuleHandle
                    &&& c.stage == Stage::ModuleHandle
                    &&& c.window == 0
                    &&& c.icon == self.icon
                    &&& c.title@ == wide_of(title_of(self.tooltip))
                    &&& (self.parent_window is None ==> c.parent == 0)
                    &&& (self.parent_window is Some ==> c.parent != 0)
                },
                Err(e) => e == OsError::InputValidation,
            },
    {
        Creation::start(self)
    }

    /// The native handle of the parent window: zero for none, `InputValidation`
    /// for a handle of another platform.
    pub fn parent_hwnd(&self) -> (r: Result<isize, OsError>)
        ensures
            self.parent_window is None ==> r == Ok::<isize, OsError>(0),
            self.parent_window is Some ==> (r matches Ok(h) ==> h != 0),
            r matches Err(e) ==> e == OsError::InputValidation,
    {
        match &self.parent_window {
            None => Ok(0),
            Some(h) => match win32_hwnd(h) {
                Some(hwnd) => Ok(hwnd),
                None => Err(OsError::InputValidation),
            },
        }
    }
}

} // verus!
