use vstd::prelude::*;
use crate::tray::{Icon, OsError, Tray, TrayBuilder, encode_wide, wide_of};

verus! {

/// Where a tray's creation stands: each stage waits for the outcome of one
/// platform call.
#[derive(Clone, Copy, Debug, PartialEq, Eq, Structural)]
pub enum Stage {
    ModuleHandle,
    RegisterClass,
    CreateWindow,
    LoadIcon,
    LoadStockIcon,
    AddIcon,
    CreateMenu,
    SetMenuInfo,
    SetIcon,
    Done,
    Failed,
}

/// The next thing the caller does for a tray's creation.
#[derive(Clone, Copy, Debug, PartialEq, Eq, Structural)]
pub enum InitAction {
    /// Query the module handle of the process.
    GetModuleHandle,
    /// Register the tray's window class; a failure is tolerated, since the
    /// class may be registered already.
    RegisterClass,
    /// Create the hidden window under `parent` (zero for none), titled with
    /// the creation's `title`, passing the init data along.
    CreateWindow { parent: isize },
    /// Load the application's own tray icon.
    LoadIcon,
    /// Load the stock application icon.
    LoadStockIcon,
    /// Add the tray icon to the shell, with this icon.
    AddIcon { icon: isize },
    /// Create the tray's popup menu.
    CreatePopupMenu,
    /// Apply the tray's menu style to this menu.
    SetMenuInfo { menu: isize },
    /// Show the builder's icon on the tray.
    SetIcon { icon: isize },
    /// Building the window's state panicked: resume that panic.
    ResumePanic,
    /// Creation failed.
    Fail(OsError),
    /// Creation is complete.
    Finish(Tray),
}

/// A tray's creation under way.
pub struct Creation {
    pub stage: Stage,
    pub parent: isize,
    /// The window title, as a wide string.
    pub title: Vec<u16>,
    pub icon: Option<Icon>,
    /// The window once created; zero before.
    pub window: isize,
}

/// The title of a tray's window: its tooltip, or a fixed name.
pub open spec fn title_of(tooltip: Option<String>) -> Seq<char> {
    match tooltip {
        Some(t) => t@,
        None => default_title(),
    }
}

pub open spec fn default_title() -> Seq<char> {
    seq!['r', 'u', 's', 't', '_', 's', 'y', 's', 't', 'r', 'a', 'y', '_', 'w', 'i', 'n', 'd', 'o', 'w']
}

/// After a platform call with result `value` (zero for failure) and the
/// platform's last error code: the next stage, the window, and what to do next.
pub open spec fn advance_spec(
    stage: Stage,
    window: isize,
    parent: isize,
    icon: Option<Icon>,
    value: isize,
    last_error: i32,
    panicked: bool,
) -> (Stage, isize, InitAction) {
    let fail = (Stage::Failed, window, InitAction::Fail(OsError::CreationFailure(last_error)));
    match stage {
        Stage::ModuleHandle => if value == 0 {
            fail
        } else {
            (Stage::RegisterClass, window, InitAction::RegisterClass)
        },
        Stage::RegisterClass => (
            Stage::CreateWindow,
            window,
            InitAction::CreateWindow { parent },
        ),
        Stage::CreateWindow => if panicked {
            (Stage::Failed, window, InitAction::ResumePanic)
        } else if value == 0 {
            fail
        } else {
            (Stage::LoadIcon, value, InitAction::LoadIcon)
        },
        Stage::LoadIcon => if value == 0 {
            (Stage::LoadStockIcon, window, InitAction::LoadStockIcon)
        } else {
            (Stage::AddIcon, window, InitAction::AddIcon { icon: value })
        },
        Stage::LoadStockIcon => if value == 0 {
            fail
        } else {
            (Stage::AddIcon, window, InitAction::AddIcon { icon: value })
        },
        Stage::AddIcon => if value == 0 {
            fail
        } else {
            (Stage::CreateMenu, window, InitAction::CreatePopupMenu)
        },
        Stage::CreateMenu => if value == 0 {
            fail
        } else {
            (Stage::SetMenuInfo, window, InitAction::SetMenuInfo { menu: value })
        },
        Stage::SetMenuInfo => if value == 0 {
            fail
        } else {
            match icon {
                Some(i) => (Stage::SetIcon, window, InitAction::SetIcon { icon: i.handle }),
                None => (Stage::Done, window, InitAction::Finish(Tray { window })),
            }
        },
        Stage::SetIcon => if value == 0 {
            fail
        } else {
            (Stage::Done, window, InitAction::Finish(Tray { window }))
        },
        Stage::Done => (Stage::Done, window, InitAction::Finish(Tray { window })),
        Stage::Failed => (Stage::Failed, window, InitAction::Fail(OsError::CreationFailure(last_error))),
    }
}

impl Creation {
    pub open spec fn finished(&self) -> bool {
        self.stage == Stage::Done || self.stage == Stage::Failed
    }

    /// Starts creating the tray that `builder` describes. Fails with
    /// `InputValidation` when the parent window belongs to another platform.
    pub fn start(builder: TrayBuilder) -> (r: Result<(Creation, InitAction), OsError>)
        ensures
            builder.parent_window is None ==> r is Ok,
            match r {
                Ok((c, a)) => {
                    &&& a == InitAction::GetModuleHandle
                    &&& c.stage == Stage::ModuleHandle
                    &&& c.window == 0
                    &&& c.icon == builder.icon
                    &&& c.title@ == wide_of(title_of(builder.tooltip))
                    &&& (builder.parent_window is None ==> c.parent == 0)
                    &&& (builder.parent_window is Some ==> c.parent != 0)
                },
                Err(e) => e == OsError::InputValidation,
            },
    {
        let parent = builder.parent_hwnd()?;
        let title = match &builder.tooltip {
            Some(t) => encode_wide(t.as_str()),
            None => {
                let name = "rust_systray_window";
                proof {
                    reveal_strlit("rust_systray_window");
                    assert(name@ =~= default_title());
                }
                encode_wide(name)
            },
        };
        let c = Creation { stage: Stage::ModuleHandle, parent, title, icon: builder.icon, window: 0 };
        Ok((c, InitAction::GetModuleHandle))
    }

    /// Takes the outcome of the platform call that the last action asked for:
    /// its result `value`, zero for failure, the platform's last error code,
    /// and whether building the window's state panicked during it.
    pub fn advance(&mut self, value: isize, last_error: i32, panicked: bool) -> (r: InitAction)
        ensures
            ({
                let (stage, window, action) = advance_spec(
                    old(self).stage,
                    old(self).window,
                    old(self).parent,
                    old(self).icon,
                    value,
                    last_error,
                    panicked,
                );
                &&& final(self).stage == stage
                &&& final(self).window == window
                &&& r == action
            }),
            final(self).parent == old(self).parent,
            final(self).icon == old(self).icon,
            final(self).title@ == old(self).title@,
    {
        let fail = InitAction::Fail(OsError::CreationFailure(last_error));
        match self.stage {
            Stage::ModuleHandle => {
                if value == 0 {
                    self.stage = Stage::Failed;
                    fail
                } else {
                    self.stage = Stage::RegisterClass;
                    InitAction::RegisterClass
                }
            },
            Stage::RegisterClass => {
                self.stage = Stage::CreateWindow;
                InitAction::CreateWindow { parent: self.parent }
            },
            Stage::CreateWindow => {
                if panicked {
                    self.stage = Stage::Failed;
                    InitAction::ResumePanic
                } else if value == 0 {
                    self.stage = Stage::Failed;
                    fail
                } else {
                    self.stage = Stage::LoadIcon;
                    self.window = value;
                    InitAction::LoadIcon
                }
            },
            Stage::LoadIcon => {
                if value == 0 {
                    self.stage = Stage::LoadStockIcon;
                    InitAction::LoadStockIcon
                } else {
                    self.stage = Stage::AddIcon;
                    InitAction::AddIcon { icon: value }
                }
            },
            Stage::LoadStockIcon => {
                if value == 0 {
                    self.stage = Stage::Failed;
                    fail
                } else {
                    self.stage = Stage::AddIcon;
                    InitAction::AddIcon { icon: value }
                }
            },
            Stage::AddIcon => {
                if value == 0 {
                    self.stage = Stage::Failed;
                    fail
                } else {
                    self.stage = Stage::CreateMenu;
                    InitAction::CreatePopupMenu
                }
            },
            Stage::CreateMenu => {
                if value == 0 {
                    self.stage = Stage::Failed;
                    fail
                } else {
                    self.stage = Stage::SetMenuInfo;
                    InitAction::SetMenuInfo { menu: value }
                }
            },
            Stage::SetMenuInfo => {
                if value == 0 {
                    self.stage = Stage::Failed;
                    fail
                } else {
                    match self.icon {
                        Some(i) => {
                            self.stage = Stage::SetIcon;
                            InitAction::SetIcon { icon: i.handle }
                        },
                        None => {
                            self.stage = Stage::Done;
                            InitAction::Finish(Tray::new(self.window))
                        },
                    }
                }
            },
            Stage::SetIcon => {
                if value == 0 {
                    self.stage = Stage::Failed;
                    fail
                } else {
                    self.stage = Stage::Done;
                    InitAction::Finish(Tray::new(self.window))
                }
            },
            Stage::Done => InitAction::Finish(Tray::new(self.window)),
            Stage::Failed => fail,
        }
    }
}

} // verus!
