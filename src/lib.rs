//! System-tray icons backed by a hidden native window.
//!
//! The window procedure's decisions live here: which messages reach the
//! translator (`dispatch`), the lifetime of each window's state under nested
//! invocations (`userdata`, with the law in `lifecycle`), the translation of
//! shell input into events (`event`), the steps of creating a tray
//! (`registrar`) and the requests made of the shell (`tray`). The platform
//! calls themselves are made by the caller.

pub mod event;
pub mod userdata;
pub mod lifecycle;
pub mod dispatch;
pub mod tray;
pub mod registrar;
