//! Window discovery for the separate screen-capture utility. Enumerating
//! native windows exists only on the platform's own API; this build has
//! none, so discovery finds nothing.

use vstd::prelude::*;

verus! {

/// A discovered top-level window.
#[derive(Debug, Clone)]
pub struct WindowInfo {
    pub hwnd: isize,
    pub title: String,
    pub class_name: String,
}

/// One grabbed frame of a captured window.
#[derive(Clone)]
pub struct CapturedFrame {
    pub width: u32,
    pub height: u32,
    pub data: Vec<u8>,
}

/// All visible windows whose class name contains `class_name`; without a
/// native window API there are none.
#[allow(unused_variables)]
pub fn find_windows_by_class(class_name: &str) -> (r: Vec<WindowInfo>)
    ensures
        r@.len() == 0,
{
    Vec::new()
}

/// The game's render window, if present; without a native window API there
/// is none.
pub fn find_jag_render_view() -> (r: Option<WindowInfo>)
    ensures
        r is None,
{
    None
}

} // verus!
