//! What the toolkit keeps about a window without asking the windowing
//! system: its identifier and the bounds declared on its size.

use crate::types::Size;
use crate::widgets::bounds::Limits;
use vstd::prelude::*;

verus! {

/// Identifies a window by the address of its native handle.
#[derive(Debug, Clone, Copy, PartialEq, Eq, Hash, Structural)]
pub struct WindowID {
    pub hwnd: usize,
}

impl WindowID {
    /// The identifier names no window.
    pub open spec fn is_null(self) -> bool {
        self.hwnd == 0
    }
}

/// A window's identifier and the bounds declared on its width and height.
/// A bound that is `None` is lifted.
#[derive(Debug, Clone, Copy, PartialEq, Eq, Structural)]
pub struct Window {
    pub id: WindowID,
    pub min_width: Option<i32>,
    pub min_height: Option<i32>,
    pub max_width: Option<i32>,
    pub max_height: Option<i32>,
}

impl Default for Window {
    /// An empty `Window` as a placeholder: no handle, no bounds.
    fn default() -> (w: Window)
        ensures
            w == Window::placeholder(),
    {
        Window {
            id: WindowID { hwnd: 0 },
            min_width: None,
            min_height: None,
            max_width: None,
            max_height: None,
        }
    }
}

impl Window {
    /// The placeholder that stands for a window not yet created.
    pub open spec fn placeholder() -> Window {
        Window {
            id: WindowID { hwnd: 0 },
            min_width: None,
            min_height: None,
            max_width: None,
            max_height: None,
        }
    }

    /// The bounds on the window's width.
    pub open spec fn width_limits(self) -> Limits {
        Limits { min: self.min_width, max: self.max_width }
    }

    /// The bounds on the window's height.
    pub open spec fn height_limits(self) -> Limits {
        Limits { min: self.min_height, max: self.max_height }
    }

    /// A window with the given identifier and no bounds.
    pub fn with_id(id: WindowID) -> (w: Window)
        ensures
            w == (Window { id, ..Window::placeholder() }),
    {
        Window { id, min_width: None, min_height: None, max_width: None, max_height: None }
    }

    /// Whether this is the placeholder of a window not yet created.
    pub fn is_default(&self) -> (b: bool)
        ensures
            b == self.id.is_null(),
    {
        self.id.hwnd == 0
    }

    /// Set the minimum width of the window.
    pub fn set_min_width(&mut self, width: i32)
        requires
            !old(self).id.is_null(),
        ensures
            *final(self) == (Window { min_width: Some(width), ..*old(self) }),
    {
        self.min_width = Some(width);
    }

    /// Set the minimum height of the window.
    pub fn set_min_height(&mut self, height: i32)
        requires
            !old(self).id.is_null(),
        ensures
            *final(self) == (Window { min_height: Some(height), ..*old(self) }),
    {
        self.min_height = Some(height);
    }

    /// Set the maximum width of the window.
    pub fn set_max_width(&mut self, width: i32)
        requires
            !old(self).id.is_null(),
        ensures
            *final(self) == (Window { max_width: Some(width), ..*old(self) }),
    {
        self.max_width = Some(width);
    }

    /// Set the maximum height of the window.
    pub fn set_max_height(&mut self, height: i32)
        requires
            !old(self).id.is_null(),
        ensures
            *final(self) == (Window { max_height: Some(height), ..*old(self) }),
    {
        self.max_height = Some(height);
    }

    /// Set the minimum size of the window: both its minimum width and its
    /// minimum height.
    pub fn set_min_size(&mut self, size: Size)
        requires
            !old(self).id.is_null(),
        ensures
            *final(self) == (Window {
                min_width: Some(size.width),
                min_height: Some(size.height),
                ..*old(self)
            }),
    {
        self.min_width = Some(size.width);
        self.min_height = Some(size.height);
    }

    /// Set the maximum size of the window: both its maximum width and its
    /// maximum height.
    pub fn set_max_size(&mut self, size: Size)
        requires
            !old(self).id.is_null(),
        ensures
            *final(self) == (Window {
                max_width: Some(size.width),
                max_height: Some(size.height),
                ..*old(self)
            }),
    {
        self.max_width = Some(size.width);
        self.max_height = Some(size.height);
    }

    /// Lift the bound on the minimum width.
    pub fn lift_min_width(&mut self)
        requires
            !old(self).id.is_null(),
        ensures
            *final(self) == (Window { min_width: None, ..*old(self) }),
    {
        self.min_width = None;
    }

    /// Lift the bound on the minimum height.
    pub fn lift_min_height(&mut self)
        requires
            !old(self).id.is_null(),
        ensures
            *final(self) == (Window { min_height: None, ..*old(self) }),
    {
        self.min_height = None;
    }

    /// Lift the bound on the maximum width.
    pub fn lift_max_width(&mut self)
        requires
            !old(self).id.is_null(),
        ensures
            *final(self) == (Window { max_width: None, ..*old(self) }),
    {
        self.max_width = None;
    }

    /// Lift the bound on the maximum height.
    pub fn lift_max_height(&mut self)
        requires
            !old(self).id.is_null(),
        ensures
            *final(self) == (Window { max_height: None, ..*old(self) }),
    {
        self.max_height = None;
    }

    /// Get the identifier of the window.
    pub fn get_id(&self) -> (id: WindowID)
        requires
            !self.id.is_null(),
        ensures
            id == self.id,
    {
        WindowID { hwnd: self.id.hwnd }
    }
}

} // verus!
