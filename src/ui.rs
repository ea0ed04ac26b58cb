//! Which window the interface shows.
use vstd::prelude::*;

verus! {

/// The windows of the interface.
#[derive(Clone, Copy, PartialEq, Eq, Structural, Debug)]
pub enum Window {
    Home,
    Browser,
    Queue,
}

/// The interface's state: the window on screen.
pub struct Ui {
    pub current_window: Window,
}

impl Ui {
    /// Starts on the home window.
    pub fn new() -> (u: Ui)
        ensures
            u.current_window == Window::Home,
    {
        Ui { current_window: Window::Home }
    }

    /// The window on screen.
    pub fn get_current_window(&self) -> (w: Window)
        ensures
            w == self.current_window,
    {
        self.current_window
    }

    /// Switches to `window`.
    pub fn set_current_window(&mut self, window: Window)
        ensures
            final(self).current_window == window,
    {
        self.current_window = window;
    }
}

} // verus!
