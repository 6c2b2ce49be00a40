//! The error window's state.
use vstd::prelude::*;

verus! {

/// The error shown to the user, and whether its window is open.
#[derive(Debug, PartialEq)]
pub struct ErrorMessage {
    pub error: Option<String>,
    pub is_window_open: bool,
    pub try_to_open_window: bool,
}

/// `m` shows the error text `text` in an open window.
pub open spec fn shows_error(m: ErrorMessage, text: Seq<char>) -> bool {
    &&& m.error matches Some(t) && t@ == text
    &&& m.is_window_open
    &&& !m.try_to_open_window
}

impl ErrorMessage {
    /// No error, window closed.
    pub fn default() -> (r: Self)
        ensures
            r.error is None,
            !r.is_window_open,
            !r.try_to_open_window,
    {
        ErrorMessage { error: None, is_window_open: false, try_to_open_window: false }
    }

    /// An error to show straight away: its window opens.
    pub fn pure_error_message(error: Option<String>) -> (r: Self)
        ensures
            r.error == error,
            r.is_window_open,
            !r.try_to_open_window,
    {
        ErrorMessage { error, is_window_open: true, try_to_open_window: false }
    }

    /// Sets the error and whether its window is open.
    pub fn impure_set_error_message(&mut self, error_message: Option<String>, is_window_shut: bool)
        ensures
            final(self).error == error_message,
            final(self).is_window_open == is_window_shut,
            final(self).try_to_open_window == old(self).try_to_open_window,
    {
        self.error = error_message;
        self.is_window_open = is_window_shut;
    }

    /// One frame of the "Open error window" button, `clicked` telling whether
    /// it was pressed. A press asks for the window; the request is granted
    /// (the window opens) as soon as there is an error. Returns whether the
    /// "There are no errors...!" note shows, that is whether the request is
    /// pending without an error.
    pub fn impure_open_error_window_on_click(&mut self, clicked: bool) -> (no_errors: bool)
        ensures
            no_errors == ((clicked || old(self).try_to_open_window) && old(self).error is None),
            final(self).error == old(self).error,
            final(self).try_to_open_window == ((clicked || old(self).try_to_open_window)
                && old(self).error is None),
            final(self).is_window_open == (old(self).is_window_open || ((clicked
                || old(self).try_to_open_window) && old(self).error is Some)),
    {
        if clicked {
            self.try_to_open_window = true;
        }
        if self.try_to_open_window {
            if self.error.is_none() {
                return true;
            } else {
                self.is_window_open = true;
                self.try_to_open_window = false;
            }
        }
        false
    }
}

} // verus!
