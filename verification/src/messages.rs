use vstd::prelude::*;

verus! {

/// An error shown to the user in a window.
#[derive(Debug, Clone, PartialEq, Eq)]
pub struct ErrorMessage {
    /// Whether the error window is currently shown.
    pub is_window_open: bool,
    /// The text of the error, if there is one.
    pub message: Option<String>,
}

/// A (non-error) message shown to the user in a window.
#[derive(Debug, Clone, PartialEq, Eq)]
pub struct WindowMessage {
    /// Whether the message window is currently shown.
    pub is_window_open: bool,
    /// The text of the message, if there is one.
    pub message: Option<String>,
}

/// The view of an optional string as an optional sequence of characters.
pub open spec fn opt_view(s: Option<String>) -> Option<Seq<char>> {
    match s {
        Some(t) => Some(t@),
        None => None,
    }
}

impl ErrorMessage {
    /// The error message as the user sees it: whether its window is open and its text.
    pub open spec fn view(&self) -> (bool, Option<Seq<char>>) {
        (self.is_window_open, opt_view(self.message))
    }

    /// The message that `pure_error_message` builds from `message`.
    pub open spec fn spec_pure(message: Option<Seq<char>>) -> (bool, Option<Seq<char>>) {
        (true, message)
    }

    /// Builds an error message with the given text; its window opens at once.
    pub fn pure_error_message(message: Option<String>) -> (res: ErrorMessage)
        ensures
            res@ == Self::spec_pure(opt_view(message)),
    {
        ErrorMessage { is_window_open: true, message }
    }
}

impl Default for ErrorMessage {
    /// No error: no text and a closed window.
    fn default() -> (res: ErrorMessage)
        ensures
            res@ == (false, None::<Seq<char>>),
    {
        ErrorMessage { is_window_open: false, message: None }
    }
}

impl WindowMessage {
    /// The message as the user sees it: whether its window is open and its text.
    pub open spec fn view(&self) -> (bool, Option<Seq<char>>) {
        (self.is_window_open, opt_view(self.message))
    }

    /// Builds a message with the given text; its window opens at once.
    pub fn window_message(message: Option<String>) -> (res: WindowMessage)
        ensures
            res@ == (true, opt_view(message)),
    {
        WindowMessage { is_window_open: true, message }
    }
}

impl Default for WindowMessage {
    /// No message: no text and a closed window.
    fn default() -> (res: WindowMessage)
        ensures
            res@ == (false, None::<Seq<char>>),
    {
        WindowMessage { is_window_open: false, message: None }
    }
}

} // verus!
