use vstd::prelude::*;
use crate::context::AppContext;

verus! {

/// A key press, as the outer event loop hands it to the page.
#[derive(Debug, Clone, Copy, PartialEq, Eq, Structural)]
pub enum Key {
    Up,
    Down,
    Left,
    Right,
    Enter,
    Esc,
    Char(char),
    Ctrl(char),
    Alt(char),
}

/// Whether the page used an event, or leaves it to the rest of the application.
#[derive(Debug, Clone, Copy, PartialEq, Eq, Structural)]
pub enum MessageResponse {
    Consumed,
    NotConsumed,
}

/// A request to move to another page, carrying what that page starts from.
#[derive(Debug)]
pub enum Transition {
    ToVolumePage(AppContext),
    ToDescribeContainerPage(AppContext),
}

} // verus!
