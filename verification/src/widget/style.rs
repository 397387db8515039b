//! The states in which a texture canvas is styled.

use crate::widget::State;
use vstd::prelude::*;

verus! {

/// What a theme is asked to style.
#[derive(Debug, Clone, Copy, PartialEq, Eq, Structural)]
pub enum Status {
    /// The pointer is elsewhere.
    Idle,
    /// The pointer is over the image.
    Hovered,
}

impl State {
    /// The status to style the canvas in.
    pub fn status(&self) -> (status: Status)
        ensures
            status == if self@.hovered {
                Status::Hovered
            } else {
                Status::Idle
            },
    {
        if self.is_hovered() {
            Status::Hovered
        } else {
            Status::Idle
        }
    }
}

} // verus!
