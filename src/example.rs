//! The demo window around two charts: one button, which does nothing.
use vstd::prelude::*;

verus! {

#[derive(Clone, Copy, Debug, PartialEq, Eq, Structural)]
pub enum Message {
    Submit,
}

#[derive(Clone, Copy, Debug, PartialEq, Eq, Structural)]
pub struct CardExample {}

impl CardExample {
    pub fn new() -> (r: Self)
        ensures
            r == (CardExample {}),
    {
        CardExample {}
    }

    /// The button's message changes nothing.
    pub fn update(&mut self, message: Message)
        ensures
            *final(self) == *old(self),
    {
        match message {
            Message::Submit => {},
        }
    }
}

} // verus!
