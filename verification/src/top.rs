//! The top screen of the example application: it shows a title and takes no
//! messages.

use vstd::prelude::*;

verus! {

/// The top screen.
#[derive(Clone, Copy, Debug, PartialEq, Eq, Structural)]
pub struct Screen;

/// A message to the top screen. There is none: the type has no value.
#[derive(Clone, Copy, Debug)]
pub enum Message {
    Never(core::convert::Infallible),
}

impl Default for Screen {
    fn default() -> (screen: Self)
        ensures
            screen == Screen,
    {
        Screen
    }
}

impl Screen {
    /// Takes a message, which leaves the screen as it is.
    pub fn update(&mut self, message: Message)
        ensures
            *final(self) == *old(self),
    {
    }
}

} // verus!
