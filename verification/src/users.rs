//! The users screen of the example application: it lists the users once they
//! are loaded, and takes no messages.

use vstd::prelude::*;

verus! {

/// A message to the users screen. There is none: the type has no value.
#[derive(Clone, Copy, Debug)]
pub enum Message {
    Never(core::convert::Infallible),
}

/// Takes a message to the users screen and returns the message that follows
/// from it, which is none.
#[must_use]
pub fn update(message: Message) -> (next: Option<Message>)
    ensures
        next is None,
{
    None
}

} // verus!
