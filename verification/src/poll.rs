//! Taking the value out of a `Poll` that is known to be ready.

use std::task::Poll;
use vstd::prelude::*;

verus! {

/// `std::task::Poll`, with its two variants in view.
#[verifier::external_type_specification]
pub struct ExPoll<T>(Poll<T>);

/// For a poll result of which the caller knows that it is ready.
pub trait PollExt<T>: Sized {
    /// The value, where there is one.
    spec fn ready(&self) -> Option<T>;

    /// Returns the value. A caller that cannot show that there is one must
    /// not call this; `msg` says what the caller expected.
    fn expect(self, msg: &str) -> (value: T)
        requires
            self.ready() is Some,
        ensures
            self.ready() == Some(value),
    ;
}

impl<T> PollExt<T> for Poll<T> {
    open spec fn ready(&self) -> Option<T> {
        match *self {
            Poll::Ready(value) => Some(value),
            Poll::Pending => None,
        }
    }

    fn expect(self, msg: &str) -> (value: T) {
        match self {
            Poll::Ready(value) => value,
            Poll::Pending => unreached(),
        }
    }
}

} // verus!
