//! The capability of sending a payload out of the node.
use crate::types::SensorOutput;
use vstd::prelude::*;

verus! {

/// What a communicator answers to a payload it has taken: nothing, for the
/// fire-and-forget channels the controller drives.
pub type Response = ();

/// A payload could not be transmitted; the text says why.
#[derive(Debug, PartialEq, Eq)]
pub struct CommunicatorError {
    pub message: String,
}

impl Clone for CommunicatorError {
    /// A copy with the same text.
    fn clone(&self) -> (copy: Self)
        ensures
            copy == *self,
    {
        CommunicatorError { message: self.message.clone() }
    }
}

/// The single outbound channel of a node. It may keep connection state
/// between calls, and has to bound its own blocking time.
pub trait Communicator: Send {
    /// Transmits `payload`.
    fn send(&mut self, payload: SensorOutput) -> Result<Response, CommunicatorError>;
}

/// A boxed communicator is a communicator: it hands the payload on.
impl<C: Communicator + ?Sized> Communicator for Box<C> {
    /// Sends `payload` through the communicator in the box and returns its
    /// answer: the answer is one that this communicator gives to `payload`,
    /// and the box then holds the communicator as that call left it.
    fn send(&mut self, payload: SensorOutput) -> (response: Result<Response, CommunicatorError>)
        ensures
            exists|inner: &mut C|
                &*inner == &**old(self) && &*final(inner) == &**final(self)
                    && #[trigger] call_ensures(C::send, (inner, payload), response),
    {
        let inner: &mut C = &mut **self;
        C::send(inner, payload)
    }
}

} // verus!
