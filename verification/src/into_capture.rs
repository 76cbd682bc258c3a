use vstd::prelude::*;

use crate::capture::Capture;

verus! {

/// Anything sized can be wrapped into a `Capture` by calling `capture` on
/// it, as an alternative to writing `Capture(data)`.
pub trait IntoCapture where Self: Sized {
    /// Wraps `self` into a `Capture` holding exactly this value.
    fn capture(self) -> (r: Capture<Self>)
        ensures
            r.0 == self,
    ;
}

impl<T> IntoCapture for T {
    fn capture(self) -> (r: Capture<T>) {
        Capture(self)
    }
}

} // verus!
