use vstd::prelude::*;

use core::marker::PhantomData;

use crate::debug_str::{captured_debug_string, debug_wrap};
use crate::fun::FunResRef;

verus! {

/// Closure strictly separating the captured data from the transformation,
/// and hence, having two components:
///
/// * `Capture` is any captured data,
/// * `F` is a transformation from a reference to the data and an input to
///   a caller-defined result of a reference into the captured data or an error, meant to be a non-capturing
///   function.
///
/// It represents the transformation `In -> Result<&Out, Error>`.
///
/// The contracts speak through `spec_captured_data` and `spec_fun`: a call
/// returns a value that the transformation itself admits for the captured
/// data and the given input, and the captured data can be taken back out
/// exactly as it was captured.
pub struct ClosureResRef<Capture, In, Out: ?Sized, Error, F> {
    capture: Capture,
    fun: F,
    marker: PhantomData<(In, Error, PhantomData<Out>)>,
}

impl<Capture, In, Out: ?Sized, Error, F> ClosureResRef<Capture, In, Out, Error, F> {
    /// The captured data held by this closure.
    pub closed spec fn spec_captured_data(self) -> Capture {
        self.capture
    }

    /// The transformation held by this closure.
    pub closed spec fn spec_fun(self) -> F {
        self.fun
    }

    pub(crate) fn new(capture: Capture, fun: F) -> (r: Self)
        ensures
            r.spec_captured_data() == capture,
            r.spec_fun() == fun,
    {
        ClosureResRef { capture, fun, marker: PhantomData }
    }

    /// Returns a reference to the captured data.
    #[inline(always)]
    pub fn captured_data(&self) -> (r: &Capture)
        ensures
            *r == self.spec_captured_data(),
    {
        &self.capture
    }

    /// Consumes the closure and returns back the captured data, exactly as
    /// it was captured.
    pub fn into_captured_data(self) -> (r: Capture)
        ensures
            r == self.spec_captured_data(),
    {
        self.capture
    }

    /// The debug string of this closure: the fixed wrapper around the
    /// captured data's own debug string.  The transformation is never shown.
    pub fn debug_string(&self) -> (r: String) where Capture: core::fmt::Debug
        ensures
            exists|data: Seq<char>|
                r@ == "ClosureResRef"@ + " { capture: "@ + data + " }"@,
    {
        let value = captured_debug_string(&self.capture);
        let r = debug_wrap("ClosureResRef", value.as_str());
        proof {
            assert(r@ == "ClosureResRef"@ + " { capture: "@ + value@ + " }"@);
        }
        r
    }
}

impl<Capture: Clone, In, Out: ?Sized, Error, F: Clone> Clone for ClosureResRef<Capture, In, Out, Error, F> {
    /// The clone pairs a clone of the captured data with a clone of the
    /// transformation; the original is left untouched.
    fn clone(&self) -> (res: Self)
        ensures
            cloned(self.spec_captured_data(), res.spec_captured_data()),
            cloned(self.spec_fun(), res.spec_fun()),
    {
        ClosureResRef { capture: self.capture.clone(), fun: self.fun.clone(), marker: PhantomData }
    }
}

impl<Capture, In, Out: ?Sized, Error, F: Fn(&Capture, In) -> Result<&Out, Error>> ClosureResRef<Capture, In, Out, Error, F> {
    /// The transformation accepts the captured data together with `input`.
    pub open spec fn callable(self, input: In) -> bool {
        call_requires(self.spec_fun(), (&self.spec_captured_data(), input))
    }

    /// `output` is a result the transformation admits for the captured data
    /// and `input`.
    pub open spec fn call_possible(self, input: In, output: Result<&Out, Error>) -> bool {
        call_ensures(self.spec_fun(), (&self.spec_captured_data(), input), output)
    }

    /// Calls the closure with the given `input`.
    ///
    /// The receiver is shared, so a call can never change the captured data;
    /// the result is one the stored transformation admits for it.
    #[inline(always)]
    pub fn call(&self, input: In) -> (r: Result<&Out, Error>)
        requires
            self.callable(input),
        ensures
            self.call_possible(input, r),
    {
        (self.fun)(&self.capture, input)
    }

    /// Returns the closure as an `impl Fn(In) -> Result<&'_ Out, Error>` value:
    /// every call of the result is a call of this closure.
    pub fn as_fn<'a>(&'a self) -> (r: impl Fn(In) -> Result<&'a Out, Error>)
        ensures
            forall|i: In| self.callable(i) ==> #[trigger] call_requires(r, (i,)),
            forall|i: In, o: Result<&Out, Error>| #[trigger] call_ensures(r, (i,), o)
                ==> self.call_possible(i, o),
    {
        (|x: In| -> (res: Result<&'a Out, Error>)
            requires
                self.callable(x),
            ensures
                self.call_possible(x, res),
            { self.call(x) })
    }
}

impl<Capture, In, Out: ?Sized, Error, F: Fn(&Capture, In) -> Result<&Out, Error>> FunResRef<In, Out, Error> for ClosureResRef<Capture, In, Out, Error, F> {
    #[verifier::inline]
    open spec fn fun_res_ref_requires(&self, input: In) -> bool {
        self.callable(input)
    }

    #[verifier::inline]
    open spec fn fun_res_ref_ensures(&self, input: In, output: Result<&Out, Error>) -> bool {
        self.call_possible(input, output)
    }

    fn call(&self, input: In) -> (r: Result<&Out, Error>) {
        ClosureResRef::call(self, input)
    }
}

/// Calling a closure is transparent: a call through a shared receiver cannot
/// change the captured data, and whenever the transformation admits exactly
/// one output for the captured data and an input, every call with that input
/// returns that output, however often it is repeated.
pub proof fn lemma_closure_res_ref_call_deterministic<Capture, In, Out: ?Sized, Error, F: Fn(&Capture, In) -> Result<&Out, Error>>(
    c: ClosureResRef<Capture, In, Out, Error, F>,
    input: In,
    out: Result<&Out, Error>,
    r1: Result<&Out, Error>,
    r2: Result<&Out, Error>,
)
    requires
        forall|o: Result<&Out, Error>| c.call_possible(input, o) ==> o == out,
        c.call_possible(input, r1),
        c.call_possible(input, r2),
    ensures
        r1 == out,
        r2 == out,
{
}

} // verus!
