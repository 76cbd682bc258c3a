use vstd::prelude::*;

verus! {

/// Function trait representing an `In -> Out` transformation.
///
/// It provides the common call interface for closures such as
/// `Closure<Capture, In, Out, F>`, over all capture types.
///
/// The two spec functions describe the implementor's call contract:
/// `fun_requires` says which inputs may be passed, and `fun_ensures` says
/// which outputs a call may return.  Every value that can be called as an
/// ordinary `Fn(In) -> Out` also implements `Fun<In, Out>`.
pub trait Fun<In, Out> {
    /// The inputs this function accepts.
    spec fn fun_requires(&self, input: In) -> bool;

    /// The outputs a call with `input` may return.
    spec fn fun_ensures(&self, input: In, output: Out) -> bool;

    /// Calls the function with the given `input` and returns the produced
    /// output.
    fn call(&self, input: In) -> (r: Out)
        requires
            self.fun_requires(input),
        ensures
            self.fun_ensures(input, r),
    ;
}

impl<In, Out, F: Fn(In) -> Out> Fun<In, Out> for F {
    #[verifier::inline]
    open spec fn fun_requires(&self, input: In) -> bool {
        call_requires(*self, (input,))
    }

    #[verifier::inline]
    open spec fn fun_ensures(&self, input: In, output: Out) -> bool {
        call_ensures(*self, (input,), output)
    }

    fn call(&self, input: In) -> (r: Out) {
        (*self)(input)
    }
}

/// Function trait representing an `In -> &Out` transformation.
///
/// It provides the common call interface for closures such as
/// `ClosureRef<Capture, In, Out, F>`, over all capture types: the returned
/// reference borrows from the callee itself.
pub trait FunRef<In, Out: ?Sized> {
    /// The inputs this function accepts.
    spec fn fun_ref_requires(&self, input: In) -> bool;

    /// The outputs a call with `input` may return.
    spec fn fun_ref_ensures(&self, input: In, output: &Out) -> bool;

    /// Calls the function with the given `input` and returns the produced
    /// output.
    fn call(&self, input: In) -> (r: &Out)
        requires
            self.fun_ref_requires(input),
        ensures
            self.fun_ref_ensures(input, r),
    ;
}

/// Function trait representing an `In -> Option<&Out>` transformation.
///
/// It provides the common call interface for closures such as
/// `ClosureOptRef<Capture, In, Out, F>`, over all capture types: the
/// returned reference, when present, borrows from the callee itself.
pub trait FunOptRef<In, Out: ?Sized> {
    /// The inputs this function accepts.
    spec fn fun_opt_ref_requires(&self, input: In) -> bool;

    /// The outputs a call with `input` may return.
    spec fn fun_opt_ref_ensures(&self, input: In, output: Option<&Out>) -> bool;

    /// Calls the function with the given `input` and returns the produced
    /// output.
    fn call(&self, input: In) -> (r: Option<&Out>)
        requires
            self.fun_opt_ref_requires(input),
        ensures
            self.fun_opt_ref_ensures(input, r),
    ;
}

/// Function trait representing an `In -> Result<&Out, Error>` transformation.
///
/// It provides the common call interface for closures such as
/// `ClosureResRef<Capture, In, Out, Error, F>`, over all capture types: the
/// returned reference, on success, borrows from the callee itself, and the
/// error is caller-defined and passed through unchanged.
pub trait FunResRef<In, Out: ?Sized, Error> {
    /// The inputs this function accepts.
    spec fn fun_res_ref_requires(&self, input: In) -> bool;

    /// The outputs a call with `input` may return.
    spec fn fun_res_ref_ensures(&self, input: In, output: Result<&Out, Error>) -> bool;

    /// Calls the function with the given `input` and returns the produced
    /// output.
    fn call(&self, input: In) -> (r: Result<&Out, Error>)
        requires
            self.fun_res_ref_requires(input),
        ensures
            self.fun_res_ref_ensures(input, r),
    ;
}

} // verus!
