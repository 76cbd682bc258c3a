use vstd::prelude::*;

use crate::closure_opt_ref::ClosureOptRef;
use crate::closure_ref::ClosureRef;
use crate::closure_res_ref::ClosureResRef;
use crate::closure_val::Closure;

verus! {

/// A utility wrapper which simply wraps around data to be captured and
/// allows methods to define desired closures.
///
/// Closures defined in this crate are built by
///
/// * `Capture(data)`, which does nothing but capture the `data`,
/// * followed by:
///   * `fun(f)` to create a `Closure`,
///   * `fun_ref(f)` to create a `ClosureRef`,
///   * `fun_option_ref(f)` to create a `ClosureOptRef`,
///   * `fun_result_ref(f)` to create a `ClosureResRef`,
///
/// where `f` is a non-capturing function of the matching signature.
///
/// All these methods consume the wrapper, moving the data into the
/// corresponding closure; the contracts state that the closure holds exactly
/// the captured data and exactly the given transformation.
///
/// The desired way to capture is decided by the caller: `Capture(data)`
/// moves the data into the capture and eventually into the closure,
/// `Capture(&data)` captures only a reference to the data, and
/// `Capture(data.clone())` moves a clone of the data.
pub struct Capture<Data>(pub Data);

impl<Data> Capture<Data> {
    /// Defines a `Closure` capturing `Data` and defining an `In -> Out`
    /// transformation.
    ///
    /// Consumes the `Capture` and moves the captured data inside the
    /// created closure.
    pub fn fun<In, Out, F: Fn(&Data, In) -> Out>(self, fun: F) -> (r: Closure<Data, In, Out, F>)
        ensures
            r.spec_captured_data() == self.0,
            r.spec_fun() == fun,
    {
        Closure::new(self.0, fun)
    }

    /// Defines a `ClosureRef` capturing `Data` and defining an `In -> &Out`
    /// transformation.
    ///
    /// Consumes the `Capture` and moves the captured data inside the
    /// created closure.
    ///
    /// This closure variant is needed when the data is captured by
    /// ownership rather than as a reference, and the call returns a
    /// reference into it.
    pub fn fun_ref<In, Out: ?Sized, F: Fn(&Data, In) -> &Out>(self, fun: F) -> (r: ClosureRef<
        Data,
        In,
        Out,
        F,
    >)
        ensures
            r.spec_captured_data() == self.0,
            r.spec_fun() == fun,
    {
        ClosureRef::new(self.0, fun)
    }

    /// Defines a `ClosureOptRef` capturing `Data` and defining an
    /// `In -> Option<&Out>` transformation.
    ///
    /// Consumes the `Capture` and moves the captured data inside the
    /// created closure.
    ///
    /// This closure variant is needed when the data is captured by
    /// ownership rather than as a reference, and the call returns an
    /// optional reference into it.
    pub fn fun_option_ref<In, Out: ?Sized, F: Fn(&Data, In) -> Option<&Out>>(self, fun: F) -> (r:
        ClosureOptRef<Data, In, Out, F>)
        ensures
            r.spec_captured_data() == self.0,
            r.spec_fun() == fun,
    {
        ClosureOptRef::new(self.0, fun)
    }

    /// Defines a `ClosureResRef` capturing `Data` and defining an
    /// `In -> Result<&Out, Error>` transformation.
    ///
    /// Consumes the `Capture` and moves the captured data inside the
    /// created closure.
    ///
    /// This closure variant is needed when the data is captured by
    /// ownership rather than as a reference, and the call returns a
    /// fallible reference into it.
    pub fn fun_result_ref<In, Out: ?Sized, Error, F: Fn(&Data, In) -> Result<&Out, Error>>(
        self,
        fun: F,
    ) -> (r: ClosureResRef<Data, In, Out, Error, F>)
        ensures
            r.spec_captured_data() == self.0,
            r.spec_fun() == fun,
    {
        ClosureResRef::new(self.0, fun)
    }

    /// Consumes the `Capture` and returns back the captured data.
    pub fn into_captured_data(self) -> (r: Data)
        ensures
            r == self.0,
    {
        self.0
    }
}

/// Round-trip of captured data, value shape: for every value `cap.0` and
/// transformation `f`, a closure built by `fun` and immediately consumed by
/// `into_captured_data` gives back exactly the captured value.
pub proof fn lemma_fun_round_trip<Data, In, Out, F: Fn(&Data, In) -> Out>(
    cap: Capture<Data>,
    f: F,
    c: Closure<Data, In, Out, F>,
    r: Data,
)
    requires
        call_ensures(Capture::<Data>::fun::<In, Out, F>, (cap, f), c),
        call_ensures(Closure::<Data, In, Out, F>::into_captured_data, (c,), r),
    ensures
        r == cap.0,
{
}

/// Round-trip of captured data, reference shape: for every value `cap.0` and
/// transformation `f`, a closure built by `fun_ref` and immediately consumed
/// by `into_captured_data` gives back exactly the captured value.
pub proof fn lemma_fun_ref_round_trip<Data, In, Out: ?Sized, F: Fn(&Data, In) -> &Out>(
    cap: Capture<Data>,
    f: F,
    c: ClosureRef<Data, In, Out, F>,
    r: Data,
)
    requires
        call_ensures(Capture::<Data>::fun_ref::<In, Out, F>, (cap, f), c),
        call_ensures(ClosureRef::<Data, In, Out, F>::into_captured_data, (c,), r),
    ensures
        r == cap.0,
{
}

/// Round-trip of captured data, optional-reference shape: for every value
/// `cap.0` and transformation `f`, a closure built by `fun_option_ref` and
/// immediately consumed by `into_captured_data` gives back exactly the
/// captured value.
pub proof fn lemma_fun_option_ref_round_trip<
    Data,
    In,
    Out: ?Sized,
    F: Fn(&Data, In) -> Option<&Out>,
>(
    cap: Capture<Data>,
    f: F,
    c: ClosureOptRef<Data, In, Out, F>,
    r: Data,
)
    requires
        call_ensures(Capture::<Data>::fun_option_ref::<In, Out, F>, (cap, f), c),
        call_ensures(ClosureOptRef::<Data, In, Out, F>::into_captured_data, (c,), r),
    ensures
        r == cap.0,
{
}

/// Round-trip of captured data, fallible-reference shape: for every value
/// `cap.0` and transformation `f`, a closure built by `fun_result_ref` and
/// immediately consumed by `into_captured_data` gives back exactly the
/// captured value.
pub proof fn lemma_fun_result_ref_round_trip<
    Data,
    In,
    Out: ?Sized,
    Error,
    F: Fn(&Data, In) -> Result<&Out, Error>,
>(
    cap: Capture<Data>,
    f: F,
    c: ClosureResRef<Data, In, Out, Error, F>,
    r: Data,
)
    requires
        call_ensures(Capture::<Data>::fun_result_ref::<In, Out, Error, F>, (cap, f), c),
        call_ensures(ClosureResRef::<Data, In, Out, Error, F>::into_captured_data, (c,), r),
    ensures
        r == cap.0,
{
}

} // verus!
