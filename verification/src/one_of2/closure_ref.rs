use vstd::prelude::*;

use crate::closure_ref::ClosureRef;
use crate::fun::FunRef;
use crate::one_of::OneOf2;

verus! {

/// `ClosureRefOneOf2` is a closed union of two closures:
///
/// * `ClosureRef<C1, In, Out, F1>`
/// * `ClosureRef<C2, In, Out, F2>`
///
/// It is useful when a closure might capture and work with either of the
/// two types of data; all alternatives share the transformation shape
/// `In -> &Out`.
///
/// Exactly one alternative is held; which one is fixed when the union is
/// built by one of the `into_oneof2_var` conversions, and calling the
/// union returns exactly what the held closure itself would have returned.
pub struct ClosureRefOneOf2<C1, C2, In, Out: ?Sized, F1, F2> {
    closure: OneOf2<ClosureRef<C1, In, Out, F1>,
        ClosureRef<C2, In, Out, F2>>,
}

impl<C1, C2, In, Out: ?Sized, F1, F2> ClosureRefOneOf2<C1, C2, In, Out, F1, F2> {
    /// The one closure alternative held by this union.
    pub closed spec fn spec_closure(self) -> OneOf2<ClosureRef<C1, In, Out, F1>, ClosureRef<C2, In, Out, F2>> {
        self.closure
    }

    /// The captured data of the held alternative, tagged with its slot.
    pub open spec fn spec_captured_data(self) -> OneOf2<C1, C2> {
        match self.spec_closure() {
            OneOf2::Variant1(c) => OneOf2::Variant1(c.spec_captured_data()),
            OneOf2::Variant2(c) => OneOf2::Variant2(c.spec_captured_data()),
        }
    }

    /// Returns a reference to the captured data of whichever alternative
    /// is held, tagged with its slot.
    pub fn captured_data(&self) -> (r: OneOf2<&C1, &C2>)
        ensures
            (match r {
                OneOf2::Variant1(d) => self.spec_captured_data() == OneOf2::<C1, C2>::Variant1(*d),
                OneOf2::Variant2(d) => self.spec_captured_data() == OneOf2::<C1, C2>::Variant2(*d),
            }),
    {
        match &self.closure {
            OneOf2::Variant1(c) => OneOf2::Variant1(c.captured_data()),
            OneOf2::Variant2(c) => OneOf2::Variant2(c.captured_data()),
        }
    }

    /// Consumes the union and returns back the captured data of whichever
    /// alternative is held, tagged with its slot and exactly as captured.
    pub fn into_captured_data(self) -> (r: OneOf2<C1, C2>)
        ensures
            r == self.spec_captured_data(),
    {
        match self.closure {
            OneOf2::Variant1(c) => OneOf2::Variant1(c.into_captured_data()),
            OneOf2::Variant2(c) => OneOf2::Variant2(c.into_captured_data()),
        }
    }
}

impl<C1: Clone, C2: Clone, In, Out: ?Sized, F1: Clone, F2: Clone> Clone for ClosureRefOneOf2<C1, C2, In, Out, F1, F2> {
    /// The clone holds a clone of the same alternative, in the same slot.
    fn clone(&self) -> (res: Self)
        ensures
            (match (self.spec_closure(), res.spec_closure()) {
                (OneOf2::Variant1(a), OneOf2::Variant1(b)) => cloned(a, b),
                (OneOf2::Variant2(a), OneOf2::Variant2(b)) => cloned(a, b),
                _ => false,
            }),
    {
        ClosureRefOneOf2 { closure: self.closure.clone() }
    }
}

impl<C1, C2, In, Out: ?Sized, F1: Fn(&C1, In) -> &Out, F2: Fn(&C2, In) -> &Out> ClosureRefOneOf2<C1, C2, In, Out, F1, F2> {
    /// The held alternative accepts its captured data together with `input`.
    pub open spec fn callable(self, input: In) -> bool {
        match self.spec_closure() {
            OneOf2::Variant1(c) => c.callable(input),
            OneOf2::Variant2(c) => c.callable(input),
        }
    }

    /// `output` is a result the held alternative admits for its captured
    /// data and `input`.
    pub open spec fn call_possible(self, input: In, output: &Out) -> bool {
        match self.spec_closure() {
            OneOf2::Variant1(c) => c.call_possible(input, output),
            OneOf2::Variant2(c) => c.call_possible(input, output),
        }
    }

    /// Calls the union with the given `input`: the call is dispatched to
    /// whichever closure alternative is held, and returns exactly what that
    /// closure itself admits for this input.
    #[inline(always)]
    pub fn call(&self, input: In) -> (r: &Out)
        requires
            self.callable(input),
        ensures
            self.call_possible(input, r),
    {
        match &self.closure {
            OneOf2::Variant1(c) => c.call(input),
            OneOf2::Variant2(c) => c.call(input),
        }
    }

    /// Returns the union as an `impl Fn(In) -> &'_ Out` value:
    /// every call of the result is a call of this union.
    pub fn as_fn<'a>(&'a self) -> (r: impl Fn(In) -> &'a Out)
        ensures
            forall|i: In| self.callable(i) ==> #[trigger] call_requires(r, (i,)),
            forall|i: In, o: &Out| #[trigger] call_ensures(r, (i,), o)
                ==> self.call_possible(i, o),
    {
        (|x: In| -> (res: &'a Out)
            requires
                self.callable(x),
            ensures
                self.call_possible(x, res),
            { self.call(x) })
    }
}

impl<C1, C2, In, Out: ?Sized, F1: Fn(&C1, In) -> &Out, F2: Fn(&C2, In) -> &Out> FunRef<In, Out> for ClosureRefOneOf2<C1, C2, In, Out, F1, F2> {
    #[verifier::inline]
    open spec fn fun_ref_requires(&self, input: In) -> bool {
        self.callable(input)
    }

    #[verifier::inline]
    open spec fn fun_ref_ensures(&self, input: In, output: &Out) -> bool {
        self.call_possible(input, output)
    }

    fn call(&self, input: In) -> (r: &Out) {
        ClosureRefOneOf2::call(self, input)
    }
}

impl<Capture, In, Out: ?Sized, F> ClosureRef<Capture, In, Out, F> {
    /// Transforms this closure into the more general `ClosureRefOneOf2`,
    /// placing it into slot 1 and leaving the other slots' types free
    /// to be chosen by the calling context.
    pub fn into_oneof2_var1<Var2, FVar2>(self) -> (r: ClosureRefOneOf2<Capture, Var2, In, Out, F, FVar2>)
        ensures
            r.spec_closure() == OneOf2::<ClosureRef<Capture, In, Out, F>, ClosureRef<Var2, In, Out, FVar2>>::Variant1(self),
    {
        let closure = OneOf2::Variant1(self);
        ClosureRefOneOf2 { closure }
    }

    /// Transforms this closure into the more general `ClosureRefOneOf2`,
    /// placing it into slot 2 and leaving the other slots' types free
    /// to be chosen by the calling context.
    pub fn into_oneof2_var2<Var1, FVar1>(self) -> (r: ClosureRefOneOf2<Var1, Capture, In, Out, FVar1, F>)
        ensures
            r.spec_closure() == OneOf2::<ClosureRef<Var1, In, Out, FVar1>, ClosureRef<Capture, In, Out, F>>::Variant2(self),
    {
        let closure = OneOf2::Variant2(self);
        ClosureRefOneOf2 { closure }
    }
}

/// Union dispatch correctness: a base closure promoted into a slot of
/// this union accepts an input exactly when the unpromoted closure does,
/// and the union admits an output for that input exactly when the
/// unpromoted closure does — promotion does not alter call semantics.
pub proof fn lemma_closure_ref_oneof2_dispatch<C1, C2, In, Out: ?Sized, F1: Fn(&C1, In) -> &Out, F2: Fn(&C2, In) -> &Out>(
    u: ClosureRefOneOf2<C1, C2, In, Out, F1, F2>,
    c1: ClosureRef<C1, In, Out, F1>,
    c2: ClosureRef<C2, In, Out, F2>,
    input: In,
    output: &Out,
)
    ensures
        call_ensures(ClosureRef::<C1, In, Out, F1>::into_oneof2_var1::<C2, F2>, (c1,), u) ==> (u.callable(input)
            <==> c1.callable(input)) && (u.call_possible(input, output)
            <==> c1.call_possible(input, output)),
        call_ensures(ClosureRef::<C2, In, Out, F2>::into_oneof2_var2::<C1, F1>, (c2,), u) ==> (u.callable(input)
            <==> c2.callable(input)) && (u.call_possible(input, output)
            <==> c2.call_possible(input, output)),
{
}

} // verus!
