use vstd::prelude::*;

use crate::closure_ref::ClosureRef;
use crate::fun::FunRef;
use crate::one_of::OneOf4;

verus! {

/// `ClosureRefOneOf4` is a closed union of four closures:
///
/// * `ClosureRef<C1, In, Out, F1>`
/// * `ClosureRef<C2, In, Out, F2>`
/// * `ClosureRef<C3, In, Out, F3>`
/// * `ClosureRef<C4, In, Out, F4>`
///
/// It is useful when a closure might capture and work with either of the
/// four types of data; all alternatives share the transformation shape
/// `In -> &Out`.
///
/// Exactly one alternative is held; which one is fixed when the union is
/// built by one of the `into_oneof4_var` conversions, and calling the
/// union returns exactly what the held closure itself would have returned.
pub struct ClosureRefOneOf4<C1, C2, C3, C4, In, Out: ?Sized, F1, F2, F3, F4> {
    closure: OneOf4<ClosureRef<C1, In, Out, F1>,
        ClosureRef<C2, In, Out, F2>,
        ClosureRef<C3, In, Out, F3>,
        ClosureRef<C4, In, Out, F4>>,
}

impl<C1, C2, C3, C4, In, Out: ?Sized, F1, F2, F3, F4> ClosureRefOneOf4<C1, C2, C3, C4, In, Out, F1, F2, F3, F4> {
    /// The one closure alternative held by this union.
    pub closed spec fn spec_closure(self) -> OneOf4<ClosureRef<C1, In, Out, F1>, ClosureRef<C2, In, Out, F2>, ClosureRef<C3, In, Out, F3>, ClosureRef<C4, In, Out, F4>> {
        self.closure
    }

    /// The captured data of the held alternative, tagged with its slot.
    pub open spec fn spec_captured_data(self) -> OneOf4<C1, C2, C3, C4> {
        match self.spec_closure() {
            OneOf4::Variant1(c) => OneOf4::Variant1(c.spec_captured_data()),
            OneOf4::Variant2(c) => OneOf4::Variant2(c.spec_captured_data()),
            OneOf4::Variant3(c) => OneOf4::Variant3(c.spec_captured_data()),
            OneOf4::Variant4(c) => OneOf4::Variant4(c.spec_captured_data()),
        }
    }

    /// Returns a reference to the captured data of whichever alternative
    /// is held, tagged with its slot.
    pub fn captured_data(&self) -> (r: OneOf4<&C1, &C2, &C3, &C4>)
        ensures
            (match r {
                OneOf4::Variant1(d) => self.spec_captured_data() == OneOf4::<C1, C2, C3, C4>::Variant1(*d),
                OneOf4::Variant2(d) => self.spec_captured_data() == OneOf4::<C1, C2, C3, C4>::Variant2(*d),
                OneOf4::Variant3(d) => self.spec_captured_data() == OneOf4::<C1, C2, C3, C4>::Variant3(*d),
                OneOf4::Variant4(d) => self.spec_captured_data() == OneOf4::<C1, C2, C3, C4>::Variant4(*d),
            }),
    {
        match &self.closure {
            OneOf4::Variant1(c) => OneOf4::Variant1(c.captured_data()),
            OneOf4::Variant2(c) => OneOf4::Variant2(c.captured_data()),
            OneOf4::Variant3(c) => OneOf4::Variant3(c.captured_data()),
            OneOf4::Variant4(c) => OneOf4::Variant4(c.captured_data()),
        }
    }

    /// Consumes the union and returns back the captured data of whichever
    /// alternative is held, tagged with its slot and exactly as captured.
    pub fn into_captured_data(self) -> (r: OneOf4<C1, C2, C3, C4>)
        ensures
            r == self.spec_captured_data(),
    {
        match self.closure {
            OneOf4::Variant1(c) => OneOf4::Variant1(c.into_captured_data()),
            OneOf4::Variant2(c) => OneOf4::Variant2(c.into_captured_data()),
            OneOf4::Variant3(c) => OneOf4::Variant3(c.into_captured_data()),
            OneOf4::Variant4(c) => OneOf4::Variant4(c.into_captured_data()),
        }
    }
}

impl<C1: Clone, C2: Clone, C3: Clone, C4: Clone, In, Out: ?Sized, F1: Clone, F2: Clone, F3: Clone, F4: Clone> Clone for ClosureRefOneOf4<C1, C2, C3, C4, In, Out, F1, F2, F3, F4> {
    /// The clone holds a clone of the same alternative, in the same slot.
    fn clone(&self) -> (res: Self)
        ensures
            (match (self.spec_closure(), res.spec_closure()) {
                (OneOf4::Variant1(a), OneOf4::Variant1(b)) => cloned(a, b),
                (OneOf4::Variant2(a), OneOf4::Variant2(b)) => cloned(a, b),
                (OneOf4::Variant3(a), OneOf4::Variant3(b)) => cloned(a, b),
                (OneOf4::Variant4(a), OneOf4::Variant4(b)) => cloned(a, b),
                _ => false,
            }),
    {
        ClosureRefOneOf4 { closure: self.closure.clone() }
    }
}

impl<C1, C2, C3, C4, In, Out: ?Sized, F1: Fn(&C1, In) -> &Out, F2: Fn(&C2, In) -> &Out, F3: Fn(&C3, In) -> &Out, F4: Fn(&C4, In) -> &Out> ClosureRefOneOf4<C1, C2, C3, C4, In, Out, F1, F2, F3, F4> {
    /// The held alternative accepts its captured data together with `input`.
    pub open spec fn callable(self, input: In) -> bool {
        match self.spec_closure() {
            OneOf4::Variant1(c) => c.callable(input),
            OneOf4::Variant2(c) => c.callable(input),
            OneOf4::Variant3(c) => c.callable(input),
            OneOf4::Variant4(c) => c.callable(input),
        }
    }

    /// `output` is a result the held alternative admits for its captured
    /// data and `input`.
    pub open spec fn call_possible(self, input: In, output: &Out) -> bool {
        match self.spec_closure() {
            OneOf4::Variant1(c) => c.call_possible(input, output),
            OneOf4::Variant2(c) => c.call_possible(input, output),
            OneOf4::Variant3(c) => c.call_possible(input, output),
            OneOf4::Variant4(c) => c.call_possible(input, output),
        }
    }

    /// Calls the union with the given `input`: the call is dispatched to
    /// whichever closure alternative is held, and returns exactly what that
    /// closure itself admits for this input.
    #[inline(always)]
    pub fn call(&self, input: In) -> (r: &Out)
        requires
            self.callable(input),
        ensures
            self.call_possible(input, r),
    {
        match &self.closure {
            OneOf4::Variant1(c) => c.call(input),
            OneOf4::Variant2(c) => c.call(input),
            OneOf4::Variant3(c) => c.call(input),
            OneOf4::Variant4(c) => c.call(input),
        }
    }

    /// Returns the union as an `impl Fn(In) -> &'_ Out` value:
    /// every call of the result is a call of this union.
    pub fn as_fn<'a>(&'a self) -> (r: impl Fn(In) -> &'a Out)
        ensures
            forall|i: In| self.callable(i) ==> #[trigger] call_requires(r, (i,)),
            forall|i: In, o: &Out| #[trigger] call_ensures(r, (i,), o)
                ==> self.call_possible(i, o),
    {
        (|x: In| -> (res: &'a Out)
            requires
                self.callable(x),
            ensures
                self.call_possible(x, res),
            { self.call(x) })
    }
}

impl<C1, C2, C3, C4, In, Out: ?Sized, F1: Fn(&C1, In) -> &Out, F2: Fn(&C2, In) -> &Out, F3: Fn(&C3, In) -> &Out, F4: Fn(&C4, In) -> &Out> FunRef<In, Out> for ClosureRefOneOf4<C1, C2, C3, C4, In, Out, F1, F2, F3, F4> {
    #[verifier::inline]
    open spec fn fun_ref_requires(&self, input: In) -> bool {
        self.callable(input)
    }

    #[verifier::inline]
    open spec fn fun_ref_ensures(&self, input: In, output: &Out) -> bool {
        self.call_possible(input, output)
    }

    fn call(&self, input: In) -> (r: &Out) {
        ClosureRefOneOf4::call(self, input)
    }
}

impl<Capture, In, Out: ?Sized, F> ClosureRef<Capture, In, Out, F> {
    /// Transforms this closure into the more general `ClosureRefOneOf4`,
    /// placing it into slot 1 and leaving the other slots' types free
    /// to be chosen by the calling context.
    pub fn into_oneof4_var1<Var2, FVar2, Var3, FVar3, Var4, FVar4>(self) -> (r: ClosureRefOneOf4<Capture, Var2, Var3, Var4, In, Out, F, FVar2, FVar3, FVar4>)
        ensures
            r.spec_closure() == OneOf4::<ClosureRef<Capture, In, Out, F>, ClosureRef<Var2, In, Out, FVar2>, ClosureRef<Var3, In, Out, FVar3>, ClosureRef<Var4, In, Out, FVar4>>::Variant1(self),
    {
        let closure = OneOf4::Variant1(self);
        ClosureRefOneOf4 { closure }
    }

    /// Transforms this closure into the more general `ClosureRefOneOf4`,
    /// placing it into slot 2 and leaving the other slots' types free
    /// to be chosen by the calling context.
    pub fn into_oneof4_var2<Var1, FVar1, Var3, FVar3, Var4, FVar4>(self) -> (r: ClosureRefOneOf4<Var1, Capture, Var3, Var4, In, Out, FVar1, F, FVar3, FVar4>)
        ensures
            r.spec_closure() == OneOf4::<ClosureRef<Var1, In, Out, FVar1>, ClosureRef<Capture, In, Out, F>, ClosureRef<Var3, In, Out, FVar3>, ClosureRef<Var4, In, Out, FVar4>>::Variant2(self),
    {
        let closure = OneOf4::Variant2(self);
        ClosureRefOneOf4 { closure }
    }

    /// Transforms this closure into the more general `ClosureRefOneOf4`,
    /// placing it into slot 3 and leaving the other slots' types free
    /// to be chosen by the calling context.
    pub fn into_oneof4_var3<Var1, FVar1, Var2, FVar2, Var4, FVar4>(self) -> (r: ClosureRefOneOf4<Var1, Var2, Capture, Var4, In, Out, FVar1, FVar2, F, FVar4>)
        ensures
            r.spec_closure() == OneOf4::<ClosureRef<Var1, In, Out, FVar1>, ClosureRef<Var2, In, Out, FVar2>, ClosureRef<Capture, In, Out, F>, ClosureRef<Var4, In, Out, FVar4>>::Variant3(self),
    {
        let closure = OneOf4::Variant3(self);
        ClosureRefOneOf4 { closure }
    }

    /// Transforms this closure into the more general `ClosureRefOneOf4`,
    /// placing it into slot 4 and leaving the other slots' types free
    /// to be chosen by the calling context.
    pub fn into_oneof4_var4<Var1, FVar1, Var2, FVar2, Var3, FVar3>(self) -> (r: ClosureRefOneOf4<Var1, Var2, Var3, Capture, In, Out, FVar1, FVar2, FVar3, F>)
        ensures
            r.spec_closure() == OneOf4::<ClosureRef<Var1, In, Out, FVar1>, ClosureRef<Var2, In, Out, FVar2>, ClosureRef<Var3, In, Out, FVar3>, ClosureRef<Capture, In, Out, F>>::Variant4(self),
    {
        let closure = OneOf4::Variant4(self);
        ClosureRefOneOf4 { closure }
    }
}

/// Union dispatch correctness: a base closure promoted into a slot of
/// this union accepts an input exactly when the unpromoted closure does,
/// and the union admits an output for that input exactly when the
/// unpromoted closure does — promotion does not alter call semantics.
pub proof fn lemma_closure_ref_oneof4_dispatch<C1, C2, C3, C4, In, Out: ?Sized, F1: Fn(&C1, In) -> &Out, F2: Fn(&C2, In) -> &Out, F3: Fn(&C3, In) -> &Out, F4: Fn(&C4, In) -> &Out>(
    u: ClosureRefOneOf4<C1, C2, C3, C4, In, Out, F1, F2, F3, F4>,
    c1: ClosureRef<C1, In, Out, F1>,
    c2: ClosureRef<C2, In, Out, F2>,
    c3: ClosureRef<C3, In, Out, F3>,
    c4: ClosureRef<C4, In, Out, F4>,
    input: In,
    output: &Out,
)
    ensures
        call_ensures(ClosureRef::<C1, In, Out, F1>::into_oneof4_var1::<C2, F2, C3, F3, C4, F4>, (c1,), u) ==> (u.callable(input)
            <==> c1.callable(input)) && (u.call_possible(input, output)
            <==> c1.call_possible(input, output)),
        call_ensures(ClosureRef::<C2, In, Out, F2>::into_oneof4_var2::<C1, F1, C3, F3, C4, F4>, (c2,), u) ==> (u.callable(input)
            <==> c2.callable(input)) && (u.call_possible(input, output)
            <==> c2.call_possible(input, output)),
        call_ensures(ClosureRef::<C3, In, Out, F3>::into_oneof4_var3::<C1, F1, C2, F2, C4, F4>, (c3,), u) ==> (u.callable(input)
            <==> c3.callable(input)) && (u.call_possible(input, output)
            <==> c3.call_possible(input, output)),
        call_ensures(ClosureRef::<C4, In, Out, F4>::into_oneof4_var4::<C1, F1, C2, F2, C3, F3>, (c4,), u) ==> (u.callable(input)
            <==> c4.callable(input)) && (u.call_possible(input, output)
            <==> c4.call_possible(input, output)),
{
}

} // verus!
