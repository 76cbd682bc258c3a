use vstd::prelude::*;

verus! {

/// One of the two variants.
#[derive(Debug, PartialEq, Eq)]
pub enum OneOf2<C1, C2> {
    /// First variant.
    Variant1(C1),
    /// Second variant.
    Variant2(C2),
}

impl<C1: Clone, C2: Clone> Clone for OneOf2<C1, C2> {
    /// The clone holds the same variant, with the contained value cloned.
    fn clone(&self) -> (res: Self)
        ensures
            (match (*self, res) {
                (OneOf2::Variant1(a), OneOf2::Variant1(b)) => cloned(a, b),
                (OneOf2::Variant2(a), OneOf2::Variant2(b)) => cloned(a, b),
                _ => false,
            }),
    {
        match self {
            OneOf2::Variant1(a) => OneOf2::Variant1(a.clone()),
            OneOf2::Variant2(a) => OneOf2::Variant2(a.clone()),
        }
    }
}

/// One of the three variants.
#[derive(Debug, PartialEq, Eq)]
pub enum OneOf3<C1, C2, C3> {
    /// First variant.
    Variant1(C1),
    /// Second variant.
    Variant2(C2),
    /// Third variant.
    Variant3(C3),
}

impl<C1: Clone, C2: Clone, C3: Clone> Clone for OneOf3<C1, C2, C3> {
    /// The clone holds the same variant, with the contained value cloned.
    fn clone(&self) -> (res: Self)
        ensures
            (match (*self, res) {
                (OneOf3::Variant1(a), OneOf3::Variant1(b)) => cloned(a, b),
                (OneOf3::Variant2(a), OneOf3::Variant2(b)) => cloned(a, b),
                (OneOf3::Variant3(a), OneOf3::Variant3(b)) => cloned(a, b),
                _ => false,
            }),
    {
        match self {
            OneOf3::Variant1(a) => OneOf3::Variant1(a.clone()),
            OneOf3::Variant2(a) => OneOf3::Variant2(a.clone()),
            OneOf3::Variant3(a) => OneOf3::Variant3(a.clone()),
        }
    }
}

/// One of the four variants.
#[derive(Debug, PartialEq, Eq)]
pub enum OneOf4<C1, C2, C3, C4> {
    /// First variant.
    Variant1(C1),
    /// Second variant.
    Variant2(C2),
    /// Third variant.
    Variant3(C3),
    /// Fourth variant.
    Variant4(C4),
}

impl<C1: Clone, C2: Clone, C3: Clone, C4: Clone> Clone for OneOf4<C1, C2, C3, C4> {
    /// The clone holds the same variant, with the contained value cloned.
    fn clone(&self) -> (res: Self)
        ensures
            (match (*self, res) {
                (OneOf4::Variant1(a), OneOf4::Variant1(b)) => cloned(a, b),
                (OneOf4::Variant2(a), OneOf4::Variant2(b)) => cloned(a, b),
                (OneOf4::Variant3(a), OneOf4::Variant3(b)) => cloned(a, b),
                (OneOf4::Variant4(a), OneOf4::Variant4(b)) => cloned(a, b),
                _ => false,
            }),
    {
        match self {
            OneOf4::Variant1(a) => OneOf4::Variant1(a.clone()),
            OneOf4::Variant2(a) => OneOf4::Variant2(a.clone()),
            OneOf4::Variant3(a) => OneOf4::Variant3(a.clone()),
            OneOf4::Variant4(a) => OneOf4::Variant4(a.clone()),
        }
    }
}

} // verus!
