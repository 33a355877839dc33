//! Comparison of slices of different kinds, element by element

use crate::bitmap::compare::bools_equal;
use crate::element::list::{ApplyValidity, ListSlice, SublistSlice};
use crate::element::option::OptionSlice;
use crate::element::primitive::{ConstBoolSlice, UniformSlice};
use crate::element::{Slice, Value};
use vstd::prelude::*;
use vstd::std_specs::cmp::{PartialEqSpec, PartialEqSpecImpl};

verus! {

/// Truth that `==` between an `X` and a `Y` tells whether the two stand for
/// the same value
pub open spec fn compares_models<X, Y>() -> bool where
    X: Value + PartialEq<Y>,
    Y: Value<Model = X::Model>,
 {
    &&& <X as PartialEqSpec<Y>>::obeys_eq_spec()
    &&& forall|x: X, y: Y| #[trigger] x.eq_spec(&y) == (x.model() == y.model())
}

/// Truth that two consistent slices hold equal elements in the same order
///
/// Where `==` between elements tells whether they stand for the same value,
/// this tells whether the slices stand for the same sequence of values.
pub fn slices_equal<A, B>(a: &A, b: &B) -> (equal: bool) where
    A: Slice,
    B: Slice,
    A::Element: PartialEq<B::Element>,
    B::Element: Value<Model = <A::Element as Value>::Model>,

    requires
        a.consistent(),
        b.consistent(),
    ensures
        compares_models::<A::Element, B::Element>() ==> equal == (a.model() == b.model()),
{
    let len = a.len();
    if len != b.len() {
        return false;
    }
    let mut index: usize = 0;
    while index < len
        invariant
            a.consistent(),
            b.consistent(),
            index <= len,
            len == a.model().len(),
            len == b.model().len(),
            compares_models::<A::Element, B::Element>() ==> a.model().take(index as int)
                == b.model().take(index as int),
        decreases len - index,
    {
        let ours = a.get_cloned_unchecked(index);
        let theirs = b.get_cloned_unchecked(index);
        if !(ours == theirs) {
            return false;
        }
        proof {
            if compares_models::<A::Element, B::Element>() {
                assert(ours.eq_spec(&theirs) == (ours.model() == theirs.model()));
                assert(a.model().take(index + 1) == a.model().take(index as int).push(
                    a.model()[index as int],
                ));
                assert(b.model().take(index + 1) == b.model().take(index as int).push(
                    b.model()[index as int],
                ));
            }
        }
        index += 1;
    }
    proof {
        assert(a.model().take(len as int) == a.model());
        assert(b.model().take(len as int) == b.model());
    }
    true
}

/// `==` between booleans, and between optional booleans, tells whether the
/// two stand for the same value
pub proof fn lemma_bools_compare_models()
    ensures
        compares_models::<bool, bool>(),
        compares_models::<Option<bool>, Option<bool>>(),
{
}

/// `==` between integers of one type tells whether the two stand for the
/// same value
pub proof fn lemma_integers_compare_models()
    ensures
        compares_models::<u8, u8>(),
        compares_models::<u16, u16>(),
        compares_models::<u32, u32>(),
        compares_models::<u64, u64>(),
        compares_models::<usize, usize>(),
        compares_models::<i8, i8>(),
        compares_models::<i16, i16>(),
        compares_models::<i32, i32>(),
        compares_models::<i64, i64>(),
{
}

/// Where `==` between values of a type tells whether the two stand for the
/// same value, so does `==` between optional values of that type
pub proof fn lemma_options_compare_models<T: Value + PartialEq>()
    requires
        compares_models::<T, T>(),
    ensures
        compares_models::<Option<T>, Option<T>>(),
{
    assert forall|x: Option<T>, y: Option<T>| #[trigger]
        <Option<T> as PartialEqSpec>::eq_spec(&x, &y) == (x.model() == y.model()) by {
        match (x, y) {
            (Some(ours), Some(theirs)) => {
                assert(ours.eq_spec(&theirs) == (ours.model() == theirs.model()));
            },
            _ => {},
        }
    }
}

impl<T, Other> PartialEq<Other> for UniformSlice<T> where
    T: Value + PartialEq<Other::Element>,
    Other: Slice,
    Other::Element: Value<Model = <T as Value>::Model>,
 {
    /// Truth that both slices are consistent and hold equal elements in the
    /// same order
    fn eq(&self, other: &Other) -> (equal: bool) {
        self.is_consistent() && other.is_consistent() && slices_equal(self, other)
    }
}

impl<T, Other> PartialEqSpecImpl<Other> for UniformSlice<T> where
    T: Value + PartialEq<Other::Element>,
    Other: Slice,
    Other::Element: Value<Model = <T as Value>::Model>,
 {
    open spec fn obeys_eq_spec() -> bool {
        compares_models::<T, Other::Element>()
    }

    open spec fn eq_spec(&self, other: &Other) -> bool {
        self.consistent() && other.consistent() && self.model() == other.model()
    }
}

impl<const ELEMENT: bool, Other: Slice<Element = bool>> PartialEq<Other> for ConstBoolSlice<ELEMENT> {
    /// A uniform slice of booleans equals a consistent slice of booleans
    /// that holds the same booleans
    fn eq(&self, other: &Other) -> (equal: bool) {
        other.is_consistent() && bools_equal(self, other)
    }
}

impl<const ELEMENT: bool, Other: Slice<Element = bool>> PartialEqSpecImpl<Other> for ConstBoolSlice<ELEMENT> {
    open spec fn obeys_eq_spec() -> bool {
        true
    }

    open spec fn eq_spec(&self, other: &Other) -> bool {
        other.consistent() && self.model() == other.model()
    }
}

impl<Values, Validity, Other> PartialEq<Other> for OptionSlice<Values, Validity> where
    Values: Slice,
    Validity: Slice<Element = bool>,
    Other: Slice,
    Option<Values::Element>: PartialEq<Other::Element>,
    Other::Element: Value<Model = Option<<Values::Element as Value>::Model>>,
 {
    /// Truth that both slices are consistent and hold equal elements in the
    /// same order
    fn eq(&self, other: &Other) -> (equal: bool) {
        self.is_consistent() && other.is_consistent() && slices_equal(self, other)
    }
}

impl<Values, Validity, Other> PartialEqSpecImpl<Other> for OptionSlice<Values, Validity> where
    Values: Slice,
    Validity: Slice<Element = bool>,
    Other: Slice,
    Option<Values::Element>: PartialEq<Other::Element>,
    Other::Element: Value<Model = Option<<Values::Element as Value>::Model>>,
 {
    open spec fn obeys_eq_spec() -> bool {
        compares_models::<Option<Values::Element>, Other::Element>()
    }

    open spec fn eq_spec(&self, other: &Other) -> bool {
        self.consistent() && other.consistent() && self.model() == other.model()
    }
}

impl<Items, Lists, Other> PartialEq<Other> for ListSlice<Items, Lists> where
    Items: Slice,
    Lists: SublistSlice,
    Lists::LenValidity: ApplyValidity<Items>,
    Other: Slice,
    <Lists::LenValidity as ApplyValidity<Items>>::Applied: PartialEq<Other::Element>,
    Other::Element: Value<
        Model = <<Lists::LenValidity as ApplyValidity<Items>>::Applied as Value>::Model,
    >,
 {
    /// Truth that both slices are consistent and hold equal sublists in the
    /// same order
    fn eq(&self, other: &Other) -> (equal: bool) {
        self.is_consistent() && other.is_consistent() && slices_equal(self, other)
    }
}

impl<Items, Lists, Other> PartialEqSpecImpl<Other> for ListSlice<Items, Lists> where
    Items: Slice,
    Lists: SublistSlice,
    Lists::LenValidity: ApplyValidity<Items>,
    Other: Slice,
    <Lists::LenValidity as ApplyValidity<Items>>::Applied: PartialEq<Other::Element>,
    Other::Element: Value<
        Model = <<Lists::LenValidity as ApplyValidity<Items>>::Applied as Value>::Model,
    >,
 {
    open spec fn obeys_eq_spec() -> bool {
        compares_models::<<Lists::LenValidity as ApplyValidity<Items>>::Applied, Other::Element>()
    }

    open spec fn eq_spec(&self, other: &Other) -> bool {
        self.consistent() && other.consistent() && self.model() == other.model()
    }
}

} // verus!
