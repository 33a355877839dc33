//! Lexicographic order of slices of different kinds

use crate::bitmap::compare::{bools_order, lexicographic_order, order_of};
use crate::element::list::{ApplyValidity, ListSlice, SublistSlice};
use crate::element::option::OptionSlice;
use crate::element::primitive::{ConstBoolSlice, UniformSlice};
use crate::element::{Slice, Value};
use std::cmp::Ordering;
use vstd::prelude::*;
use vstd::std_specs::cmp::{PartialOrdSpec, PartialOrdSpecImpl};

verus! {

/// Number that stands for the outcome of a comparison: -1 for less, 0 for
/// equal, 1 for greater, 2 where the two do not compare
pub open spec fn order_code(order: Option<Ordering>) -> int {
    match order {
        Some(Ordering::Less) => -1,
        Some(Ordering::Equal) => 0,
        Some(Ordering::Greater) => 1,
        None => 2,
    }
}

/// The outcome of a comparison that `code` stands for
pub open spec fn coded_order(code: int) -> Option<Ordering> {
    if code == -1 {
        Some(Ordering::Less)
    } else if code == 0 {
        Some(Ordering::Equal)
    } else if code == 1 {
        Some(Ordering::Greater)
    } else {
        None
    }
}

/// How `x` compares to `y`, as a number
pub open spec fn compared<X, Y>(x: X, y: Y) -> int where X: PartialOrd<Y> {
    order_code(x.partial_cmp_spec(&y))
}

/// How an `X` that stands for `ours` compares to a `Y` that stands for
/// `theirs`, as a number
pub open spec fn model_order<X, Y>(ours: X::Model, theirs: Y::Model) -> int where
    X: Value + PartialOrd<Y>,
    Y: Value,
 {
    let x = choose|x: X| x.model() == ours;
    let y = choose|y: Y| y.model() == theirs;
    compared(x, y)
}

/// Truth that how an `X` compares to a `Y` only depends on the values that
/// the two stand for
pub open spec fn orders_models<X, Y>() -> bool where X: Value + PartialOrd<Y>, Y: Value {
    &&& X::obeys_partial_cmp_spec()
    &&& forall|x: X, y: Y| #[trigger] compared(x, y) == model_order::<X, Y>(x.model(), y.model())
}

/// How `x` compares to `y`, as a number
fn element_order<X, Y>(x: &X, y: &Y) -> (code: i8) where X: Value + PartialOrd<Y>, Y: Value
    ensures
        -1 <= code <= 2,
        orders_models::<X, Y>() ==> code == model_order::<X, Y>(x.model(), y.model()),
{
    proof {
        if orders_models::<X, Y>() {
            assert(compared(*x, *y) == model_order::<X, Y>(x.model(), y.model()));
        }
    }
    match x.partial_cmp(y) {
        Some(Ordering::Less) => -1,
        Some(Ordering::Equal) => 0,
        Some(Ordering::Greater) => 1,
        None => 2,
    }
}

/// How `ours` compares to `theirs` in lexicographic order, where elements
/// compare as an `X` does to a `Y`, as a number
///
/// The first pair of elements that are not equal decides. Where there is
/// none, the shorter sequence comes first.
pub open spec fn lexicographic_code<X, Y>(ours: Seq<X::Model>, theirs: Seq<Y::Model>) -> int where
    X: Value + PartialOrd<Y>,
    Y: Value,

    decreases ours.len(),
{
    if ours.len() == 0 {
        if theirs.len() == 0 {
            0
        } else {
            -1
        }
    } else if theirs.len() == 0 {
        1
    } else if model_order::<X, Y>(ours[0], theirs[0]) != 0 {
        model_order::<X, Y>(ours[0], theirs[0])
    } else {
        lexicographic_code::<X, Y>(ours.skip(1), theirs.skip(1))
    }
}

/// Lexicographic order of two sequences whose first `count` elements are
/// equal pair by pair is that of what comes after those
proof fn lemma_lexicographic_skip<X, Y>(ours: Seq<X::Model>, theirs: Seq<Y::Model>, count: int) where
    X: Value + PartialOrd<Y>,
    Y: Value,

    requires
        0 <= count <= ours.len(),
        count <= theirs.len(),
        forall|index: int|
            0 <= index < count ==> model_order::<X, Y>(#[trigger] ours[index], theirs[index]) == 0,
    ensures
        lexicographic_code::<X, Y>(ours, theirs) == lexicographic_code::<X, Y>(
            ours.skip(count),
            theirs.skip(count),
        ),
    decreases count,
{
    if count == 0 {
        assert(ours.skip(0) == ours);
        assert(theirs.skip(0) == theirs);
    } else {
        assert(model_order::<X, Y>(ours[0], theirs[0]) == 0);
        assert forall|index: int| 0 <= index < count - 1 implies model_order::<X, Y>(
            #[trigger] ours.skip(1)[index],
            theirs.skip(1)[index],
        ) == 0 by {
            assert(model_order::<X, Y>(ours[index + 1], theirs[index + 1]) == 0);
        }
        lemma_lexicographic_skip::<X, Y>(ours.skip(1), theirs.skip(1), count - 1);
        assert(ours.skip(1).skip(count - 1) == ours.skip(count));
        assert(theirs.skip(1).skip(count - 1) == theirs.skip(count));
    }
}

/// How the elements of `ours` compare to those of `theirs` in lexicographic
/// order: -1 where `ours` comes first, 0 where the two are equal, 1 where
/// `theirs` comes first, 2 where the two do not compare
///
/// Where how two elements compare only depends on the values that they
/// stand for, this is how the sequences of values that the slices stand for
/// compare.
pub fn slices_order<A, B>(ours: &A, theirs: &B) -> (code: i8) where
    A: Slice,
    B: Slice,
    A::Element: PartialOrd<B::Element>,

    requires
        ours.consistent(),
        theirs.consistent(),
    ensures
        -1 <= code <= 2,
        orders_models::<A::Element, B::Element>() ==> code == lexicographic_code::<
            A::Element,
            B::Element,
        >(ours.model(), theirs.model()),
{
    let our_len = ours.len();
    let their_len = theirs.len();
    let mut index: usize = 0;
    while index < our_len && index < their_len
        invariant
            ours.consistent(),
            theirs.consistent(),
            index <= our_len,
            index <= their_len,
            our_len == ours.model().len(),
            their_len == theirs.model().len(),
            orders_models::<A::Element, B::Element>() ==> forall|i: int|
                0 <= i < index ==> model_order::<A::Element, B::Element>(
                    #[trigger] ours.model()[i],
                    theirs.model()[i],
                ) == 0,
        decreases our_len - index,
    {
        let our_element = ours.get_cloned_unchecked(index);
        let their_element = theirs.get_cloned_unchecked(index);
        let code = element_order(&our_element, &their_element);
        if code != 0 {
            proof {
                if orders_models::<A::Element, B::Element>() {
                    lemma_lexicographic_skip::<A::Element, B::Element>(
                        ours.model(),
                        theirs.model(),
                        index as int,
                    );
                }
            }
            return code;
        }
        index += 1;
    }
    proof {
        if orders_models::<A::Element, B::Element>() {
            lemma_lexicographic_skip::<A::Element, B::Element>(
                ours.model(),
                theirs.model(),
                index as int,
            );
        }
    }
    if index < their_len {
        -1
    } else if index < our_len {
        1
    } else {
        0
    }
}

/// How integers of one type compare only depends on the values that they
/// stand for
pub proof fn lemma_integers_order_models()
    ensures
        orders_models::<u8, u8>(),
        orders_models::<u16, u16>(),
        orders_models::<u32, u32>(),
        orders_models::<u64, u64>(),
        orders_models::<usize, usize>(),
        orders_models::<i8, i8>(),
        orders_models::<i16, i16>(),
        orders_models::<i32, i32>(),
        orders_models::<i64, i64>(),
{
    assert(orders_models::<u8, u8>()) by {
        assert forall|x: u8, y: u8| #[trigger]
            compared(x, y) == model_order::<u8, u8>(x.model(), y.model()) by {
            let ours = choose|ours: u8| ours.model() == x.model();
            let theirs = choose|theirs: u8| theirs.model() == y.model();
            assert(ours == x && theirs == y);
        }
    }
    assert(orders_models::<u16, u16>()) by {
        assert forall|x: u16, y: u16| #[trigger]
            compared(x, y) == model_order::<u16, u16>(x.model(), y.model()) by {
            let ours = choose|ours: u16| ours.model() == x.model();
            let theirs = choose|theirs: u16| theirs.model() == y.model();
            assert(ours == x && theirs == y);
        }
    }
    assert(orders_models::<u32, u32>()) by {
        assert forall|x: u32, y: u32| #[trigger]
            compared(x, y) == model_order::<u32, u32>(x.model(), y.model()) by {
            let ours = choose|ours: u32| ours.model() == x.model();
            let theirs = choose|theirs: u32| theirs.model() == y.model();
            assert(ours == x && theirs == y);
        }
    }
    assert(orders_models::<u64, u64>()) by {
        assert forall|x: u64, y: u64| #[trigger]
            compared(x, y) == model_order::<u64, u64>(x.model(), y.model()) by {
            let ours = choose|ours: u64| ours.model() == x.model();
            let theirs = choose|theirs: u64| theirs.model() == y.model();
            assert(ours == x && theirs == y);
        }
    }
    assert(orders_models::<usize, usize>()) by {
        assert forall|x: usize, y: usize| #[trigger]
            compared(x, y) == model_order::<usize, usize>(x.model(), y.model()) by {
            let ours = choose|ours: usize| ours.model() == x.model();
            let theirs = choose|theirs: usize| theirs.model() == y.model();
            assert(ours == x && theirs == y);
        }
    }
    assert(orders_models::<i8, i8>()) by {
        assert forall|x: i8, y: i8| #[trigger]
            compared(x, y) == model_order::<i8, i8>(x.model(), y.model()) by {
            let ours = choose|ours: i8| ours.model() == x.model();
            let theirs = choose|theirs: i8| theirs.model() == y.model();
            assert(ours == x && theirs == y);
        }
    }
    assert(orders_models::<i16, i16>()) by {
        assert forall|x: i16, y: i16| #[trigger]
            compared(x, y) == model_order::<i16, i16>(x.model(), y.model()) by {
            let ours = choose|ours: i16| ours.model() == x.model();
            let theirs = choose|theirs: i16| theirs.model() == y.model();
            assert(ours == x && theirs == y);
        }
    }
    assert(orders_models::<i32, i32>()) by {
        assert forall|x: i32, y: i32| #[trigger]
            compared(x, y) == model_order::<i32, i32>(x.model(), y.model()) by {
            let ours = choose|ours: i32| ours.model() == x.model();
            let theirs = choose|theirs: i32| theirs.model() == y.model();
            assert(ours == x && theirs == y);
        }
    }
    assert(orders_models::<i64, i64>()) by {
        assert forall|x: i64, y: i64| #[trigger]
            compared(x, y) == model_order::<i64, i64>(x.model(), y.model()) by {
            let ours = choose|ours: i64| ours.model() == x.model();
            let theirs = choose|theirs: i64| theirs.model() == y.model();
            assert(ours == x && theirs == y);
        }
    }
}

/// Where how values of a type compare only depends on the values that they
/// stand for, so does how optional values of that type compare
pub proof fn lemma_options_order_models<T: Value + PartialOrd>()
    requires
        orders_models::<T, T>(),
    ensures
        orders_models::<Option<T>, Option<T>>(),
{
    assert forall|x: Option<T>, y: Option<T>| #[trigger]
        compared(x, y) == model_order::<Option<T>, Option<T>>(x.model(), y.model()) by {
        let ours = choose|ours: Option<T>| ours.model() == x.model();
        let theirs = choose|theirs: Option<T>| theirs.model() == y.model();
        assert(ours.model() == x.model() && theirs.model() == y.model());
        match (x, y, ours, theirs) {
            (Some(x), Some(y), Some(ours), Some(theirs)) => {
                assert(compared(x, y) == model_order::<T, T>(x.model(), y.model()));
                assert(compared(ours, theirs) == model_order::<T, T>(
                    ours.model(),
                    theirs.model(),
                ));
            },
            _ => {},
        }
    }
}

/// Truth that how an element of an `A` compares to one of a `B` only
/// depends on the values that the two stand for
pub open spec fn elements_order_models<A, B>() -> bool where
    A: Slice,
    B: Slice,
    A::Element: PartialOrd<B::Element>,
 {
    orders_models::<A::Element, B::Element>()
}

/// How the values that `ours` stands for compare to those that `theirs`
/// stands for in lexicographic order, as a number
pub open spec fn slices_code<A, B>(ours: A, theirs: B) -> int where
    A: Slice,
    B: Slice,
    A::Element: PartialOrd<B::Element>,
 {
    lexicographic_code::<A::Element, B::Element>(ours.model(), theirs.model())
}

impl<Values, Validity, Other> PartialOrd<Other> for OptionSlice<Values, Validity> where
    Values: Slice,
    Validity: Slice<Element = bool>,
    Other: Slice,
    Option<Values::Element>: PartialOrd<Other::Element>,
    Other::Element: Value<Model = Option<<Values::Element as Value>::Model>>,
 {
    /// Consistent slices are ordered as the sequences of their elements,
    /// lexicographically; a slice that is not consistent does not compare
    fn partial_cmp(&self, other: &Other) -> (order: Option<Ordering>) {
        if !self.is_consistent() || !other.is_consistent() {
            return None;
        }
        let code = slices_order(self, other);
        if code == -1 {
            Some(Ordering::Less)
        } else if code == 0 {
            Some(Ordering::Equal)
        } else if code == 1 {
            Some(Ordering::Greater)
        } else {
            None
        }
    }
}

impl<Values, Validity, Other> PartialOrdSpecImpl<Other> for OptionSlice<Values, Validity> where
    Values: Slice,
    Validity: Slice<Element = bool>,
    Other: Slice,
    Option<Values::Element>: PartialOrd<Other::Element>,
    Other::Element: Value<Model = Option<<Values::Element as Value>::Model>>,
 {
    open spec fn obeys_partial_cmp_spec() -> bool {
        elements_order_models::<Self, Other>()
    }

    open spec fn partial_cmp_spec(&self, other: &Other) -> Option<Ordering> {
        if self.consistent() && other.consistent() {
            coded_order(slices_code(*self, *other))
        } else {
            None
        }
    }
}

impl<Items, Lists, Other> PartialOrd<Other> for ListSlice<Items, Lists> where
    Items: Slice,
    Lists: SublistSlice,
    Lists::LenValidity: ApplyValidity<Items>,
    Other: Slice,
    <Lists::LenValidity as ApplyValidity<Items>>::Applied: PartialOrd<Other::Element>,
    Other::Element: Value<
        Model = <<Lists::LenValidity as ApplyValidity<Items>>::Applied as Value>::Model,
    >,
 {
    /// Consistent slices are ordered as the sequences of their elements,
    /// lexicographically; a slice that is not consistent does not compare
    fn partial_cmp(&self, other: &Other) -> (order: Option<Ordering>) {
        if !self.is_consistent() || !other.is_consistent() {
            return None;
        }
        let code = slices_order(self, other);
        if code == -1 {
            Some(Ordering::Less)
        } else if code == 0 {
            Some(Ordering::Equal)
        } else if code == 1 {
            Some(Ordering::Greater)
        } else {
            None
        }
    }
}

impl<Items, Lists, Other> PartialOrdSpecImpl<Other> for ListSlice<Items, Lists> where
    Items: Slice,
    Lists: SublistSlice,
    Lists::LenValidity: ApplyValidity<Items>,
    Other: Slice,
    <Lists::LenValidity as ApplyValidity<Items>>::Applied: PartialOrd<Other::Element>,
    Other::Element: Value<
        Model = <<Lists::LenValidity as ApplyValidity<Items>>::Applied as Value>::Model,
    >,
 {
    open spec fn obeys_partial_cmp_spec() -> bool {
        elements_order_models::<Self, Other>()
    }

    open spec fn partial_cmp_spec(&self, other: &Other) -> Option<Ordering> {
        if self.consistent() && other.consistent() {
            coded_order(slices_code(*self, *other))
        } else {
            None
        }
    }
}

impl<T, Other> PartialOrd<Other> for UniformSlice<T> where
    T: Value + PartialOrd<Other::Element>,
    Other: Slice,
    Other::Element: Value<Model = <T as Value>::Model>,
 {
    /// Consistent slices are ordered as the sequences of their elements,
    /// lexicographically; a slice that is not consistent does not compare
    fn partial_cmp(&self, other: &Other) -> (order: Option<Ordering>) {
        if !self.is_consistent() || !other.is_consistent() {
            return None;
        }
        let code = slices_order(self, other);
        if code == -1 {
            Some(Ordering::Less)
        } else if code == 0 {
            Some(Ordering::Equal)
        } else if code == 1 {
            Some(Ordering::Greater)
        } else {
            None
        }
    }
}

impl<T, Other> PartialOrdSpecImpl<Other> for UniformSlice<T> where
    T: Value + PartialOrd<Other::Element>,
    Other: Slice,
    Other::Element: Value<Model = <T as Value>::Model>,
 {
    open spec fn obeys_partial_cmp_spec() -> bool {
        elements_order_models::<Self, Other>()
    }

    open spec fn partial_cmp_spec(&self, other: &Other) -> Option<Ordering> {
        if self.consistent() && other.consistent() {
            coded_order(slices_code(*self, *other))
        } else {
            None
        }
    }
}

impl<const ELEMENT: bool, Other: Slice<Element = bool>> PartialOrd<Other> for ConstBoolSlice<ELEMENT> {
    /// A uniform slice of booleans is ordered against a consistent slice of
    /// booleans as the sequences of booleans that the two hold,
    /// lexicographically
    fn partial_cmp(&self, other: &Other) -> (order: Option<Ordering>) {
        if !other.is_consistent() {
            return None;
        }
        let sign = bools_order(self, other);
        if sign < 0 {
            Some(Ordering::Less)
        } else if sign == 0 {
            Some(Ordering::Equal)
        } else {
            Some(Ordering::Greater)
        }
    }
}

impl<const ELEMENT: bool, Other: Slice<Element = bool>> PartialOrdSpecImpl<Other> for ConstBoolSlice<ELEMENT> {
    open spec fn obeys_partial_cmp_spec() -> bool {
        true
    }

    open spec fn partial_cmp_spec(&self, other: &Other) -> Option<Ordering> {
        if other.consistent() {
            Some(order_of(lexicographic_order(self.model(), other.model())))
        } else {
            None
        }
    }
}

} // verus!
