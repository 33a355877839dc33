//! Arrays of optional values

use crate::bitmap::Bitmap;
use crate::element::primitive::{Null, OptimizedValiditySlice, PrimitiveType};
use crate::element::{element_models, ArrayElement, Slice, Value};
use vstd::prelude::*;

verus! {

/// [`ArrayElement`] which has a null value
///
/// This trait is implemented for both the null element type [`Null`] and
/// options of valid array element types.
///
/// It enables efficient bulk insertion of null values.
pub trait NullableElement: ArrayElement {
    /// What the null value of this type stands for
    spec fn null_model() -> Self::Model;
}

impl NullableElement for Null {
    open spec fn null_model() -> Null {
        Null
    }
}

impl NullableElement for Option<bool> {
    open spec fn null_model() -> Option<bool> {
        None
    }
}

impl<T: PrimitiveType> NullableElement for Option<T> {
    open spec fn null_model() -> Option<<T as Value>::Model> {
        None
    }
}

/// [`ArrayElement`] for which `Option<Self>` is an Arrow-supported storage type
///
/// This trait is implemented for almost every Arrow-supported storage type
/// except for [`Null`] and `Option<_>`, so you can think of it as the logical
/// opposite of [`NullableElement`].
pub trait OptionalElement: ArrayElement {

}

impl OptionalElement for bool {

}

impl<T: PrimitiveType> OptionalElement for T {

}

/// OptionSlice layout used when writing optional elements
///
/// Uses a [`WriteSlice`](ArrayElement::WriteSlice) of `T` for bulk-insertion of
/// values of type `T`, and a simple `&[bool]` to tell whether each element of
/// the data slice is valid/null or not.
pub type OptionWriteSlice<'a, T> = OptionSlice<<T as ArrayElement>::WriteSlice<'a>, &'a [bool]>;

/// OptionSlice layout used when reading optional elements
///
/// Follows Arrow's internal storage format to allow for in-place data access,
/// which means using a [`ReadSlice`](ArrayElement::ReadSlice) of `T` for
/// bulk-readout and a [`Bitmap`], if there is one, for validity tracking.
pub type OptionReadSlice<'a, T> = OptionSlice<
    <T as ArrayElement>::ReadSlice<'a>,
    OptimizedValiditySlice<Bitmap<'a>>,
>;

impl ArrayElement for Option<bool> {
    type Model = Option<bool>;

    type WriteValue<'a> = Option<bool>;

    type ReadValue<'a> = Option<bool>;

    type WriteSlice<'a> = OptionWriteSlice<'a, bool>;

    type ReadSlice<'a> = OptionReadSlice<'a, bool>;
}

impl<T: PrimitiveType> ArrayElement for Option<T> {
    type Model = Option<<T as Value>::Model>;

    type WriteValue<'a> = Option<T>;

    type ReadValue<'a> = Option<T>;

    type WriteSlice<'a> = OptionSlice<&'a [T], &'a [bool]>;

    type ReadSlice<'a> = OptionSlice<&'a [T], OptimizedValiditySlice<Bitmap<'a>>>;
}

/// A columnar slice of `Option<T>`
///
/// This type is logically equivalent to `&[Option<Values::Element>]`, but it is
/// implemented as the combination of a slice of data with a slice of booleans
/// that tell whether each row of data is valid or not.
///
/// Validity can be tracked using either a standard `&[bool]` Rust slice of
/// booleans or a bit-packed [`Bitmap`](crate::bitmap::Bitmap).
///
/// Nothing is checked when the two slices are put together: whether they fit
/// is what `is_consistent()` tells.
#[derive(Clone, Copy, Debug)]
pub struct OptionSlice<Values: Slice, Validity: Slice<Element = bool>> {
    /// Truth that each element of `values` is valid
    pub is_valid: Validity,
    /// Values that may or may not be valid
    pub values: Values,
}

impl<Values: Slice, Validity: Slice<Element = bool>> Value for OptionSlice<Values, Validity> {
    type Model = Seq<Option<<Values::Element as Value>::Model>>;

    /// One entry per validity flag: the value of that row where the flag is
    /// set, nothing where it is not
    open spec fn model(&self) -> Self::Model {
        Seq::new(
            self.is_valid.model().len(),
            |index: int|
                if self.is_valid.model()[index] {
                    Some(self.values.model()[index])
                } else {
                    None
                },
        )
    }
}

impl<Values: Slice, Validity: Slice<Element = bool>> Slice for OptionSlice<Values, Validity> {
    type Element = Option<Values::Element>;

    /// Both inner slices are consistent and have the same length
    open spec fn consistent(&self) -> bool {
        &&& self.values.consistent()
        &&& self.is_valid.consistent()
        &&& self.values.model().len() == self.is_valid.model().len()
    }

    proof fn lemma_len_bounded(&self) {
        self.is_valid.lemma_len_bounded();
    }

    #[inline]
    fn is_consistent(&self) -> (ok: bool) {
        self.values.is_consistent() && self.is_valid.is_consistent() && self.values.len()
            == self.is_valid.len()
    }

    #[inline]
    fn len(&self) -> (n: usize) {
        self.is_valid.len()
    }

    #[inline]
    fn get_cloned_unchecked(&self, index: usize) -> (element: Self::Element) {
        let is_valid = self.is_valid.get_cloned_unchecked(index);
        assert(is_valid == self.is_valid.model()[index as int]) by {
            assert(is_valid.model() == is_valid);
        }
        let element = if is_valid {
            Some(self.values.get_cloned_unchecked(index))
        } else {
            None
        };
        assert(element.model() == self.model()[index as int]);
        element
    }

    fn iter_cloned(&self) -> (elements: Vec<Self::Element>) {
        let values = self.values.iter_cloned();
        let is_valid = self.is_valid.iter_cloned();
        assert(element_models(values@).len() == values@.len());
        assert(element_models(is_valid@).len() == is_valid@.len());
        let mut elements: Vec<Self::Element> = Vec::new();
        let mut index: usize = 0;
        while index < is_valid.len()
            invariant
                index <= is_valid@.len(),
                values@.len() == is_valid@.len(),
                is_valid@.len() == self.model().len(),
                elements@.len() == index,
                element_models(values@) == self.values.model(),
                element_models(is_valid@) == self.is_valid.model(),
                element_models(elements@) == self.model().take(index as int),
            decreases is_valid@.len() - index,
        {
            let ghost before = elements@;
            let element = if is_valid[index] {
                Some(values[index])
            } else {
                None
            };
            elements.push(element);
            assert(element_models(elements@) == self.model().take(index + 1)) by {
                assert(element_models(is_valid@)[index as int] == is_valid@[index as int]);
                assert(element_models(values@)[index as int] == values@[index as int].model());
                assert(element_models(before) == self.model().take(index as int));
                assert forall|i: int| 0 <= i < index + 1 implies element_models(elements@)[i]
                    == self.model().take(index + 1)[i] by {
                    if i < index {
                        assert(elements@[i] == before[i]);
                        assert(element_models(before)[i] == self.model().take(index as int)[i]);
                    }
                }
            }
            index += 1;
        }
        assert(self.model().take(index as int) == self.model());
        elements
    }

    fn split_at(&self, mid: usize) -> (parts: (Self, Self))
        ensures
            parts.0.values.model() == self.values.model().take(mid as int),
            parts.0.is_valid.model() == self.is_valid.model().take(mid as int),
            parts.1.values.model() == self.values.model().skip(mid as int),
            parts.1.is_valid.model() == self.is_valid.model().skip(mid as int),
    {
        let (left_values, right_values) = self.values.split_at(mid);
        let (left_valid, right_valid) = self.is_valid.split_at(mid);
        let parts = (
            Self { values: left_values, is_valid: left_valid },
            Self { values: right_values, is_valid: right_valid },
        );
        assert(parts.0.model() == self.model().take(mid as int));
        assert(parts.1.model() == self.model().skip(mid as int));
        assert(parts.0.model() + parts.1.model() == self.model());
        parts
    }
}

/// An option slice whose inner slices are each consistent is consistent
/// exactly when they have the same length. Its `index`-th element is then the
/// `index`-th value where the `index`-th validity flag is set, and `None`
/// where it is not.
pub proof fn lemma_option_slice_elements<Values: Slice, Validity: Slice<Element = bool>>(
    slice: OptionSlice<Values, Validity>,
)
    requires
        slice.values.consistent(),
        slice.is_valid.consistent(),
    ensures
        slice.consistent() <==> slice.values.model().len() == slice.is_valid.model().len(),
        slice.consistent() ==> slice.model().len() == slice.values.model().len(),
        forall|index: int|
            slice.consistent() && 0 <= index < slice.model().len() ==> #[trigger] slice.model()[index]
                == if slice.is_valid.model()[index] {
                Some(slice.values.model()[index])
            } else {
                None
            },
{
}

} // verus!
