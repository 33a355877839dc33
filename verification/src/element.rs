//! Array elements and slices thereof

use crate::bitmap::Bitmap;
use vstd::prelude::*;

pub mod equality;
pub mod list;
pub mod option;
pub mod ordering;
pub mod primitive;

verus! {

/// A value that can be read from or written into an Arrow array
///
/// Every value stands for a mathematical object, its model. Plain scalars are
/// their own model, an `Option` is modelled by the `Option` of the inner model,
/// and a slice is modelled by the sequence of the models of its elements.
pub trait Value: Copy {
    /// Mathematical object that a value of this type stands for
    type Model;

    /// The mathematical object that `self` stands for
    spec fn model(&self) -> Self::Model;
}

/// Arrow array element
///
/// An element type tells which values and slices an array of such elements
/// is written from and read into. All of them stand for the same
/// mathematical objects: where a written value and a read value have the same
/// model, they are the same element.
pub trait ArrayElement: Sized {
    /// Mathematical object that an element of this type stands for
    type Model;

    /// Array element type used when writing to the array
    ///
    /// For simple types, this will just be `Self`. But for more complex types,
    /// ergonomics and efficiency constraints may force us to use a different
    /// type.
    ///
    /// For example, lists whose items are of a primitive type are best read and
    /// written as slices `&[T]`.
    type WriteValue<'a>: Value<Model = Self::Model>;

    /// Array element type used when reading from an array
    ///
    /// For simple types, this will be the same as `WriteValue`. But for more
    /// complex types, especially those involving lists, the two types can
    /// differ.
    ///
    /// The reason why this happens is that in-place reads from Arrow arrays
    /// must follow the underlying Arrow storage format to be efficient, even
    /// when using this format comes at the expense of reduced ergonomics and
    /// compatibility with Rust idoms. For example...
    ///
    /// - [Slices of optional items](option::OptionSlice) must use the
    ///   bit-packed [`Bitmap`](crate::bitmap::Bitmap) null buffer format,
    ///   instead of the more idiomatic unpacked `&[bool]` format.
    /// - Slices of lists must use a signed offset buffer to encode the position
    ///   and size of inner sublists, instead of a more idiomatic array of
    ///   sublist lengths.
    ///
    /// In constrast, writes are (relatively) free to use idiomatic Rust data
    /// structures that are easier for a user to construct.
    type ReadValue<'a>: Value<Model = Self::Model>;

    /// Slice type used for bulk insertion into an array
    ///
    /// For simple types this will just be `&[Self::WriteValue]`. But for more
    /// complex types, efficiency constraints may dictate a different layout.
    ///
    /// For example, nullable primitive types like `Option<u16>` are
    /// bulk-manipulated using [`OptionSlice`](option::OptionSlice) batches.
    type WriteSlice<'a>: Slice<Element = Self::WriteValue<'a>>;

    /// Slice type used for bulk readout from an array
    ///
    /// `ReadSlice` is to `WriteSlice` what `ReadValue` is to `WriteValue`: an
    /// alternate implementation of the same logical concept which is optimized
    /// for efficient Arrow data access, rather than array-building ergonomics.
    type ReadSlice<'a>: Slice<Element = Self::ReadValue<'a>>;
}

/// Models of a sequence of values, element by element
pub open spec fn element_models<E: Value>(elements: Seq<E>) -> Seq<E::Model> {
    Seq::new(elements.len(), |i: int| elements[i].model())
}

/// A Rust slice `&[T]` or a columnar generalization thereof
///
/// Columnar slice types like [`OptionSlice`](option::OptionSlice) are composed
/// of several inner slices. Such a composite slice only denotes a sequence of
/// elements when its inner slices fit together, which `is_consistent()` tells.
/// All other operations but `get_cloned()` demand a consistent slice.
pub trait Slice: Value<Model = Seq<<<Self as Slice>::Element as Value>::Model>> {
    /// Individual slice element
    type Element: Value;

    /// Truth that all inner slices are consistent with each other
    spec fn consistent(&self) -> bool;

    /// A consistent slice has no more elements than an `usize` can count
    proof fn lemma_len_bounded(&self)
        requires
            self.consistent(),
        ensures
            self.model().len() <= usize::MAX,
    ;

    /// Truth that all inner slices are consistent with each other
    fn is_consistent(&self) -> (ok: bool)
        ensures
            ok == self.consistent(),
    ;

    /// Number of slice elements
    fn len(&self) -> (n: usize)
        requires
            self.consistent(),
        ensures
            n == self.model().len(),
    ;

    /// Truth that this slice has no elements
    fn is_empty(&self) -> (empty: bool)
        requires
            self.consistent(),
        ensures
            empty == (self.model().len() == 0),
    {
        self.len() == 0
    }

    /// Value of the first element of the slice, or `None` if the slice is empty
    fn first_cloned(&self) -> (first: Option<Self::Element>)
        requires
            self.consistent(),
        ensures
            first is Some <==> self.model().len() > 0,
            first is Some ==> first.unwrap().model() == self.model().first(),
    {
        self.get_cloned(0)
    }

    /// Value of the last element of the slice, or `None` if it is empty
    fn last_cloned(&self) -> (last: Option<Self::Element>)
        requires
            self.consistent(),
        ensures
            last is Some <==> self.model().len() > 0,
            last is Some ==> last.unwrap().model() == self.model().last(),
    {
        let len = self.len();
        if len == 0 {
            None
        } else {
            self.get_cloned(len - 1)
        }
    }

    /// Value of the `index`-th slice element, if the slice is consistent and
    /// the index in bounds
    fn get_cloned(&self, index: usize) -> (element: Option<Self::Element>)
        ensures
            element is Some <==> self.consistent() && index < self.model().len(),
            element is Some ==> element.unwrap().model() == self.model()[index as int],
    {
        if self.is_consistent() && index < self.len() {
            Some(self.get_cloned_unchecked(index))
        } else {
            None
        }
    }

    /// Value of the `index`-th slice element, without bounds checking
    fn get_cloned_unchecked(&self, index: usize) -> (element: Self::Element)
        requires
            self.consistent(),
            index < self.model().len(),
        ensures
            element.model() == self.model()[index as int],
    ;

    /// Value of the `index`-th slice element, for an index known to be in
    /// bounds
    fn at(&self, index: usize) -> (element: Self::Element)
        requires
            self.consistent(),
            index < self.model().len(),
        ensures
            element.model() == self.model()[index as int],
    {
        self.get_cloned_unchecked(index)
    }

    /// Copies of the elements of this slice, first to last
    fn iter_cloned(&self) -> (elements: Vec<Self::Element>)
        requires
            self.consistent(),
        ensures
            element_models(elements@) == self.model(),
    ;

    /// Split the slice into two subslices at `mid`
    ///
    /// The first subslice covers the elements before `mid`, the second one
    /// those from `mid` on. Nothing is copied: both subslices view the storage
    /// that `self` views.
    fn split_at(&self, mid: usize) -> (parts: (Self, Self))
        requires
            self.consistent(),
            mid <= self.model().len(),
        ensures
            parts.0.consistent(),
            parts.1.consistent(),
            parts.0.model() == self.model().take(mid as int),
            parts.1.model() == self.model().skip(mid as int),
            parts.0.model() + parts.1.model() == self.model(),
    ;

    /// Split the slice into two subslices at `mid`, unless the slice is
    /// inconsistent or has less than `mid` elements
    fn checked_split_at(&self, mid: usize) -> (parts: Option<(Self, Self)>)
        ensures
            parts is Some <==> self.consistent() && mid <= self.model().len(),
            parts matches Some(halves) ==> {
                &&& halves.0.consistent()
                &&& halves.1.consistent()
                &&& halves.0.model() == self.model().take(mid as int)
                &&& halves.1.model() == self.model().skip(mid as int)
                &&& halves.0.model() + halves.1.model() == self.model()
            },
    {
        if self.is_consistent() && mid <= self.len() {
            Some(self.split_at(mid))
        } else {
            None
        }
    }
}

/// Access to an element by its index agrees with the slice's elements in
/// order, and with or without bounds checking
///
/// Within the bounds of a consistent slice, `get_cloned()` finds the element
/// that `at()` returns, which is the one that `iter_cloned()` yields at that
/// position. Out of bounds, `get_cloned()` finds nothing; `at()` asks for an
/// index within bounds.
pub proof fn lemma_indexing<S: Slice>(
    slice: S,
    index: usize,
    found: Option<S::Element>,
    element: S::Element,
    elements: Vec<S::Element>,
)
    requires
        slice.consistent(),
        call_ensures(S::get_cloned, (&slice, index), found),
        call_ensures(S::iter_cloned, (&slice,), elements),
        index < slice.model().len() ==> call_ensures(S::at, (&slice, index), element),
    ensures
        elements@.len() == slice.model().len(),
        index < slice.model().len() ==> call_requires(S::at, (&slice, index)) && found is Some
            && found.unwrap().model() == element.model() && element.model()
            == elements@[index as int].model(),
        index >= slice.model().len() ==> found is None,
{
    assert(element_models(elements@) == slice.model());
    if index < slice.model().len() {
        assert(element_models(elements@)[index as int] == elements@[index as int].model());
    }
}

/// Splitting a consistent slice gives two slices that hold the elements of
/// the slice between them, whatever the split point up to the length of the
/// slice
///
/// Beyond the length of the slice, `checked_split_at()` gives nothing;
/// `split_at()` asks for a split point within the slice.
pub proof fn lemma_splitting<S: Slice>(slice: S, mid: usize, parts: (S, S), checked: Option<(S, S)>)
    requires
        slice.consistent(),
        call_ensures(S::checked_split_at, (&slice, mid), checked),
        mid <= slice.model().len() ==> call_ensures(S::split_at, (&slice, mid), parts),
    ensures
        mid <= slice.model().len() ==> {
            &&& call_requires(S::split_at, (&slice, mid))
            &&& parts.0.model().len() == mid
            &&& parts.0.model().len() + parts.1.model().len() == slice.model().len()
            &&& parts.0.model() + parts.1.model() == slice.model()
            &&& checked matches Some(halves) && halves.0.model() == parts.0.model()
                && halves.1.model() == parts.1.model()
        },
        mid > slice.model().len() ==> checked is None,
{
}

impl<'a, T: Value> Value for &'a [T] {
    type Model = Seq<T::Model>;

    open spec fn model(&self) -> Seq<T::Model> {
        element_models(self@)
    }
}

impl<'a, T: Value> Slice for &'a [T] {
    type Element = T;

    open spec fn consistent(&self) -> bool {
        true
    }

    proof fn lemma_len_bounded(&self) {
        assert(vstd::slice::spec_slice_len(*self) == self@.len());
    }

    #[inline]
    fn is_consistent(&self) -> (ok: bool) {
        true
    }

    #[inline]
    fn len(&self) -> (n: usize)
        ensures
            n == self@.len(),
    {
        <[T]>::len(self)
    }

    #[inline]
    fn get_cloned_unchecked(&self, index: usize) -> (element: T)
        ensures
            element == self@[index as int],
    {
        self[index]
    }

    fn iter_cloned(&self) -> (elements: Vec<T>)
        ensures
            elements@ == self@,
    {
        let mut elements: Vec<T> = Vec::new();
        let mut index: usize = 0;
        while index < <[T]>::len(self)
            invariant
                index <= self@.len(),
                elements@ == self@.take(index as int),
            decreases self@.len() - index,
        {
            elements.push(self[index]);
            index += 1;
        }
        assert(elements@ == self@);
        elements
    }

    fn split_at(&self, mid: usize) -> (parts: (Self, Self))
        ensures
            parts.0@ == self@.take(mid as int),
            parts.1@ == self@.skip(mid as int),
    {
        let parts = <[T]>::split_at(self, mid);
        assert(parts.0.model() == self.model().take(mid as int));
        assert(parts.1.model() == self.model().skip(mid as int));
        assert(parts.0.model() + parts.1.model() == self.model());
        parts
    }
}

impl Value for bool {
    type Model = bool;

    open spec fn model(&self) -> bool {
        *self
    }
}

impl ArrayElement for bool {
    type Model = bool;

    type WriteValue<'a> = bool;

    type ReadValue<'a> = bool;

    type WriteSlice<'a> = &'a [bool];

    type ReadSlice<'a> = Bitmap<'a>;
}

impl Value for u8 {
    type Model = u8;

    open spec fn model(&self) -> u8 {
        *self
    }
}

impl Value for u16 {
    type Model = u16;

    open spec fn model(&self) -> u16 {
        *self
    }
}

impl Value for u32 {
    type Model = u32;

    open spec fn model(&self) -> u32 {
        *self
    }
}

impl Value for u64 {
    type Model = u64;

    open spec fn model(&self) -> u64 {
        *self
    }
}

impl Value for usize {
    type Model = usize;

    open spec fn model(&self) -> usize {
        *self
    }
}

impl Value for i8 {
    type Model = i8;

    open spec fn model(&self) -> i8 {
        *self
    }
}

impl Value for i16 {
    type Model = i16;

    open spec fn model(&self) -> i16 {
        *self
    }
}

impl Value for i32 {
    type Model = i32;

    open spec fn model(&self) -> i32 {
        *self
    }
}

impl Value for i64 {
    type Model = i64;

    open spec fn model(&self) -> i64 {
        *self
    }
}

impl Value for i128 {
    type Model = i128;

    open spec fn model(&self) -> i128 {
        *self
    }
}

impl<V: Value> Value for Option<V> {
    type Model = Option<V::Model>;

    open spec fn model(&self) -> Option<V::Model> {
        match *self {
            Some(value) => Some(value.model()),
            None => None,
        }
    }
}

} // verus!
