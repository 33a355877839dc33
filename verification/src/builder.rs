//! Strongly typed array builder

use crate::bitmap::Bitmap;
use crate::element::{element_models, ArrayElement, Slice, Value};
use std::marker::PhantomData;
use vstd::prelude::*;

pub mod backend;
pub mod config;

use crate::element::option::NullableElement;
use backend::{
    holds_validities, lemma_room_kept, room_kept, Capacity, ExtendError, ExtendFromSlice, NullableBackend,
    OptionalBackend, TypedBackend, ValidityBackend,
};
use config::BuilderConfig;

verus! {

/// Strongly typed array builder
///
/// Puts elements of type `T` into the Arrow array builder `Backend`, and
/// tells which elements the array under construction holds so far.
#[derive(Debug)]
pub struct TypedBuilder<T: ArrayElement, Backend: TypedBackend<T>> {
    /// Arrow builder that the elements go to
    backend: Backend,
    /// Type of the elements
    element: PhantomData<T>,
}

impl<T: ArrayElement, Backend: TypedBackend<T>> TypedBuilder<T, Backend> {
    /// Arrow builder that the elements go to
    pub closed spec fn backend(&self) -> Backend {
        self.backend
    }

    /// Truth that the builder holds one validity for each of its elements,
    /// which holds of every builder that the operations below have made
    pub open spec fn well_formed(&self) -> bool {
        holds_validities::<T, Backend>(self.backend())
    }

    /// Elements that were appended into this builder, first to last
    pub open spec fn contents(&self) -> Seq<T::Model> {
        self.backend().contents()
    }

    /// Validity of each element that was appended into this builder, first
    /// to last
    pub open spec fn validity(&self) -> Seq<bool> {
        self.backend().validity()
    }

    /// Truth that the builder is as its Arrow builder makes it from the
    /// configuration of the standard constructor that asks for the capacity
    /// `capacity`, if any, and is otherwise the default one
    pub open spec fn is_new_with(&self, capacity: Option<usize>) -> bool where
        Backend::ExtraConfig: Default,
     {
        exists|config: BuilderConfig<T, Backend>|
            config.is_default_with(capacity) && #[trigger] self.backend().made_from(config)
    }

    /// Create a new array builder with the default configuration
    pub fn new() -> (builder: Self) where Backend::ExtraConfig: Default
        ensures
            Backend::obeys_backend_spec() ==> {
                &&& builder.well_formed()
                &&& builder.contents().len() == 0
                &&& builder.is_new_with(None)
            },
    {
        Self::with_config(BuilderConfig::new())
    }

    /// Create a new array builder with space for at least `capacity` elements
    pub fn with_capacity(capacity: usize) -> (builder: Self) where Backend::ExtraConfig: Default
        ensures
            Backend::obeys_backend_spec() ==> {
                &&& builder.well_formed()
                &&& builder.contents().len() == 0
                &&& builder.is_new_with(Some(capacity))
            },
    {
        Self::with_config(BuilderConfig::with_capacity(capacity))
    }

    /// Create a new array builder with an explicit configuration
    pub fn with_config(config: BuilderConfig<T, Backend>) -> (builder: Self)
        ensures
            Backend::obeys_backend_spec() ==> {
                &&& builder.well_formed()
                &&& builder.contents().len() == 0
                &&& builder.backend().made_from(config)
            },
    {
        Self { backend: Backend::new(config), element: PhantomData }
    }

    /// Number of elements the array can hold without reallocating
    ///
    /// In the case of types that are internally stored as multiple columnar
    /// buffers, like structs or unions, a lower bound on the capacity of all
    /// underlying columns is returned.
    ///
    /// In the case of arrays of lists, array capacity is to be understood as
    /// the number of sublists that the array can hold, not the cumulative
    /// number of elements across all sublists.
    ///
    /// This is at least the number of elements that the Arrow builder is
    /// known to have room for.
    pub fn capacity(&self) -> (capacity: usize) where Backend: Capacity
        ensures
            capacity >= self.backend().reserved(),
    {
        self.backend.capacity()
    }

    /// Append a single value into the builder
    ///
    /// For types with a complex internal structure, such element-wise insertion
    /// may be inefficient. Therefore, if you intend to insert many values, it
    /// is advised that you do not do so by calling this method in a loop, but
    /// instead look into the bulk insertion methods below.
    #[inline]
    pub fn push<'a>(&mut self, value: T::WriteValue<'a>)
        requires
            Backend::obeys_backend_spec() ==> old(self).contents().len() < usize::MAX,
        ensures
            Backend::obeys_backend_spec() ==> {
                &&& final(self).well_formed()
                &&& final(self).contents() == old(self).contents().push(value.model())
                &&& room_kept(old(self).backend(), final(self).backend())
            },
    {
        self.backend.push(value)
    }

    /// Append each of `values` into the builder, first to last
    pub fn extend<'a>(&mut self, values: Vec<T::WriteValue<'a>>)
        requires
            Backend::obeys_backend_spec() ==> old(self).contents().len() + values@.len()
                <= usize::MAX,
        ensures
            Backend::obeys_backend_spec() ==> {
                &&& final(self).contents() == old(self).contents() + element_models(values@)
                &&& values@.len() == 0 ==> final(self).backend() == old(self).backend()
                &&& values@.len() > 0 ==> final(self).well_formed() && room_kept(
                    old(self).backend(),
                    final(self).backend(),
                )
            },
    {
        if values.len() == 0 {
            assert(self.contents() + element_models(values@) == self.contents());
            return ;
        }
        let ghost before = self.backend();
        self.push(values[0]);
        assert(element_models(values@).take(1) == Seq::<T::Model>::empty().push(
            values@[0].model(),
        ));
        let mut index: usize = 1;
        while index < values.len()
            invariant
                1 <= index <= values@.len(),
                Backend::obeys_backend_spec() ==> before.contents().len() + values@.len()
                    <= usize::MAX,
                Backend::obeys_backend_spec() ==> {
                    &&& self.well_formed()
                    &&& self.contents() == before.contents() + element_models(values@).take(
                        index as int,
                    )
                    &&& room_kept(before, self.backend())
                },
            decreases values@.len() - index,
        {
            let ghost grown = self.backend();
            self.push(values[index]);
            proof {
                if Backend::obeys_backend_spec() {
                    assert(element_models(values@).take(index + 1) == element_models(
                        values@,
                    ).take(index as int).push(values@[index as int].model()));
                    lemma_room_kept(before, grown, self.backend());
                }
            }
            index += 1;
        }
        assert(element_models(values@).take(index as int) == element_models(values@));
    }

    /// Efficiently append multiple values into the builder
    ///
    /// For simple types, the slice is just `&[T]`. But for efficiency reasons,
    /// slices of more complex types will have a less obvious columnar layout
    /// containing multiple inner Rust slices.
    ///
    /// While extending from a simple Rust slice always succeeds, extending from
    /// composite slice types may fail if the inner subslices do not fit
    /// together. In that case the builder is left as it was.
    pub fn extend_from_slice<'a>(&mut self, s: T::WriteSlice<'a>) -> (result: Result<
        (),
        ExtendError,
    >) where Backend: ExtendFromSlice<T>
        requires
            Backend::obeys_backend_spec() && s.consistent() ==> old(self).contents().len()
                + s.model().len() <= usize::MAX,
        ensures
            Backend::obeys_backend_spec() ==> {
                &&& result is Ok <==> s.consistent()
                &&& result is Ok ==> {
                    &&& final(self).well_formed()
                    &&& final(self).contents() == old(self).contents() + s.model()
                    &&& room_kept(old(self).backend(), final(self).backend())
                }
                &&& result is Err ==> final(self).backend() == old(self).backend()
            },
    {
        self.backend.extend_from_slice(s)
    }

    /// Efficiently append multiple null values into the builder
    ///
    /// This operation is available when T is a [nullable
    /// type](NullableElement), i.e. `Null` or `Option<T>`.
    pub fn extend_with_nulls(&mut self, n: usize) where T: NullableElement, Backend: NullableBackend<T>
        requires
            Backend::obeys_backend_spec() ==> old(self).contents().len() + n <= usize::MAX,
        ensures
            Backend::obeys_backend_spec() ==> {
                &&& final(self).well_formed()
                &&& final(self).contents() == old(self).contents() + Seq::new(
                    n as nat,
                    |index: int| T::null_model(),
                )
                &&& room_kept(old(self).backend(), final(self).backend())
            },
    {
        self.backend.extend_with_nulls(n)
    }

    /// Current null buffer / validity slice
    ///
    /// It may return `None` when all elements are known to be valid.
    /// Otherwise, it will return a `&[bool]`-like [`Bitmap`] which can be
    /// used to check which elements are valid.
    pub fn validity_slice<'a>(&'a self) -> (validity: Option<Bitmap<'a>>) where
        Backend: ValidityBackend,

        requires
            Backend::obeys_backend_spec() ==> self.validity().len() + 7 <= usize::MAX,
        ensures
            Backend::obeys_backend_spec() ==> {
                &&& validity matches Some(bitmap) ==> bitmap.consistent() && bitmap.model()
                    == self.validity()
                &&& validity is None ==> self.validity() == Seq::new(
                    self.validity().len(),
                    |index: int| true,
                )
            },
    {
        self.backend.option_validity_slice()
    }

    /// Number of elements that were appended into this builder
    pub fn len(&self) -> (len: usize)
        ensures
            Backend::obeys_backend_spec() ==> {
                &&& len == self.validity().len()
                &&& self.well_formed() ==> len == self.contents().len()
            },
    {
        self.backend.len()
    }

    /// Truth that no elements were appended into this builder
    pub fn is_empty(&self) -> (empty: bool)
        ensures
            Backend::obeys_backend_spec() ==> {
                &&& empty == (self.validity().len() == 0)
                &&& self.well_formed() ==> empty == (self.contents().len() == 0)
            },
    {
        self.len() == 0
    }
}

impl<T, Backend> TypedBuilder<Option<T>, Backend> where
    T: ArrayElement,
    Option<T>: ArrayElement<Model = Option<<T as ArrayElement>::Model>>,
    Backend: OptionalBackend<T>,
 {
    /// Efficiently append multiple non-null values into the builder
    ///
    /// This operation is available for every builder of `Option<T>` whose
    /// Arrow builder takes values in bulk. Given a slice of `T`, it lets you
    /// do the optimized equivalent of calling `push(Some(value))` in a loop
    /// for each value inside of the slice.
    ///
    /// Fails, and leaves the builder as it was, if the slice is not
    /// consistent.
    pub fn extend_from_value_slice<'a>(&mut self, vs: T::WriteSlice<'a>) -> (result: Result<
        (),
        ExtendError,
    >)
        requires
            Backend::obeys_backend_spec() && vs.consistent() ==> old(self).contents().len()
                + vs.model().len() <= usize::MAX,
        ensures
            Backend::obeys_backend_spec() ==> {
                &&& result is Ok <==> vs.consistent()
                &&& result is Ok ==> {
                    &&& final(self).well_formed()
                    &&& final(self).contents() == old(self).contents() + Seq::new(
                        vs.model().len(),
                        |index: int| Some(vs.model()[index]),
                    )
                    &&& room_kept(old(self).backend(), final(self).backend())
                }
                &&& result is Err ==> final(self).backend() == old(self).backend()
            },
    {
        self.backend.extend_from_value_slice(vs)
    }
}

impl<T: ArrayElement, Backend: TypedBackend<T>> Default for TypedBuilder<T, Backend> where
    Backend::ExtraConfig: Default,
 {
    /// A new array builder with the default configuration
    fn default() -> (builder: Self)
        ensures
            Backend::obeys_backend_spec() ==> {
                &&& builder.well_formed()
                &&& builder.contents().len() == 0
                &&& builder.is_new_with(None)
            },
    {
        Self::new()
    }
}

} // verus!
