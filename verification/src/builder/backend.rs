//! Strong typing layer on top of Arrow builders

use crate::bitmap::Bitmap;
use crate::builder::config::BuilderConfig;
use crate::element::list::ListLike;
use crate::element::option::NullableElement;
use crate::element::primitive::OptimizedValiditySlice;
use crate::element::{ArrayElement, Slice, Value};
use vstd::prelude::*;
use vstd::std_specs::cmp::PartialEqSpecImpl;

pub mod bool;
pub mod list;
pub mod null;

verus! {

/// Reason why a bulk insertion was rejected
#[derive(Clone, Copy, Debug, PartialEq, Eq)]
pub enum ExtendError {
    /// The slice holds more or fewer values than validity flags
    ValidityLengthMismatch,
    /// The sublists of the slice do not hold as many items together as the
    /// slice has
    SublistLengthMismatch,
}

impl ExtendError {
    /// Accept a bulk insertion that brings `values` values and `flags`
    /// validity flags, or say why it is rejected
    ///
    /// The insertion is rejected unless there are as many validity flags as
    /// values.
    pub fn check_validity_len(values: usize, flags: usize) -> (result: Result<(), ExtendError>)
        ensures
            result == (if values == flags {
                Ok::<(), ExtendError>(())
            } else {
                Err(ExtendError::ValidityLengthMismatch)
            }),
    {
        if values == flags {
            Ok(())
        } else {
            Err(ExtendError::ValidityLengthMismatch)
        }
    }

    /// What went wrong, for a human to read
    pub fn message(&self) -> (message: &'static str)
        ensures
            message@ == match *self {
                ExtendError::ValidityLengthMismatch => "value and validity lengths must be equal"@,
                ExtendError::SublistLengthMismatch => "sum of sublist lengths should equate value buffer length"@,
            },
    {
        match self {
            ExtendError::ValidityLengthMismatch => "value and validity lengths must be equal",
            ExtendError::SublistLengthMismatch => "sum of sublist lengths should equate value buffer length",
        }
    }
}

/// Best-effort buffer builder capacity query
///
/// When an Arrow array builder provides a way to query the capacity, or it can
/// be emulated on our side, this trait can be used to access it. The trait is
/// also implemented for the `AlternateConfig` configuration methods, where
/// available, in which case it behaves as a prediction of minimal final builder
/// capacity once a builder is built using that configuration.
///
/// In the case of types that are internally stored as multiple columnar
/// buffers, like structs or unions, a lower bound on the capacity of all
/// underlying columns is returned.
///
/// In the case of arrays of lists, capacity is to be understood as the
/// number of sublists that the array can hold, not the cumulative number of
/// elements across all sublists.
pub trait Capacity {
    /// Number of elements that are known to fit without reallocating
    ///
    /// How much room there is beyond that is up to the allocator. Nothing is
    /// known to fit unless the implementation says so.
    open spec fn reserved(&self) -> nat {
        0
    }

    /// Number of elements the builder can hold without reallocating
    fn capacity(&self) -> (capacity: usize)
        ensures
            capacity >= self.reserved(),
    ;
}

/// Extra configuration of a backend that needs none beyond a capacity
#[derive(Clone, Copy, Debug)]
pub struct NoExtraConfig;

impl Default for NoExtraConfig {
    fn default() -> (config: Self) {
        NoExtraConfig
    }
}

impl PartialEq for NoExtraConfig {
    /// There is nothing by which two values would differ
    fn eq(&self, other: &Self) -> (equal: bool) {
        true
    }
}

impl PartialEqSpecImpl for NoExtraConfig {
    open spec fn obeys_eq_spec() -> bool {
        true
    }

    open spec fn eq_spec(&self, other: &Self) -> bool {
        true
    }
}

impl Eq for NoExtraConfig {

}

/// Marker type denoting absence of alternate configuration methods
///
/// Used as the `TypedBackend::AlternateConfig` type when only
/// `new()`/`with_capacity()` construction is available.
///
/// There is no value of this type: nothing constructs one.
#[derive(Clone, Copy, Debug)]
pub struct NoAlternateConfig {
    /// Keeps other modules from making a value
    never: (),
}

impl NoAlternateConfig {
    /// No value of this type exists
    #[verifier::type_invariant]
    pub open spec fn inhabited(&self) -> bool {
        false
    }
}

impl PartialEq for NoAlternateConfig {
    /// There is nothing by which two values would differ
    fn eq(&self, other: &Self) -> (equal: bool) {
        true
    }
}

impl PartialEqSpecImpl for NoAlternateConfig {
    open spec fn obeys_eq_spec() -> bool {
        true
    }

    open spec fn eq_spec(&self, other: &Self) -> bool {
        true
    }
}

impl Eq for NoAlternateConfig {

}

impl Capacity for NoAlternateConfig {
    fn capacity(&self) -> (capacity: usize) {
        proof {
            use_type_invariant(self);
        }
        0
    }
}

/// Subset of `TypedBackend<T>` functionality that does not depend on `T`
///
/// A builder tells what it holds and how much room it has by the
/// specification functions of this trait and of [`TypedBackend`]. Each
/// operation then promises what it does to them, for a builder that obeys its
/// specification. A builder that leaves the specification functions as they
/// are promises nothing.
pub trait Backend: Sized {
    /// Truth that the builder does what the operations of the backend traits
    /// promise
    open spec fn obeys_backend_spec() -> bool {
        false
    }

    /// Validity of each element that the builder holds, first to last
    open spec fn validity(&self) -> Seq<bool> {
        Seq::empty()
    }

    /// Number of elements that the builder has room for
    open spec fn room(&self) -> nat {
        0
    }

    /// Most room that a builder gets by growing to hold `held` elements
    open spec fn grown_room(held: nat) -> nat {
        held
    }

    /// Number of elements that the builder holds
    fn len(&self) -> (len: usize)
        ensures
            Self::obeys_backend_spec() ==> len == self.validity().len(),
    ;
}

/// Truth that `after` has the room that appending elements leaves a builder
/// that was `before`: no less room than before, enough for the elements that
/// it holds, and no more than before unless it grew to hold some of them
pub open spec fn room_kept<B: Backend>(before: B, after: B) -> bool {
    &&& before.room() <= after.room()
    &&& after.validity().len() <= after.room()
    &&& (after.room() <= before.room() || exists|held: nat|
        held <= after.validity().len() && after.room() <= #[trigger] B::grown_room(held))
}

/// Chaining [`room_kept`]: what holds of the room from one state of a
/// builder to a second, and from the second to a third that holds no fewer
/// elements, holds from the first to the third
pub proof fn lemma_room_kept<B: Backend>(first: B, second: B, third: B)
    requires
        room_kept(first, second),
        room_kept(second, third),
        second.validity().len() <= third.validity().len(),
    ensures
        room_kept(first, third),
{
    if third.room() > first.room() {
        if third.room() <= second.room() {
            let held = choose|held: nat|
                held <= second.validity().len() && second.room() <= #[trigger] B::grown_room(held);
            assert(held <= third.validity().len() && third.room() <= B::grown_room(held));
        }
    }
}

/// Builder which keeps the nulls of its elements in a null buffer
pub trait ValidityBackend: Backend {
    /// Returns the current null buffer as an optional slice, where None means
    /// that all inner values are valid
    fn option_validity_slice<'a>(&'a self) -> (validity: Option<Bitmap<'a>>)
        requires
            Self::obeys_backend_spec() ==> self.validity().len() + 7 <= usize::MAX,
        ensures
            Self::obeys_backend_spec() ==> {
                &&& validity matches Some(bitmap) ==> bitmap.consistent() && bitmap.model()
                    == self.validity()
                &&& validity is None ==> self.validity() == Seq::new(
                    self.validity().len(),
                    |index: int| true,
                )
            },
    ;

    /// Returns the current null buffer, if there is one, and else the number
    /// of elements that are known to be all valid
    fn optimized_validity_slice<'a>(&'a self) -> (validity: OptimizedValiditySlice<Bitmap<'a>>)
        requires
            Self::obeys_backend_spec() ==> self.validity().len() + 7 <= usize::MAX,
        ensures
            Self::obeys_backend_spec() ==> validity.consistent() && validity.model()
                == self.validity(),
    {
        OptimizedValiditySlice::from_arrow(self.option_validity_slice(), self.len())
    }
}

/// Arrow builder that can accept strongly typed entries of type `T`
pub trait TypedBackend<T: ArrayElement>: Backend {
    /// Extra configuration requested by the new/with_capacity constructor
    type ExtraConfig;

    /// Enum of alternate constructors/parameters besides new/with_capacity
    type AlternateConfig: Capacity;

    /// Elements that the builder holds, first to last
    open spec fn contents(&self) -> Seq<T::Model> {
        Seq::empty()
    }

    /// Truth that the builder is as `new()` makes it from `config`
    open spec fn made_from(&self, config: BuilderConfig<T, Self>) -> bool {
        true
    }

    /// Create a new builder backend for an array of this type
    fn new(config: BuilderConfig<T, Self>) -> (backend: Self)
        ensures
            Self::obeys_backend_spec() ==> {
                &&& backend.contents().len() == backend.validity().len()
                &&& backend.contents().len() == 0
                &&& backend.made_from(config)
            },
    ;

    /// Append a single element into the builder
    fn push<'a>(&mut self, v: T::WriteValue<'a>)
        requires
            Self::obeys_backend_spec() ==> old(self).contents().len() < usize::MAX,
        ensures
            Self::obeys_backend_spec() ==> {
                &&& final(self).contents().len() == final(self).validity().len()
                &&& final(self).contents() == old(self).contents().push(v.model())
                &&& room_kept(*old(self), *final(self))
            },
    ;
}

/// Truth that a builder holds one validity for each of its elements
pub open spec fn holds_validities<T: ArrayElement, B: TypedBackend<T>>(backend: B) -> bool {
    backend.contents().len() == backend.validity().len()
}

/// Bulk insertion of slices of elements of type `T` into the corresponding
/// Arrow builder
pub trait ExtendFromSlice<T: ArrayElement>: TypedBackend<T> {
    /// Append values into the builder in bulk
    ///
    /// The values are appended if the slice is consistent. Else the builder
    /// is left as it was.
    fn extend_from_slice<'a>(&mut self, s: T::WriteSlice<'a>) -> (result: Result<(), ExtendError>)
        requires
            Self::obeys_backend_spec() && s.consistent() ==> old(self).contents().len()
                + s.model().len() <= usize::MAX,
        ensures
            Self::obeys_backend_spec() ==> {
                &&& result is Ok <==> s.consistent()
                &&& result is Ok ==> {
                    &&& final(self).contents().len() == final(self).validity().len()
                    &&& final(self).contents() == old(self).contents() + s.model()
                    &&& room_kept(*old(self), *final(self))
                }
                &&& result is Err ==> *final(self) == *old(self)
            },
    ;
}

/// Arrow builder of optional entries that can accept valid entries of type
/// `T` in bulk
pub trait OptionalBackend<T>: TypedBackend<Option<T>> where
    T: ArrayElement,
    Option<T>: ArrayElement<Model = Option<<T as ArrayElement>::Model>>,
 {
    /// Append valid values into the builder in bulk
    ///
    /// The values are appended if the slice is consistent. Else the builder
    /// is left as it was.
    fn extend_from_value_slice<'a>(&mut self, vs: T::WriteSlice<'a>) -> (result: Result<
        (),
        ExtendError,
    >)
        requires
            Self::obeys_backend_spec() && vs.consistent() ==> old(self).contents().len()
                + vs.model().len() <= usize::MAX,
        ensures
            Self::obeys_backend_spec() ==> {
                &&& result is Ok <==> vs.consistent()
                &&& result is Ok ==> {
                    &&& final(self).contents().len() == final(self).validity().len()
                    &&& final(self).contents() == old(self).contents() + Seq::new(
                        vs.model().len(),
                        |index: int| Some(vs.model()[index]),
                    )
                    &&& room_kept(*old(self), *final(self))
                }
                &&& result is Err ==> *final(self) == *old(self)
            },
    ;
}

/// Arrow builder that can accept null entries of type `T` in bulk
pub trait NullableBackend<T: NullableElement>: TypedBackend<T> {
    /// Efficiently append `n` null values into the builder
    fn extend_with_nulls(&mut self, n: usize)
        requires
            Self::obeys_backend_spec() ==> old(self).contents().len() + n <= usize::MAX,
        ensures
            Self::obeys_backend_spec() ==> {
                &&& final(self).contents().len() == final(self).validity().len()
                &&& final(self).contents() == old(self).contents() + Seq::new(
                    n as nat,
                    |index: int| T::null_model(),
                )
                &&& room_kept(*old(self), *final(self))
            },
    ;
}

/// Access the inner items from a builder of lists
pub trait Items<T: ListLike, ItemBackend: TypedBackend<T::Item>>: TypedBackend<T> {
    /// The builder that the items of the lists go to
    fn items(&self) -> &ItemBackend;
}

} // verus!
