//! Strong typing layer on top of [`NullBuilder`]

use crate::builder::backend::{
    Backend, Capacity, ExtendError, ExtendFromSlice, NoAlternateConfig, NoExtraConfig,
    NullableBackend,
    TypedBackend,
};
use crate::builder::config::BuilderConfig;
use crate::element::primitive::{Null, UniformSlice};
use crate::element::{Slice, Value};
use arrow_array::builder::{ArrayBuilder, NullBuilder};
use vstd::prelude::*;

verus! {

/// Arrow's builder of null arrays
#[verifier::external_type_specification]
#[verifier::external_body]
pub struct ExNullBuilder(NullBuilder);

/// Slots that a `NullBuilder` holds, all of which are null
pub uninterp spec fn null_builder_slots(builder: NullBuilder) -> Seq<()>;

/// A builder without slots, as `NullBuilder::new` makes it
#[verifier::external_body]
fn null_builder_new() -> (builder: NullBuilder)
    ensures
        null_builder_slots(builder).len() == 0,
{
    NullBuilder::new()
}

/// `NullBuilder::append_null` adds one slot, as long as the number of slots
/// still fits an `usize`.
pub assume_specification[ NullBuilder::append_null ](builder: &mut NullBuilder)
    requires
        null_builder_slots(*old(builder)).len() < usize::MAX,
    ensures
        null_builder_slots(*final(builder)) == null_builder_slots(*old(builder)).push(()),
;

/// `NullBuilder::append_nulls` adds `n` slots, as long as the number of
/// slots still fits an `usize`.
pub assume_specification[ NullBuilder::append_nulls ](builder: &mut NullBuilder, n: usize)
    requires
        null_builder_slots(*old(builder)).len() + n <= usize::MAX,
    ensures
        null_builder_slots(*final(builder)) == null_builder_slots(*old(builder)) + Seq::new(
            n as nat,
            |index: int| (),
        ),
;

/// Number of slots of a `NullBuilder`, as `ArrayBuilder::len` tells it
#[verifier::external_body]
fn null_builder_len(builder: &NullBuilder) -> (len: usize)
    ensures
        len == null_builder_slots(*builder).len(),
{
    ArrayBuilder::len(builder)
}

impl Backend for NullBuilder {
    open spec fn obeys_backend_spec() -> bool {
        true
    }

    /// No element of a null array is valid
    open spec fn validity(&self) -> Seq<bool> {
        Seq::new(null_builder_slots(*self).len(), |index: int| false)
    }

    /// Nulls take no room: any number of them fits
    open spec fn room(&self) -> nat {
        usize::MAX as nat
    }

    open spec fn grown_room(held: nat) -> nat {
        0
    }

    fn len(&self) -> (len: usize) {
        null_builder_len(self)
    }
}

impl Capacity for NullBuilder {
    open spec fn reserved(&self) -> nat {
        usize::MAX as nat
    }

    /// Nulls take no room: a null builder never reallocates
    fn capacity(&self) -> (capacity: usize)
        ensures
            capacity == usize::MAX,
    {
        usize::MAX
    }
}

impl TypedBackend<Null> for NullBuilder {
    type ExtraConfig = NoExtraConfig;

    type AlternateConfig = NoAlternateConfig;

    open spec fn contents(&self) -> Seq<Null> {
        Seq::new(null_builder_slots(*self).len(), |index: int| Null)
    }

    /// A builder without elements, whatever the configuration
    open spec fn made_from(&self, config: BuilderConfig<Null, Self>) -> bool {
        null_builder_slots(*self).len() == 0
    }

    /// A new builder of null arrays, whatever capacity is asked for
    fn new(config: BuilderConfig<Null, Self>) -> (backend: Self) {
        null_builder_new()
    }

    #[inline]
    fn push<'a>(&mut self, v: Null) {
        let ghost before = null_builder_slots(*self);
        self.append_null();
        assert(Seq::new(null_builder_slots(*self).len(), |index: int| Null) == Seq::new(
            before.len(),
            |index: int| Null,
        ).push(v.model()));
    }

}

impl ExtendFromSlice<Null> for NullBuilder {
    fn extend_from_slice<'a>(&mut self, s: UniformSlice<Null>) -> (result: Result<(), ExtendError>) {
        let ghost before = null_builder_slots(*self);
        self.append_nulls(s.len());
        assert(Seq::new(null_builder_slots(*self).len(), |index: int| Null) == Seq::new(
            before.len(),
            |index: int| Null,
        ) + s.model());
        Ok(())
    }
}

impl NullableBackend<Null> for NullBuilder {
    fn extend_with_nulls(&mut self, n: usize) {
        let ghost before = null_builder_slots(*self);
        self.append_nulls(n);
        assert(Seq::new(null_builder_slots(*self).len(), |index: int| Null) == Seq::new(
            before.len(),
            |index: int| Null,
        ) + Seq::new(n as nat, |index: int| Null));
    }
}

} // verus!
