//! Strong typing layer on top of [`BooleanBuilder`]

use crate::bitmap::{bit_at, Bitmap};
use crate::builder::backend::{
    room_kept, Backend, Capacity, ExtendError, ExtendFromSlice, NoAlternateConfig, NoExtraConfig,
    NullableBackend,
    OptionalBackend, TypedBackend, ValidityBackend,
};
use crate::builder::config::BuilderConfig;
use crate::element::option::OptionSlice;
use crate::element::{Slice, Value};
use arrow_array::builder::{ArrayBuilder, BooleanBuilder};
use arrow_schema::ArrowError;
use vstd::prelude::*;
use vstd::std_specs::cmp::PartialEqSpec;

verus! {

/// Arrow's builder of boolean arrays
#[verifier::external_type_specification]
#[verifier::external_body]
pub struct ExBooleanBuilder(BooleanBuilder);

/// Arrow's error type
#[verifier::external_type_specification]
#[verifier::external_body]
pub struct ExArrowError(ArrowError);

/// Slots that a `BooleanBuilder` holds, first to last: the boolean of each
/// valid slot, and `None` for each null slot
pub uninterp spec fn boolean_builder_slots(builder: BooleanBuilder) -> Seq<Option<bool>>;

/// Number of slots that the values buffer of a `BooleanBuilder` has room
/// for: eight for each byte of the capacity that the buffer records
pub uninterp spec fn boolean_builder_room(builder: BooleanBuilder) -> nat;

/// Most room that the values buffer of a builder has, once it holds `held`
/// slots, if it had room for `room` slots before
///
/// Where the buffer is too small for the slots, Arrow grows it to what the
/// slots need, rounded up to 64 bytes, or to twice its size if that is more,
/// which is less than twice what the slots need.
pub open spec fn most_room_after(room: nat, held: nat) -> nat {
    if room >= 2 * held + 1022 {
        room
    } else {
        2 * held + 1022
    }
}

/// Truth that the values buffer of a builder may have room for `room`
/// slots, once the builder holds `held` slots, if it had room for `before`
/// slots: Arrow never shrinks the buffer as slots are appended, the slots
/// fit, and the buffer is no larger than [`most_room_after`] says
pub open spec fn room_after_append(before: nat, room: nat, held: nat) -> bool {
    &&& before <= room
    &&& held <= room
    &&& room <= most_room_after(before, held)
}

/// Truth that `builder` is as Arrow makes a builder of booleans that is
/// asked to have the capacity `capacity`, if any: it has no slots, and its
/// values buffer has room for the slots asked for, rounded up to 64 bytes, or
/// for 1024 slots if its capacity was left to Arrow
pub open spec fn boolean_builder_made_with(builder: BooleanBuilder, capacity: Option<usize>) -> bool {
    &&& boolean_builder_slots(builder).len() == 0
    &&& match capacity {
        Some(capacity) => capacity <= boolean_builder_room(builder) <= capacity + 511,
        None => boolean_builder_room(builder) == 1024,
    }
}

/// Slots that `values` and `is_valid` describe together: the value of
/// each row whose validity flag is set, and `None` for each other row
pub open spec fn option_slots(values: Seq<bool>, is_valid: Seq<bool>) -> Seq<Option<bool>> {
    Seq::new(
        is_valid.len(),
        |index: int|
            if is_valid[index] {
                Some(values[index])
            } else {
                None
            },
    )
}

/// A builder without slots, as `BooleanBuilder::new` makes it, whose values
/// buffer has room for 1024 slots
#[verifier::external_body]
fn boolean_builder_new() -> (builder: BooleanBuilder)
    ensures
        boolean_builder_slots(builder).len() == 0,
        boolean_builder_room(builder) == 1024,
{
    BooleanBuilder::new()
}

/// `BooleanBuilder::with_capacity` makes a builder without slots, whose
/// values buffer has room for `capacity` slots, rounded up to whole bytes and
/// then to 64 bytes.
pub assume_specification[ BooleanBuilder::with_capacity ](capacity: usize) -> (builder:
    BooleanBuilder)
    ensures
        boolean_builder_slots(builder).len() == 0,
        capacity <= boolean_builder_room(builder) <= capacity + 511,
;

/// Number of slots that a `BooleanBuilder` has room for, as
/// `BooleanBuilder::capacity` tells it: the room of the values buffer, where
/// an `usize` can hold that number.
#[verifier::external_body]
fn boolean_builder_capacity(builder: &BooleanBuilder) -> (capacity: usize)
    ensures
        boolean_builder_room(*builder) <= usize::MAX ==> capacity == boolean_builder_room(
            *builder,
        ),
{
    builder.capacity()
}

/// `BooleanBuilder::append_value` adds one valid slot that holds `v`, as
/// long as the number of slots still fits an `usize`.
pub assume_specification[ BooleanBuilder::append_value ](builder: &mut BooleanBuilder, v: bool)
    requires
        boolean_builder_slots(*old(builder)).len() < usize::MAX,
    ensures
        boolean_builder_slots(*final(builder)) == boolean_builder_slots(*old(builder)).push(
            Some(v),
        ),
        room_after_append(
            boolean_builder_room(*old(builder)),
            boolean_builder_room(*final(builder)),
            boolean_builder_slots(*final(builder)).len(),
        ),
;

/// `BooleanBuilder::append_option` adds one slot, which holds `v` if there
/// is one and is null otherwise, as long as the number of slots still fits
/// an `usize`.
pub assume_specification[ BooleanBuilder::append_option ](
    builder: &mut BooleanBuilder,
    v: Option<bool>,
)
    requires
        boolean_builder_slots(*old(builder)).len() < usize::MAX,
    ensures
        boolean_builder_slots(*final(builder)) == boolean_builder_slots(*old(builder)).push(v),
        room_after_append(
            boolean_builder_room(*old(builder)),
            boolean_builder_room(*final(builder)),
            boolean_builder_slots(*final(builder)).len(),
        ),
;

/// `BooleanBuilder::append_nulls` adds `n` null slots, as long as the number
/// of slots still fits an `usize`.
pub assume_specification[ BooleanBuilder::append_nulls ](builder: &mut BooleanBuilder, n: usize)
    requires
        boolean_builder_slots(*old(builder)).len() + n <= usize::MAX,
    ensures
        boolean_builder_slots(*final(builder)) == boolean_builder_slots(*old(builder)) + Seq::new(
            n as nat,
            |index: int| None::<bool>,
        ),
        room_after_append(
            boolean_builder_room(*old(builder)),
            boolean_builder_room(*final(builder)),
            boolean_builder_slots(*final(builder)).len(),
        ),
;

/// `BooleanBuilder::append_slice` adds one valid slot for each boolean of
/// `v`, in order, as long as the number of slots still fits an `usize`.
pub assume_specification[ BooleanBuilder::append_slice ](builder: &mut BooleanBuilder, v: &[bool])
    requires
        boolean_builder_slots(*old(builder)).len() + v@.len() <= usize::MAX,
    ensures
        boolean_builder_slots(*final(builder)) == boolean_builder_slots(*old(builder)) + Seq::new(
            v@.len(),
            |index: int| Some(v@[index]),
        ),
        room_after_append(
            boolean_builder_room(*old(builder)),
            boolean_builder_room(*final(builder)),
            boolean_builder_slots(*final(builder)).len(),
        ),
;

/// `BooleanBuilder::append_values` fails, and leaves the builder as it was,
/// if `values` and `is_valid` differ in length. Else it adds one slot per
/// row, which holds the value of that row if its validity flag is set and
/// is null otherwise.
pub assume_specification[ BooleanBuilder::append_values ](
    builder: &mut BooleanBuilder,
    values: &[bool],
    is_valid: &[bool],
) -> (result: Result<(), ArrowError>)
    requires
        boolean_builder_slots(*old(builder)).len() + values@.len() <= usize::MAX,
    ensures
        result is Ok <==> values@.len() == is_valid@.len(),
        result is Ok ==> boolean_builder_slots(*final(builder)) == boolean_builder_slots(
            *old(builder),
        ) + option_slots(values@, is_valid@),
        result is Err ==> boolean_builder_slots(*final(builder)) == boolean_builder_slots(
            *old(builder),
        ),
        room_after_append(
            boolean_builder_room(*old(builder)),
            boolean_builder_room(*final(builder)),
            boolean_builder_slots(*final(builder)).len(),
        ),
;

/// `BooleanBuilder::validity_slice` hands out the null buffer, if the
/// builder has one. The null buffer has one bit per slot, packed least
/// significant bit first into just enough bytes, which is set where the slot
/// is valid. A builder only lacks a null buffer when all its slots are
/// valid.
pub assume_specification<'a>[ BooleanBuilder::validity_slice ](builder: &'a BooleanBuilder) -> (validity: Option<&'a [u8]>)
    ensures
        match validity {
            Some(bytes) => {
                &&& bytes@.len() == (boolean_builder_slots(*builder).len() + 7) / 8
                &&& forall|index: int|
                    0 <= index < boolean_builder_slots(*builder).len() ==> bit_at(bytes@, index)
                        == (#[trigger] boolean_builder_slots(*builder)[index]) is Some
            },
            None => forall|index: int|
                0 <= index < boolean_builder_slots(*builder).len()
                    ==> (#[trigger] boolean_builder_slots(*builder)[index]) is Some,
        },
;

/// Number of slots of a `BooleanBuilder`, as `ArrayBuilder::len` tells it
#[verifier::external_body]
fn boolean_builder_len(builder: &BooleanBuilder) -> (len: usize)
    ensures
        len == boolean_builder_slots(*builder).len(),
{
    ArrayBuilder::len(builder)
}

/// Validity of each of `slots`
pub open spec fn slot_validity(slots: Seq<Option<bool>>) -> Seq<bool> {
    Seq::new(slots.len(), |index: int| slots[index] is Some)
}

/// Boolean of each of `slots`, for slots that are all valid
pub open spec fn slot_values(slots: Seq<Option<bool>>) -> Seq<bool> {
    Seq::new(slots.len(), |index: int| slots[index].unwrap())
}

/// Room that Arrow leaves a builder of booleans after an append is room that
/// appending leaves a builder
proof fn lemma_room_kept_after_append(before: BooleanBuilder, after: BooleanBuilder)
    requires
        room_after_append(
            boolean_builder_room(before),
            boolean_builder_room(after),
            boolean_builder_slots(after).len(),
        ),
    ensures
        room_kept(before, after),
{
    let held = boolean_builder_slots(after).len();
    assert(held <= after.validity().len());
    if after.room() > before.room() {
        assert(after.room() <= BooleanBuilder::grown_room(held));
    }
}

impl Backend for BooleanBuilder {
    open spec fn obeys_backend_spec() -> bool {
        true
    }

    open spec fn validity(&self) -> Seq<bool> {
        slot_validity(boolean_builder_slots(*self))
    }

    open spec fn room(&self) -> nat {
        boolean_builder_room(*self)
    }

    /// Arrow grows the values buffer to what the slots need, rounded up to
    /// 64 bytes, or to twice its size if that is more, which is less than
    /// twice what the slots need
    open spec fn grown_room(held: nat) -> nat {
        2 * held + 1022
    }

    fn len(&self) -> (len: usize) {
        boolean_builder_len(self)
    }
}

impl ValidityBackend for BooleanBuilder {
    fn option_validity_slice<'a>(&'a self) -> (validity: Option<Bitmap<'a>>) {
        match self.validity_slice() {
            Some(bytes) => {
                let bitmap = Bitmap::new(bytes, boolean_builder_len(self));
                assert(bitmap.model() == self.validity());
                Some(bitmap)
            },
            None => {
                assert(self.validity() == Seq::new(self.validity().len(), |index: int| true));
                None
            },
        }
    }
}

impl Capacity for BooleanBuilder {
    /// The room of the values buffer, where Arrow can count it in an `usize`
    open spec fn reserved(&self) -> nat {
        if boolean_builder_room(*self) <= usize::MAX {
            boolean_builder_room(*self)
        } else {
            0
        }
    }

    fn capacity(&self) -> (capacity: usize)
        ensures
            boolean_builder_room(*self) <= usize::MAX ==> capacity == boolean_builder_room(*self),
    {
        boolean_builder_capacity(self)
    }
}

impl TypedBackend<bool> for BooleanBuilder {
    type ExtraConfig = NoExtraConfig;

    type AlternateConfig = NoAlternateConfig;

    /// The boolean of each slot: a builder of booleans that cannot be null
    /// only gets valid slots
    open spec fn contents(&self) -> Seq<bool> {
        slot_values(boolean_builder_slots(*self))
    }

    open spec fn made_from(&self, config: BuilderConfig<bool, Self>) -> bool {
        config matches BuilderConfig::Standard { capacity, .. } && boolean_builder_made_with(
            *self,
            capacity,
        )
    }

    fn new(config: BuilderConfig<bool, Self>) -> (backend: Self) {
        match config {
            BuilderConfig::Standard { capacity, extra } => new_boolean_builder(capacity),
            BuilderConfig::Alternate(alternate) => {
                proof {
                    use_type_invariant(&alternate);
                }
                new_boolean_builder(None)
            },
        }
    }

    #[inline]
    fn push<'a>(&mut self, v: bool) {
        let ghost before = boolean_builder_slots(*self);
        self.append_value(v);
        assert(slot_values(boolean_builder_slots(*self)) == slot_values(before).push(v.model()));
        proof {
            lemma_room_kept_after_append(*old(self), *self);
        }
    }

}

impl ExtendFromSlice<bool> for BooleanBuilder {
    fn extend_from_slice<'a>(&mut self, s: &'a [bool]) -> (result: Result<(), ExtendError>) {
        let ghost before = boolean_builder_slots(*self);
        assert(s.model() == s@);
        self.append_slice(s);
        assert(slot_values(boolean_builder_slots(*self)) == slot_values(before) + s.model());
        proof {
            lemma_room_kept_after_append(*old(self), *self);
        }
        Ok(())
    }
}

impl TypedBackend<Option<bool>> for BooleanBuilder {
    type ExtraConfig = NoExtraConfig;

    type AlternateConfig = NoAlternateConfig;

    open spec fn contents(&self) -> Seq<Option<bool>> {
        boolean_builder_slots(*self)
    }

    open spec fn made_from(&self, config: BuilderConfig<Option<bool>, Self>) -> bool {
        config matches BuilderConfig::Standard { capacity, .. } && boolean_builder_made_with(
            *self,
            capacity,
        )
    }

    fn new(config: BuilderConfig<Option<bool>, Self>) -> (backend: Self) {
        match config {
            BuilderConfig::Standard { capacity, extra } => new_boolean_builder(capacity),
            BuilderConfig::Alternate(alternate) => {
                proof {
                    use_type_invariant(&alternate);
                }
                new_boolean_builder(None)
            },
        }
    }

    #[inline]
    fn push<'a>(&mut self, v: Option<bool>) {
        self.append_option(v);
        assert(v.model() == v);
        proof {
            lemma_room_kept_after_append(*old(self), *self);
        }
    }

}

impl ExtendFromSlice<Option<bool>> for BooleanBuilder {
    /// Append the values of `s` if it has as many values as validity flags
    fn extend_from_slice<'a>(&mut self, s: OptionSlice<&'a [bool], &'a [bool]>) -> (result: Result<
        (),
        ExtendError,
    >) {
        assert(s.values.model() == s.values@);
        assert(s.is_valid.model() == s.is_valid@);
        if let Err(mismatch) = ExtendError::check_validity_len(s.values.len(), s.is_valid.len()) {
            return Err(mismatch);
        }
        assert(s.model() == option_slots(s.values@, s.is_valid@));
        let result = self.append_values(s.values, s.is_valid);
        proof {
            lemma_room_kept_after_append(*old(self), *self);
        }
        match result {
            Ok(()) => Ok(()),
            Err(_) => Err(ExtendError::ValidityLengthMismatch),
        }
    }
}

impl OptionalBackend<bool> for BooleanBuilder {
    fn extend_from_value_slice<'a>(&mut self, vs: &'a [bool]) -> (result: Result<(), ExtendError>) {
        assert(vs.model() == vs@);
        self.append_slice(vs);
        proof {
            lemma_room_kept_after_append(*old(self), *self);
        }
        Ok(())
    }
}

impl NullableBackend<Option<bool>> for BooleanBuilder {
    fn extend_with_nulls(&mut self, n: usize) {
        self.append_nulls(n);
        proof {
            lemma_room_kept_after_append(*old(self), *self);
        }
    }
}

/// Make a builder of boolean arrays, with room for `capacity` elements if
/// a capacity is asked for
fn new_boolean_builder(capacity: Option<usize>) -> (builder: BooleanBuilder)
    ensures
        boolean_builder_made_with(builder, capacity),
{
    match capacity {
        Some(capacity) => BooleanBuilder::with_capacity(capacity),
        None => boolean_builder_new(),
    }
}

/// `==` on the configurations of builders of booleans tells whether the
/// two are the same configuration
pub proof fn lemma_config_equality(
    config: BuilderConfig<bool, BooleanBuilder>,
    other: BuilderConfig<bool, BooleanBuilder>,
)
    ensures
        <BuilderConfig<bool, BooleanBuilder> as PartialEqSpec>::obeys_eq_spec(),
        <BuilderConfig<bool, BooleanBuilder> as PartialEqSpec>::eq_spec(&config, &other) == (config
            == other),
{
}

} // verus!
