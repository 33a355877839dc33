//! Primitive array element types

use crate::element::{element_models, ArrayElement, Slice, Value};
use arrow_array::types::{
    IntervalDayTimeType, IntervalMonthDayNanoType, IntervalYearMonthType,
};
use std::marker::PhantomData;
use std::num::TryFromIntError;
use std::time::Duration as StdDuration;
use vstd::prelude::*;

verus! {

/// A value that is always null
#[derive(Clone, Copy, Debug, Default, Eq, Hash, Ord, PartialEq, PartialOrd)]
pub struct Null;

impl Value for Null {
    type Model = Null;

    open spec fn model(&self) -> Null {
        *self
    }
}

impl ArrayElement for Null {
    type Model = Null;

    type WriteValue<'a> = Null;

    type ReadValue<'a> = Null;

    type WriteSlice<'a> = UniformSlice<Null>;

    type ReadSlice<'a> = UniformSlice<Null>;
}

/// Strong value type that Arrow stores as one of its primitive types
///
/// Arrays of such elements are read and written as plain Rust slices.
pub trait PrimitiveType: Value + 'static {

}

impl<T: PrimitiveType> ArrayElement for T {
    type Model = <T as Value>::Model;

    type WriteValue<'a> = T;

    type ReadValue<'a> = T;

    type WriteSlice<'a> = &'a [T];

    type ReadSlice<'a> = &'a [T];
}

impl PrimitiveType for i8 {

}

impl PrimitiveType for i16 {

}

impl PrimitiveType for i32 {

}

impl PrimitiveType for i64 {

}

impl PrimitiveType for u8 {

}

impl PrimitiveType for u16 {

}

impl PrimitiveType for u32 {

}

impl PrimitiveType for u64 {

}

/// A pseudo-slice whose elements are all equal to the same run-time constant
#[derive(Clone, Copy, Debug)]
pub struct UniformSlice<T: Value> {
    /// Common value of each element of the slice
    element: T,
    /// Number of elements "contained" by the slice
    len: usize,
}

impl<T: Value> UniformSlice<T> {
    /// Common value of each element of the slice
    pub closed spec fn element(&self) -> T {
        self.element
    }

    /// Number of elements of the slice
    pub closed spec fn count(&self) -> nat {
        self.len as nat
    }

    /// Set up a uniform slice with `len` elements, all equal to `element`
    pub fn new(element: T, len: usize) -> (slice: Self)
        ensures
            slice.element() == element,
            slice.count() == len,
    {
        Self { element, len }
    }
}

impl<T: Value> Value for UniformSlice<T> {
    type Model = Seq<T::Model>;

    /// As many copies of the model of the common element as the slice has
    /// elements
    open spec fn model(&self) -> Seq<T::Model> {
        Seq::new(self.count(), |index: int| self.element().model())
    }
}

impl<T: Value> Slice for UniformSlice<T> {
    type Element = T;

    open spec fn consistent(&self) -> bool {
        true
    }

    proof fn lemma_len_bounded(&self) {
    }

    #[inline]
    fn is_consistent(&self) -> (ok: bool) {
        true
    }

    #[inline]
    fn len(&self) -> (n: usize)
        ensures
            n == self.count(),
    {
        self.len
    }

    #[inline]
    fn get_cloned_unchecked(&self, index: usize) -> (element: T)
        ensures
            element == self.element(),
    {
        self.element
    }

    fn iter_cloned(&self) -> (elements: Vec<T>)
        ensures
            elements@ == Seq::new(self.count(), |index: int| self.element()),
    {
        let mut elements: Vec<T> = Vec::new();
        let mut index: usize = 0;
        while index < self.len
            invariant
                index <= self.len,
                elements@ == Seq::new(index as nat, |index: int| self.element()),
            decreases self.len - index,
        {
            elements.push(self.element);
            index += 1;
        }
        assert(element_models(elements@) == self.model());
        elements
    }

    fn split_at(&self, mid: usize) -> (parts: (Self, Self))
        ensures
            parts.0.element() == self.element(),
            parts.0.count() == mid,
            parts.1.element() == self.element(),
            parts.1.count() == self.count() - mid,
    {
        let parts = (
            Self { element: self.element, len: mid },
            Self { element: self.element, len: self.len - mid },
        );
        assert(parts.0.model() == self.model().take(mid as int));
        assert(parts.1.model() == self.model().skip(mid as int));
        assert(parts.0.model() + parts.1.model() == self.model());
        parts
    }
}

/// A pseudo-slice whose elements are all equal to the same compile-time boolean
#[derive(Clone, Copy, Debug)]
pub struct ConstBoolSlice<const ELEMENT: bool>(usize);

impl<const ELEMENT: bool> ConstBoolSlice<ELEMENT> {
    /// Number of elements of the slice
    pub closed spec fn count(&self) -> nat {
        self.0 as nat
    }

    /// Set up a uniform slice with `len` elements, all equal to `ELEMENT`
    pub fn new(len: usize) -> (slice: Self)
        ensures
            slice.count() == len,
    {
        Self(len)
    }
}

impl<const ELEMENT: bool> Value for ConstBoolSlice<ELEMENT> {
    type Model = Seq<bool>;

    /// As many copies of `ELEMENT` as the slice has elements
    open spec fn model(&self) -> Seq<bool> {
        Seq::new(self.count(), |index: int| ELEMENT)
    }
}

impl<const ELEMENT: bool> Slice for ConstBoolSlice<ELEMENT> {
    type Element = bool;

    open spec fn consistent(&self) -> bool {
        true
    }

    proof fn lemma_len_bounded(&self) {
    }

    #[inline]
    fn is_consistent(&self) -> (ok: bool) {
        true
    }

    #[inline]
    fn len(&self) -> (n: usize)
        ensures
            n == self.count(),
    {
        self.0
    }

    #[inline]
    fn get_cloned_unchecked(&self, index: usize) -> (element: bool)
        ensures
            element == ELEMENT,
    {
        let element = ELEMENT;
        assert(element.model() == self.model()[index as int]);
        element
    }

    fn iter_cloned(&self) -> (elements: Vec<bool>)
        ensures
            elements@ == self.model(),
    {
        let mut elements: Vec<bool> = Vec::new();
        let mut index: usize = 0;
        while index < self.0
            invariant
                index <= self.0,
                elements@ == self.model().take(index as int),
            decreases self.0 - index,
        {
            elements.push(ELEMENT);
            index += 1;
        }
        assert(elements@ == self.model());
        assert(element_models(elements@) == elements@);
        elements
    }

    fn split_at(&self, mid: usize) -> (parts: (Self, Self))
        ensures
            parts.0.count() == mid,
            parts.1.count() == self.count() - mid,
    {
        let parts = (Self(mid), Self(self.0 - mid));
        assert(parts.0.model() == self.model().take(mid as int));
        assert(parts.1.model() == self.model().skip(mid as int));
        assert(parts.0.model() + parts.1.model() == self.model());
        parts
    }
}

/// Validity of the elements of a column whose null buffer may be missing
///
/// Arrow only keeps a null buffer around once a column holds a null. A column
/// without one is known to be all valid, which is cheaper to record as a
/// number of elements than as a bitmap of that many set bits.
#[derive(Clone, Copy, Debug)]
pub enum OptimizedValiditySlice<Validity: Slice<Element = bool>> {
    /// Every element is valid
    AllValid(ConstBoolSlice<true>),
    /// Validity of each element
    Validity(Validity),
}

impl<Validity: Slice<Element = bool>> OptimizedValiditySlice<Validity> {
    /// Validity of a column of `len` elements, from its null buffer if it has
    /// one
    pub fn from_arrow(validity: Option<Validity>, len: usize) -> (slice: Self)
        ensures
            match (validity, slice) {
                (Some(validity), OptimizedValiditySlice::Validity(kept)) => kept == validity,
                (None, OptimizedValiditySlice::AllValid(all_valid)) => all_valid.count() == len,
                _ => false,
            },
            validity is None ==> slice.consistent() && slice.model() == Seq::new(
                len as nat,
                |index: int| true,
            ),
            validity matches Some(validity) ==> slice.consistent() == validity.consistent()
                && slice.model() == validity.model(),
    {
        match validity {
            Some(validity) => OptimizedValiditySlice::Validity(validity),
            None => {
                let slice = OptimizedValiditySlice::AllValid(ConstBoolSlice::new(len));
                assert(slice.model() == Seq::new(len as nat, |index: int| true));
                slice
            },
        }
    }
}

impl<Validity: Slice<Element = bool>> Value for OptimizedValiditySlice<Validity> {
    type Model = Seq<bool>;

    open spec fn model(&self) -> Seq<bool> {
        match *self {
            OptimizedValiditySlice::AllValid(all_valid) => all_valid.model(),
            OptimizedValiditySlice::Validity(validity) => validity.model(),
        }
    }
}

impl<Validity: Slice<Element = bool>> Slice for OptimizedValiditySlice<Validity> {
    type Element = bool;

    open spec fn consistent(&self) -> bool {
        match *self {
            OptimizedValiditySlice::AllValid(all_valid) => true,
            OptimizedValiditySlice::Validity(validity) => validity.consistent(),
        }
    }

    proof fn lemma_len_bounded(&self) {
        match *self {
            OptimizedValiditySlice::AllValid(all_valid) => {},
            OptimizedValiditySlice::Validity(validity) => {
                validity.lemma_len_bounded();
            },
        }
    }

    #[inline]
    fn is_consistent(&self) -> (ok: bool) {
        match self {
            OptimizedValiditySlice::AllValid(_) => true,
            OptimizedValiditySlice::Validity(validity) => validity.is_consistent(),
        }
    }

    #[inline]
    fn len(&self) -> (n: usize) {
        match self {
            OptimizedValiditySlice::AllValid(all_valid) => all_valid.len(),
            OptimizedValiditySlice::Validity(validity) => validity.len(),
        }
    }

    #[inline]
    fn get_cloned_unchecked(&self, index: usize) -> (element: bool) {
        match self {
            OptimizedValiditySlice::AllValid(all_valid) => all_valid.get_cloned_unchecked(index),
            OptimizedValiditySlice::Validity(validity) => validity.get_cloned_unchecked(index),
        }
    }

    fn iter_cloned(&self) -> (elements: Vec<bool>) {
        match self {
            OptimizedValiditySlice::AllValid(all_valid) => all_valid.iter_cloned(),
            OptimizedValiditySlice::Validity(validity) => validity.iter_cloned(),
        }
    }

    fn split_at(&self, mid: usize) -> (parts: (Self, Self)) {
        match self {
            OptimizedValiditySlice::AllValid(all_valid) => {
                let (left, right) = all_valid.split_at(mid);
                (OptimizedValiditySlice::AllValid(left), OptimizedValiditySlice::AllValid(right))
            },
            OptimizedValiditySlice::Validity(validity) => {
                let (left, right) = validity.split_at(mid);
                (OptimizedValiditySlice::Validity(left), OptimizedValiditySlice::Validity(right))
            },
        }
    }
}

/// Date type representing the elapsed time since the UNIX epoch in days
#[derive(Clone, Copy, Debug, Default, Eq, Hash, Ord, PartialEq, PartialOrd)]
pub struct Date<T>(T);

/// Date stored as a 32-bit number of days
pub type Date32 = Date<i32>;

/// Date stored as a 64-bit number
pub type Date64 = Date<i64>;

impl<T> Date<T> {
    /// Number that the date is stored as
    pub closed spec fn value(self) -> T {
        self.0
    }
}

impl<T> From<T> for Date<T> {
    #[inline(always)]
    fn from(value: T) -> (date: Self)
        ensures
            date.value() == value,
    {
        Self(value)
    }
}

impl<T> vstd::std_specs::convert::FromSpecImpl<T> for Date<T> {
    open spec fn obeys_from_spec() -> bool {
        true
    }

    closed spec fn from_spec(value: T) -> Self {
        Date(value)
    }
}

impl From<Date32> for i32 {
    #[inline(always)]
    fn from(value: Date32) -> (days: Self) {
        value.0
    }
}

impl vstd::std_specs::convert::FromSpecImpl<Date32> for i32 {
    open spec fn obeys_from_spec() -> bool {
        true
    }

    open spec fn from_spec(value: Date32) -> Self {
        value.value()
    }
}

impl From<Date64> for i64 {
    #[inline(always)]
    fn from(value: Date64) -> (days: Self) {
        value.0
    }
}

impl vstd::std_specs::convert::FromSpecImpl<Date64> for i64 {
    open spec fn obeys_from_spec() -> bool {
        true
    }

    open spec fn from_spec(value: Date64) -> Self {
        value.value()
    }
}

impl<T: Value> Value for Date<T> {
    type Model = T::Model;

    /// What the number that the date is stored as stands for
    open spec fn model(&self) -> T::Model {
        self.value().model()
    }
}

impl PrimitiveType for Date32 {

}

impl PrimitiveType for Date64 {

}

/// Unit of time
pub trait TimeUnit: Copy + 'static {
    /// Storage format for time since midnight in this unit
    type TimeStorage: Value + 'static;
}

/// Second duration storage granularity
#[derive(Clone, Copy, Debug, Default, Eq, Hash, Ord, PartialEq, PartialOrd)]
pub struct Second;

impl TimeUnit for Second {
    type TimeStorage = i32;
}

/// Millisecond duration storage granularity
#[derive(Clone, Copy, Debug, Default, Eq, Hash, Ord, PartialEq, PartialOrd)]
pub struct Millisecond;

impl TimeUnit for Millisecond {
    type TimeStorage = i32;
}

/// Microsecond duration storage granularity
#[derive(Clone, Copy, Debug, Default, Eq, Hash, Ord, PartialEq, PartialOrd)]
pub struct Microsecond;

impl TimeUnit for Microsecond {
    type TimeStorage = i64;
}

/// Nanosecond duration storage granularity
#[derive(Clone, Copy, Debug, Default, Eq, Hash, Ord, PartialEq, PartialOrd)]
pub struct Nanosecond;

impl TimeUnit for Nanosecond {
    type TimeStorage = i64;
}

/// Measure of elapsed time with a certain integer unit
#[derive(Debug)]
pub struct Duration<Unit: TimeUnit>(i64, PhantomData<Unit>);

impl<Unit: TimeUnit> Duration<Unit> {
    /// Number of units of time that elapsed
    pub closed spec fn count(self) -> i64 {
        self.0
    }
}

impl<Unit: TimeUnit> Clone for Duration<Unit> {
    fn clone(&self) -> (duration: Self)
        ensures
            duration == *self,
    {
        *self
    }
}

impl<Unit: TimeUnit> Copy for Duration<Unit> {

}

impl<Unit: TimeUnit> From<i64> for Duration<Unit> {
    #[inline(always)]
    fn from(value: i64) -> (duration: Self)
        ensures
            duration.count() == value,
    {
        Self(value, PhantomData)
    }
}

impl<Unit: TimeUnit> vstd::std_specs::convert::FromSpecImpl<i64> for Duration<Unit> {
    open spec fn obeys_from_spec() -> bool {
        true
    }

    closed spec fn from_spec(value: i64) -> Self {
        Duration(value, PhantomData)
    }
}

impl<Unit: TimeUnit> From<Duration<Unit>> for i64 {
    #[inline(always)]
    fn from(value: Duration<Unit>) -> (count: Self) {
        value.0
    }
}

impl<Unit: TimeUnit> vstd::std_specs::convert::FromSpecImpl<Duration<Unit>> for i64 {
    open spec fn obeys_from_spec() -> bool {
        true
    }

    open spec fn from_spec(value: Duration<Unit>) -> Self {
        value.count()
    }
}

impl<Unit: TimeUnit> Value for Duration<Unit> {
    type Model = i64;

    /// The number of units of time that elapsed
    open spec fn model(&self) -> i64 {
        self.count()
    }
}

impl<Unit: TimeUnit> PrimitiveType for Duration<Unit> {

}

/// Elapsed time since midnight
#[derive(Clone, Copy, Debug)]
pub struct Time<Unit: TimeUnit>(Unit::TimeStorage);

impl<Unit: TimeUnit> Time<Unit> {
    /// Number of units of time that elapsed since midnight
    pub closed spec fn count(self) -> Unit::TimeStorage {
        self.0
    }
}

impl From<i32> for Time<Second> {
    #[inline(always)]
    fn from(value: i32) -> (time: Self)
        ensures
            time.count() == value,
    {
        Self(value)
    }
}

impl vstd::std_specs::convert::FromSpecImpl<i32> for Time<Second> {
    open spec fn obeys_from_spec() -> bool {
        true
    }

    closed spec fn from_spec(value: i32) -> Self {
        Time(value)
    }
}

impl From<i32> for Time<Millisecond> {
    #[inline(always)]
    fn from(value: i32) -> (time: Self)
        ensures
            time.count() == value,
    {
        Self(value)
    }
}

impl vstd::std_specs::convert::FromSpecImpl<i32> for Time<Millisecond> {
    open spec fn obeys_from_spec() -> bool {
        true
    }

    closed spec fn from_spec(value: i32) -> Self {
        Time(value)
    }
}

impl From<i64> for Time<Microsecond> {
    #[inline(always)]
    fn from(value: i64) -> (time: Self)
        ensures
            time.count() == value,
    {
        Self(value)
    }
}

impl vstd::std_specs::convert::FromSpecImpl<i64> for Time<Microsecond> {
    open spec fn obeys_from_spec() -> bool {
        true
    }

    closed spec fn from_spec(value: i64) -> Self {
        Time(value)
    }
}

impl From<i64> for Time<Nanosecond> {
    #[inline(always)]
    fn from(value: i64) -> (time: Self)
        ensures
            time.count() == value,
    {
        Self(value)
    }
}

impl vstd::std_specs::convert::FromSpecImpl<i64> for Time<Nanosecond> {
    open spec fn obeys_from_spec() -> bool {
        true
    }

    closed spec fn from_spec(value: i64) -> Self {
        Time(value)
    }
}

impl From<Time<Second>> for i32 {
    #[inline(always)]
    fn from(value: Time<Second>) -> (count: Self) {
        value.0
    }
}

impl vstd::std_specs::convert::FromSpecImpl<Time<Second>> for i32 {
    open spec fn obeys_from_spec() -> bool {
        true
    }

    open spec fn from_spec(value: Time<Second>) -> Self {
        value.count()
    }
}

impl From<Time<Millisecond>> for i32 {
    #[inline(always)]
    fn from(value: Time<Millisecond>) -> (count: Self) {
        value.0
    }
}

impl vstd::std_specs::convert::FromSpecImpl<Time<Millisecond>> for i32 {
    open spec fn obeys_from_spec() -> bool {
        true
    }

    open spec fn from_spec(value: Time<Millisecond>) -> Self {
        value.count()
    }
}

impl From<Time<Microsecond>> for i64 {
    #[inline(always)]
    fn from(value: Time<Microsecond>) -> (count: Self) {
        value.0
    }
}

impl vstd::std_specs::convert::FromSpecImpl<Time<Microsecond>> for i64 {
    open spec fn obeys_from_spec() -> bool {
        true
    }

    open spec fn from_spec(value: Time<Microsecond>) -> Self {
        value.count()
    }
}

impl From<Time<Nanosecond>> for i64 {
    #[inline(always)]
    fn from(value: Time<Nanosecond>) -> (count: Self) {
        value.0
    }
}

impl vstd::std_specs::convert::FromSpecImpl<Time<Nanosecond>> for i64 {
    open spec fn obeys_from_spec() -> bool {
        true
    }

    open spec fn from_spec(value: Time<Nanosecond>) -> Self {
        value.count()
    }
}

impl<Unit: TimeUnit> Value for Time<Unit> {
    type Model = <Unit::TimeStorage as Value>::Model;

    /// What the number of units of time since midnight stands for
    open spec fn model(&self) -> Self::Model {
        self.count().model()
    }
}

impl<Unit: TimeUnit> PrimitiveType for Time<Unit> {

}

/// Number of nanoseconds that a `std::time::Duration` spans
pub uninterp spec fn std_duration_nanos(duration: StdDuration) -> nat;

/// `Duration::from_secs` makes a duration of `secs` whole seconds.
pub assume_specification[ StdDuration::from_secs ](secs: u64) -> (duration: StdDuration)
    ensures
        std_duration_nanos(duration) == secs * 1_000_000_000,
;

/// `Duration::from_millis` makes a duration of `millis` milliseconds.
pub assume_specification[ StdDuration::from_millis ](millis: u64) -> (duration: StdDuration)
    ensures
        std_duration_nanos(duration) == millis * 1_000_000,
;

/// `Duration::from_micros` makes a duration of `micros` microseconds.
pub assume_specification[ StdDuration::from_micros ](micros: u64) -> (duration: StdDuration)
    ensures
        std_duration_nanos(duration) == micros * 1_000,
;

/// `Duration::from_nanos` makes a duration of `nanos` nanoseconds.
pub assume_specification[ StdDuration::from_nanos ](nanos: u64) -> (duration: StdDuration)
    ensures
        std_duration_nanos(duration) == nanos,
;

/// `Duration::as_secs` tells how many whole seconds the duration holds.
pub assume_specification[ StdDuration::as_secs ](duration: &StdDuration) -> (secs: u64)
    ensures
        secs == std_duration_nanos(*duration) / 1_000_000_000,
;

/// `Duration::as_millis` tells how many whole milliseconds the duration
/// holds.
pub assume_specification[ StdDuration::as_millis ](duration: &StdDuration) -> (millis: u128)
    ensures
        millis == std_duration_nanos(*duration) / 1_000_000,
;

/// `Duration::as_micros` tells how many whole microseconds the duration
/// holds.
pub assume_specification[ StdDuration::as_micros ](duration: &StdDuration) -> (micros: u128)
    ensures
        micros == std_duration_nanos(*duration) / 1_000,
;

/// `Duration::as_nanos` tells how many nanoseconds the duration holds.
pub assume_specification[ StdDuration::as_nanos ](duration: &StdDuration) -> (nanos: u128)
    ensures
        nanos == std_duration_nanos(*duration),
;

impl TryFrom<Duration<Second>> for StdDuration {
    type Error = TryFromIntError;

    /// The same duration, unless it is negative
    #[inline]
    fn try_from(value: Duration<Second>) -> (result: Result<Self, TryFromIntError>)
        ensures
            result is Ok <==> value.count() >= 0,
            result matches Ok(duration) ==> std_duration_nanos(duration) == value.count()
                * 1_000_000_000,
    {
        match u64::try_from(value.0) {
            Ok(secs) => Ok(StdDuration::from_secs(secs)),
            Err(error) => Err(error),
        }
    }
}

impl vstd::std_specs::convert::TryFromSpecImpl<Duration<Second>> for StdDuration {
    open spec fn obeys_try_from_spec() -> bool {
        false
    }

    open spec fn try_from_spec(value: Duration<Second>) -> Result<Self, TryFromIntError> {
        arbitrary()
    }
}

impl TryFrom<StdDuration> for Duration<Second> {
    type Error = TryFromIntError;

    /// The whole seconds of the duration, unless they are too many
    #[inline]
    fn try_from(value: StdDuration) -> (result: Result<Self, TryFromIntError>)
        ensures
            result is Ok <==> std_duration_nanos(value) / 1_000_000_000 <= i64::MAX,
            result matches Ok(duration) ==> duration.count() == std_duration_nanos(value)
                / 1_000_000_000,
    {
        match i64::try_from(value.as_secs() as u128) {
            Ok(secs) => Ok(Self(secs, PhantomData)),
            Err(error) => Err(error),
        }
    }
}

impl vstd::std_specs::convert::TryFromSpecImpl<StdDuration> for Duration<Second> {
    open spec fn obeys_try_from_spec() -> bool {
        false
    }

    open spec fn try_from_spec(value: StdDuration) -> Result<Self, TryFromIntError> {
        arbitrary()
    }
}

impl TryFrom<Duration<Millisecond>> for StdDuration {
    type Error = TryFromIntError;

    /// The same duration, unless it is negative
    #[inline]
    fn try_from(value: Duration<Millisecond>) -> (result: Result<Self, TryFromIntError>)
        ensures
            result is Ok <==> value.count() >= 0,
            result matches Ok(duration) ==> std_duration_nanos(duration) == value.count()
                * 1_000_000,
    {
        match u64::try_from(value.0) {
            Ok(millis) => Ok(StdDuration::from_millis(millis)),
            Err(error) => Err(error),
        }
    }
}

impl vstd::std_specs::convert::TryFromSpecImpl<Duration<Millisecond>> for StdDuration {
    open spec fn obeys_try_from_spec() -> bool {
        false
    }

    open spec fn try_from_spec(value: Duration<Millisecond>) -> Result<Self, TryFromIntError> {
        arbitrary()
    }
}

impl TryFrom<StdDuration> for Duration<Millisecond> {
    type Error = TryFromIntError;

    /// The whole milliseconds of the duration, unless they are too many
    #[inline]
    fn try_from(value: StdDuration) -> (result: Result<Self, TryFromIntError>)
        ensures
            result is Ok <==> std_duration_nanos(value) / 1_000_000 <= i64::MAX,
            result matches Ok(duration) ==> duration.count() == std_duration_nanos(value)
                / 1_000_000,
    {
        match i64::try_from(value.as_millis()) {
            Ok(millis) => Ok(Self(millis, PhantomData)),
            Err(error) => Err(error),
        }
    }
}

impl vstd::std_specs::convert::TryFromSpecImpl<StdDuration> for Duration<Millisecond> {
    open spec fn obeys_try_from_spec() -> bool {
        false
    }

    open spec fn try_from_spec(value: StdDuration) -> Result<Self, TryFromIntError> {
        arbitrary()
    }
}

impl TryFrom<Duration<Microsecond>> for StdDuration {
    type Error = TryFromIntError;

    /// The same duration, unless it is negative
    #[inline]
    fn try_from(value: Duration<Microsecond>) -> (result: Result<Self, TryFromIntError>)
        ensures
            result is Ok <==> value.count() >= 0,
            result matches Ok(duration) ==> std_duration_nanos(duration) == value.count()
                * 1_000,
    {
        match u64::try_from(value.0) {
            Ok(micros) => Ok(StdDuration::from_micros(micros)),
            Err(error) => Err(error),
        }
    }
}

impl vstd::std_specs::convert::TryFromSpecImpl<Duration<Microsecond>> for StdDuration {
    open spec fn obeys_try_from_spec() -> bool {
        false
    }

    open spec fn try_from_spec(value: Duration<Microsecond>) -> Result<Self, TryFromIntError> {
        arbitrary()
    }
}

impl TryFrom<StdDuration> for Duration<Microsecond> {
    type Error = TryFromIntError;

    /// The whole microseconds of the duration, unless they are too many
    #[inline]
    fn try_from(value: StdDuration) -> (result: Result<Self, TryFromIntError>)
        ensures
            result is Ok <==> std_duration_nanos(value) / 1_000 <= i64::MAX,
            result matches Ok(duration) ==> duration.count() == std_duration_nanos(value)
                / 1_000,
    {
        match i64::try_from(value.as_micros()) {
            Ok(micros) => Ok(Self(micros, PhantomData)),
            Err(error) => Err(error),
        }
    }
}

impl vstd::std_specs::convert::TryFromSpecImpl<StdDuration> for Duration<Microsecond> {
    open spec fn obeys_try_from_spec() -> bool {
        false
    }

    open spec fn try_from_spec(value: StdDuration) -> Result<Self, TryFromIntError> {
        arbitrary()
    }
}

impl TryFrom<Duration<Nanosecond>> for StdDuration {
    type Error = TryFromIntError;

    /// The same duration, unless it is negative
    #[inline]
    fn try_from(value: Duration<Nanosecond>) -> (result: Result<Self, TryFromIntError>)
        ensures
            result is Ok <==> value.count() >= 0,
            result matches Ok(duration) ==> std_duration_nanos(duration) == value.count(),
    {
        match u64::try_from(value.0) {
            Ok(nanos) => Ok(StdDuration::from_nanos(nanos)),
            Err(error) => Err(error),
        }
    }
}

impl vstd::std_specs::convert::TryFromSpecImpl<Duration<Nanosecond>> for StdDuration {
    open spec fn obeys_try_from_spec() -> bool {
        false
    }

    open spec fn try_from_spec(value: Duration<Nanosecond>) -> Result<Self, TryFromIntError> {
        arbitrary()
    }
}

impl TryFrom<StdDuration> for Duration<Nanosecond> {
    type Error = TryFromIntError;

    /// The nanoseconds of the duration, unless they are too many
    #[inline]
    fn try_from(value: StdDuration) -> (result: Result<Self, TryFromIntError>)
        ensures
            result is Ok <==> std_duration_nanos(value) <= i64::MAX,
            result matches Ok(duration) ==> duration.count() == std_duration_nanos(value),
    {
        match i64::try_from(value.as_nanos()) {
            Ok(nanos) => Ok(Self(nanos, PhantomData)),
            Err(error) => Err(error),
        }
    }
}

impl vstd::std_specs::convert::TryFromSpecImpl<StdDuration> for Duration<Nanosecond> {
    open spec fn obeys_try_from_spec() -> bool {
        false
    }

    open spec fn try_from_spec(value: StdDuration) -> Result<Self, TryFromIntError> {
        arbitrary()
    }
}

/// Value that holds `days` in its upper 32 bits and `millis` in its lower
/// 32 bits, each in two's complement
pub open spec fn day_time_value(days: i32, millis: i32) -> i64 {
    ((millis as u64 & 0xFFFF_FFFFu64) | ((days as u64 & 0xFFFF_FFFFu64) << 32)) as i64
}

/// Days and milliseconds that the upper and the lower 32 bits of `value`
/// hold, each in two's complement
pub open spec fn day_time_parts(value: i64) -> (i32, i32) {
    ((value >> 32) as i32, value as i32)
}

/// Value that holds `months` in its upper 32 bits, `days` in the 32 bits
/// below them and `nanos` in its lower 64 bits, each in two's complement
pub open spec fn month_day_nano_value(months: i32, days: i32, nanos: i64) -> i128 {
    (((months as u128 & 0xFFFF_FFFFu128) << 96) | ((days as u128 & 0xFFFF_FFFFu128) << 64) | (nanos
        as u128 & 0xFFFF_FFFF_FFFF_FFFFu128)) as i128
}

/// Months, days and nanoseconds that `value` holds in its upper 32 bits, the
/// 32 bits below them and its lower 64 bits, each in two's complement
pub open spec fn month_day_nano_parts(value: i128) -> (i32, i32, i64) {
    ((value >> 96) as i32, (value >> 64) as i32, value as i64)
}

/// Taking apart an interval of days and milliseconds gives back the days and
/// milliseconds that it was made of
pub proof fn lemma_day_time_round_trip(days: i32, millis: i32)
    ensures
        day_time_parts(day_time_value(days, millis)) == (days, millis),
{
    let value = day_time_value(days, millis);
    assert(((((millis as u64 & 0xFFFF_FFFFu64) | ((days as u64 & 0xFFFF_FFFFu64) << 32)) as i64)
        >> 32) as i32 == days) by (bit_vector);
    assert((((millis as u64 & 0xFFFF_FFFFu64) | ((days as u64 & 0xFFFF_FFFFu64) << 32)) as i64)
        as i32 == millis) by (bit_vector);
}

/// Taking apart an interval of months, days and nanoseconds gives back the
/// months, days and nanoseconds that it was made of
pub proof fn lemma_month_day_nano_round_trip(months: i32, days: i32, nanos: i64)
    ensures
        month_day_nano_parts(month_day_nano_value(months, days, nanos)) == (months, days, nanos),
{
    assert((((((months as u128 & 0xFFFF_FFFFu128) << 96) | ((days as u128 & 0xFFFF_FFFFu128) << 64)
        | (nanos as u128 & 0xFFFF_FFFF_FFFF_FFFFu128)) as i128) >> 96) as i32 == months)
        by (bit_vector);
    assert((((((months as u128 & 0xFFFF_FFFFu128) << 96) | ((days as u128 & 0xFFFF_FFFFu128) << 64)
        | (nanos as u128 & 0xFFFF_FFFF_FFFF_FFFFu128)) as i128) >> 64) as i32 == days)
        by (bit_vector);
    assert(((((months as u128 & 0xFFFF_FFFFu128) << 96) | ((days as u128 & 0xFFFF_FFFFu128) << 64)
        | (nanos as u128 & 0xFFFF_FFFF_FFFF_FFFFu128)) as i128) as i64 == nanos) by (bit_vector);
}

/// What `IntervalDayTimeType::make_value` returns: `days` in the upper 32
/// bits and `millis` in the lower 32 bits
#[verifier::external_body]
fn make_day_time(days: i32, millis: i32) -> (value: i64)
    ensures
        value == day_time_value(days, millis),
{
    IntervalDayTimeType::make_value(days, millis)
}

/// What `IntervalDayTimeType::to_parts` returns: the upper 32 bits as days
/// and the lower 32 bits as milliseconds
#[verifier::external_body]
fn day_time_to_parts(value: i64) -> (parts: (i32, i32))
    ensures
        parts == day_time_parts(value),
{
    IntervalDayTimeType::to_parts(value)
}

/// What `IntervalMonthDayNanoType::make_value` returns: `months` in the
/// upper 32 bits, `days` in the 32 bits below them and `nanos` in the lower
/// 64 bits
#[verifier::external_body]
fn make_month_day_nano(months: i32, days: i32, nanos: i64) -> (value: i128)
    ensures
        value == month_day_nano_value(months, days, nanos),
{
    IntervalMonthDayNanoType::make_value(months, days, nanos)
}

/// What `IntervalMonthDayNanoType::to_parts` returns: the upper 32 bits as
/// months, the 32 bits below them as days and the lower 64 bits as
/// nanoseconds
#[verifier::external_body]
fn month_day_nano_to_parts(value: i128) -> (parts: (i32, i32, i64))
    ensures
        parts == month_day_nano_parts(value),
{
    IntervalMonthDayNanoType::to_parts(value)
}

/// What `IntervalYearMonthType::make_value` returns: the number of months
/// in `years` years and `months` months, which it computes as an `i32`
#[verifier::external_body]
fn make_year_month(years: i32, months: i32) -> (value: i32)
    requires
        i32::MIN <= years * 12 <= i32::MAX,
        i32::MIN <= years * 12 + months <= i32::MAX,
    ensures
        value == years * 12 + months,
{
    IntervalYearMonthType::make_value(years, months)
}

/// "Calendar" time interval in days and milliseconds
#[derive(Clone, Copy, Debug, Default)]
pub struct IntervalDayTime(i64);

impl IntervalDayTime {
    /// Number that the interval is stored as
    pub closed spec fn value(self) -> i64 {
        self.0
    }

    /// Creates a IntervalDayTime
    ///
    /// # Arguments
    ///
    /// * `days` - The number of days (+/-) represented in this interval
    /// * `millis` - The number of milliseconds (+/-) represented in this interval
    #[inline]
    pub fn new(days: i32, millis: i32) -> (interval: Self)
        ensures
            interval.value() == day_time_value(days, millis),
            day_time_parts(interval.value()) == (days, millis),
    {
        proof {
            lemma_day_time_round_trip(days, millis);
        }
        Self(make_day_time(days, millis))
    }

    /// Turns a IntervalDayTime into a tuple of (days, milliseconds)
    #[inline]
    pub fn to_parts(self) -> (parts: (i32, i32))
        ensures
            parts == day_time_parts(self.value()),
    {
        day_time_to_parts(self.0)
    }
}

impl From<i64> for IntervalDayTime {
    #[inline(always)]
    fn from(value: i64) -> (interval: Self)
        ensures
            interval.value() == value,
    {
        Self(value)
    }
}

impl vstd::std_specs::convert::FromSpecImpl<i64> for IntervalDayTime {
    open spec fn obeys_from_spec() -> bool {
        true
    }

    closed spec fn from_spec(value: i64) -> Self {
        IntervalDayTime(value)
    }
}

impl From<IntervalDayTime> for i64 {
    #[inline(always)]
    fn from(value: IntervalDayTime) -> (number: Self) {
        value.0
    }
}

impl vstd::std_specs::convert::FromSpecImpl<IntervalDayTime> for i64 {
    open spec fn obeys_from_spec() -> bool {
        true
    }

    open spec fn from_spec(value: IntervalDayTime) -> Self {
        value.value()
    }
}

impl Value for IntervalDayTime {
    type Model = i64;

    open spec fn model(&self) -> i64 {
        self.value()
    }
}

impl PrimitiveType for IntervalDayTime {

}

/// "Calendar" time interval in months, days and nanoseconds
#[derive(Clone, Copy, Debug, Default)]
pub struct IntervalMonthDayNano(i128);

impl IntervalMonthDayNano {
    /// Number that the interval is stored as
    pub closed spec fn value(self) -> i128 {
        self.0
    }

    /// Creates a IntervalMonthDayNano
    ///
    /// # Arguments
    ///
    /// * `months` - The number of months (+/-) represented in this interval
    /// * `days` - The number of days (+/-) represented in this interval
    /// * `nanos` - The number of nanoseconds (+/-) represented in this interval
    #[inline]
    pub fn new(months: i32, days: i32, nanos: i64) -> (interval: Self)
        ensures
            interval.value() == month_day_nano_value(months, days, nanos),
            month_day_nano_parts(interval.value()) == (months, days, nanos),
    {
        proof {
            lemma_month_day_nano_round_trip(months, days, nanos);
        }
        Self(make_month_day_nano(months, days, nanos))
    }

    /// Turns a IntervalMonthDayNano into a tuple of (months, days, nanoseconds)
    #[inline]
    pub fn to_parts(self) -> (parts: (i32, i32, i64))
        ensures
            parts == month_day_nano_parts(self.value()),
    {
        month_day_nano_to_parts(self.0)
    }
}

impl From<i128> for IntervalMonthDayNano {
    #[inline(always)]
    fn from(value: i128) -> (interval: Self)
        ensures
            interval.value() == value,
    {
        Self(value)
    }
}

impl vstd::std_specs::convert::FromSpecImpl<i128> for IntervalMonthDayNano {
    open spec fn obeys_from_spec() -> bool {
        true
    }

    closed spec fn from_spec(value: i128) -> Self {
        IntervalMonthDayNano(value)
    }
}

impl From<IntervalMonthDayNano> for i128 {
    #[inline(always)]
    fn from(value: IntervalMonthDayNano) -> (number: Self) {
        value.0
    }
}

impl vstd::std_specs::convert::FromSpecImpl<IntervalMonthDayNano> for i128 {
    open spec fn obeys_from_spec() -> bool {
        true
    }

    open spec fn from_spec(value: IntervalMonthDayNano) -> Self {
        value.value()
    }
}

impl Value for IntervalMonthDayNano {
    type Model = i128;

    open spec fn model(&self) -> i128 {
        self.value()
    }
}

impl PrimitiveType for IntervalMonthDayNano {

}

/// "Calendar" time interval stored as a number of whole months
#[derive(Clone, Copy, Debug, Default)]
pub struct IntervalYearMonth(i32);

impl IntervalYearMonth {
    /// Number of months that the interval is stored as
    pub closed spec fn value(self) -> i32 {
        self.0
    }

    /// Creates a IntervalYearMonth
    ///
    /// The interval must not span more months than an `i32` can hold.
    ///
    /// # Arguments
    ///
    /// * `years` - The number of years (+/-) represented in this interval
    /// * `months` - The number of months (+/-) represented in this interval
    #[inline]
    pub fn new(years: i32, months: i32) -> (interval: Self)
        requires
            i32::MIN <= years * 12 <= i32::MAX,
            i32::MIN <= years * 12 + months <= i32::MAX,
        ensures
            interval.value() == years * 12 + months,
    {
        Self(make_year_month(years, months))
    }

    /// Creates a IntervalYearMonth, unless it spans more months than an
    /// `i32` can hold
    #[inline]
    pub fn checked_new(years: i32, months: i32) -> (interval: Option<Self>)
        ensures
            interval is Some <==> {
                &&& i32::MIN <= years * 12 <= i32::MAX
                &&& i32::MIN <= years * 12 + months <= i32::MAX
            },
            interval matches Some(interval) ==> interval.value() == years * 12 + months,
    {
        match years.checked_mul(12) {
            Some(year_months) => match year_months.checked_add(months) {
                Some(_) => Some(Self::new(years, months)),
                None => None,
            },
            None => None,
        }
    }

    /// Turns a IntervalYearMonth into a number of months
    ///
    /// This operation is technically a no-op, it is included for
    /// comprehensiveness.
    #[inline]
    pub fn to_months(self) -> (months: i32)
        ensures
            months == self.value(),
    {
        self.0
    }
}

impl From<i32> for IntervalYearMonth {
    #[inline(always)]
    fn from(value: i32) -> (interval: Self)
        ensures
            interval.value() == value,
    {
        Self(value)
    }
}

impl vstd::std_specs::convert::FromSpecImpl<i32> for IntervalYearMonth {
    open spec fn obeys_from_spec() -> bool {
        true
    }

    closed spec fn from_spec(value: i32) -> Self {
        IntervalYearMonth(value)
    }
}

impl From<IntervalYearMonth> for i32 {
    #[inline(always)]
    fn from(value: IntervalYearMonth) -> (months: Self) {
        value.0
    }
}

impl vstd::std_specs::convert::FromSpecImpl<IntervalYearMonth> for i32 {
    open spec fn obeys_from_spec() -> bool {
        true
    }

    open spec fn from_spec(value: IntervalYearMonth) -> Self {
        value.value()
    }
}

impl Value for IntervalYearMonth {
    type Model = i32;

    open spec fn model(&self) -> i32 {
        self.value()
    }
}

impl PrimitiveType for IntervalYearMonth {

}

} // verus!
