//! Grouping array elements in sublists

use crate::bitmap::Bitmap;
use crate::element::option::{NullableElement, OptionSlice, OptionalElement};
use crate::element::primitive::OptimizedValiditySlice;
use crate::element::{element_models, ArrayElement, Slice, Value};
use std::marker::PhantomData;
use vstd::prelude::*;

verus! {

/// A list of elements of type `Item`
///
/// Uses 32-bit signed offsets by default, which limits the sum of sublist
/// lengths to `2^31`. Use [`LargeList`] to go over this limit.
#[derive(Debug)]
pub struct List<Item: ArrayElement, OffsetSize: self::OffsetSize = i32>(
    PhantomData<(Item, OffsetSize)>,
);

/// A [`List`] with 64-bit offsets
pub type LargeList<Item> = List<Item, i64>;

/// Slice format used to write lists of lists into an Arrow builder
pub type ListWriteSlice<'a, Item> = ListSlice<<Item as ArrayElement>::WriteSlice<'a>, &'a [usize]>;

/// Slice format used to write lists of optional lists into an Arrow builder
pub type OptionListWriteSlice<'a, Item> = ListSlice<
    <Item as ArrayElement>::WriteSlice<'a>,
    &'a [Option<usize>],
>;

/// Slice format used to access lists of lists from Arrow storage
pub type ListReadSlice<'a, Item, OffsetSize = i32> = ListSlice<
    <Item as ArrayElement>::ReadSlice<'a>,
    OffsetSublists<'a, OffsetSize>,
>;

/// Like [`ListReadSlice`], but inner sublists use 64-bit offsets
pub type LargeListReadSlice<'a, Item> = ListReadSlice<'a, Item, i64>;

/// Slice format used to access lists of optional lists from Arrow storage
pub type OptionListReadSlice<'a, Item, OffsetSize = i32> = ListSlice<
    <Item as ArrayElement>::ReadSlice<'a>,
    OptionOffsetSublists<'a, OffsetSize>,
>;

/// Like [`OptionListReadSlice`], but inner sublists use 64-bit offsets
pub type OptionLargeListReadSlice<'a, Item> = OptionListReadSlice<'a, Item, i64>;

impl<Item: ArrayElement, OffsetSize: self::OffsetSize> ArrayElement for List<Item, OffsetSize> {
    type Model = Seq<Item::Model>;

    type WriteValue<'a> = Item::WriteSlice<'a>;

    type ReadValue<'a> = Item::ReadSlice<'a>;

    type WriteSlice<'a> = ListWriteSlice<'a, Item>;

    type ReadSlice<'a> = ListReadSlice<'a, Item, OffsetSize>;
}

impl<Item: ArrayElement, OffsetSize: self::OffsetSize> ArrayElement for Option<
    List<Item, OffsetSize>,
> {
    type Model = Option<Seq<Item::Model>>;

    type WriteValue<'a> = Option<Item::WriteSlice<'a>>;

    type ReadValue<'a> = Option<Item::ReadSlice<'a>>;

    type WriteSlice<'a> = OptionListWriteSlice<'a, Item>;

    type ReadSlice<'a> = OptionListReadSlice<'a, Item, OffsetSize>;
}

impl<Item: ArrayElement, OffsetSize: self::OffsetSize> OptionalElement for List<Item, OffsetSize> {

}

impl<Item: ArrayElement, OffsetSize: self::OffsetSize> NullableElement for Option<
    List<Item, OffsetSize>,
> {
    open spec fn null_model() -> Option<Seq<Item::Model>> {
        None
    }
}

/// A [`List`] of `Item`s or an [`Option`] thereof
pub trait ListLike: ArrayElement {
    /// List item type
    type Item: ArrayElement;
}

impl<Item: ArrayElement, OffsetSize: self::OffsetSize> ListLike for List<Item, OffsetSize> {
    type Item = Item;
}

impl<Item: ArrayElement, OffsetSize: self::OffsetSize> ListLike for Option<
    List<Item, OffsetSize>,
> {
    type Item = Item;
}

/// Number of items that come before sublist `index`, in a column whose
/// sublists have the lengths and validities `sublists`
///
/// This is the offset of sublist `index` within the items of the column.
pub open spec fn items_before(sublists: Seq<(nat, bool)>, index: int) -> nat
    decreases index,
{
    if index <= 0 {
        0
    } else {
        items_before(sublists, index - 1) + sublists[index - 1].0
    }
}

/// Number of items across all of `sublists`
pub open spec fn total_items(sublists: Seq<(nat, bool)>) -> nat {
    items_before(sublists, sublists.len() as int)
}

/// Later sublists start at later offsets
pub proof fn lemma_items_before_increases(sublists: Seq<(nat, bool)>, first: int, second: int)
    requires
        first <= second,
    ensures
        items_before(sublists, first) <= items_before(sublists, second),
    decreases second - first,
{
    if first < second {
        lemma_items_before_increases(sublists, first, second - 1);
    }
}

/// The offsets of the first `mid` sublists do not depend on the sublists
/// that come after them
pub proof fn lemma_items_before_take(sublists: Seq<(nat, bool)>, mid: int, index: int)
    requires
        0 <= index <= mid <= sublists.len(),
    ensures
        items_before(sublists.take(mid), index) == items_before(sublists, index),
    decreases index,
{
    if index > 0 {
        lemma_items_before_take(sublists, mid, index - 1);
    }
}

/// Without the first `mid` sublists, every offset goes down by the number of
/// items in those sublists
pub proof fn lemma_items_before_skip(sublists: Seq<(nat, bool)>, mid: int, index: int)
    requires
        0 <= mid,
        0 <= index,
        mid + index <= sublists.len(),
    ensures
        items_before(sublists.skip(mid), index) == items_before(sublists, mid + index)
            - items_before(sublists, mid),
    decreases index,
{
    if index > 0 {
        lemma_items_before_skip(sublists, mid, index - 1);
    }
}

/// Splitting a column of sublists splits its items where the second half
/// starts
pub proof fn lemma_total_items_split(sublists: Seq<(nat, bool)>, mid: int)
    requires
        0 <= mid <= sublists.len(),
    ensures
        total_items(sublists.take(mid)) == items_before(sublists, mid),
        total_items(sublists.skip(mid)) == total_items(sublists) - items_before(sublists, mid),
{
    lemma_items_before_take(sublists, mid, mid);
    lemma_items_before_skip(sublists, mid, sublists.len() - mid);
}

/// Length and validity of a sublist within [`ListSlice::items`]
pub trait SublistLenValidity: Value {
    /// Length of the sublist in items
    spec fn sublist_len(&self) -> nat;

    /// Truth that the sublist is valid, as opposed to null
    spec fn sublist_is_valid(&self) -> bool;

    /// Length of the sublist in items
    fn len(&self) -> (n: usize)
        ensures
            n == self.sublist_len(),
    ;

    /// Truth that this sublist is empty
    #[inline]
    fn is_empty(&self) -> (empty: bool)
        ensures
            empty == (self.sublist_len() == 0),
    {
        self.len() == 0
    }
}

/// Wrapping the items of a sublist in the optionality of its descriptor
///
/// A descriptor of sublists that are always valid hands the items back as
/// they are. A descriptor of sublists that may be null hands back `Some`
/// items for a valid sublist, and `None` for a null one.
pub trait ApplyValidity<T: Value>: SublistLenValidity {
    /// What the items of a sublist get wrapped into
    type Applied: Value;

    /// The value inside `applied`, if there is one
    spec fn carried(applied: Self::Applied) -> Option<T>;

    /// Model of what a value of model `model` gets wrapped into, for a
    /// sublist of validity `is_valid`
    spec fn applied_model(is_valid: bool, model: T::Model) -> <Self::Applied as Value>::Model;

    /// Wrap `value` in the same layers of optionality as `self`
    ///
    /// - If the `Self` type is always valid, returns `value` as-is
    /// - If the `Self` type is optionally valid and this particular `self`
    ///   instance is valid, returns `Some(value)`
    /// - If the `Self` type is optionally valid and this particular `self`
    ///   instance is invalid, returns `None`
    fn apply_validity(&self, value: T) -> (applied: Self::Applied)
        ensures
            Self::carried(applied) == (if self.sublist_is_valid() {
                Some(value)
            } else {
                None
            }),
            applied.model() == Self::applied_model(self.sublist_is_valid(), value.model()),
    ;
}

// usize is used as a LenValidity for sublists which are always valid
impl SublistLenValidity for usize {
    open spec fn sublist_len(&self) -> nat {
        *self as nat
    }

    open spec fn sublist_is_valid(&self) -> bool {
        true
    }

    #[inline]
    fn len(&self) -> (n: usize) {
        *self
    }
}

impl<T: Value> ApplyValidity<T> for usize {
    type Applied = T;

    open spec fn carried(applied: T) -> Option<T> {
        Some(applied)
    }

    open spec fn applied_model(is_valid: bool, model: T::Model) -> T::Model {
        model
    }

    #[inline]
    fn apply_validity(&self, value: T) -> (applied: T) {
        value
    }
}

/// Length and validity of a sublist which may be invalid
#[derive(Clone, Copy, Debug, Default, Eq, Hash, Ord, PartialEq, PartialOrd)]
pub struct LenValidity {
    len: usize,
    is_valid: bool,
}

impl LenValidity {
    /// Describe a sublist of `len` items which is null unless `is_valid`
    pub fn new(len: usize, is_valid: bool) -> (sublist: Self)
        ensures
            sublist.sublist_len() == len,
            sublist.sublist_is_valid() == is_valid,
    {
        Self { len, is_valid }
    }

    /// Construct from an an optional length, assuming invalid lists are empty
    pub fn from_option_len(len: Option<usize>) -> (sublist: Self)
        ensures
            sublist.sublist_len() == match len {
                Some(len) => len,
                None => 0,
            },
            sublist.sublist_is_valid() == len is Some,
    {
        match len {
            Some(len) => Self { len, is_valid: true },
            None => Self { len: 0, is_valid: false },
        }
    }

    /// Truth that the sublist is valid, as opposed to null
    pub fn is_valid(&self) -> (is_valid: bool)
        ensures
            is_valid == self.sublist_is_valid(),
    {
        self.is_valid
    }
}

impl Value for LenValidity {
    type Model = (nat, bool);

    /// Length and validity of the sublist
    closed spec fn model(&self) -> (nat, bool) {
        (self.len as nat, self.is_valid)
    }
}

impl SublistLenValidity for LenValidity {
    open spec fn sublist_len(&self) -> nat {
        self.model().0
    }

    open spec fn sublist_is_valid(&self) -> bool {
        self.model().1
    }

    #[inline]
    fn len(&self) -> (n: usize) {
        self.len
    }
}

impl<T: Value> ApplyValidity<T> for LenValidity {
    type Applied = Option<T>;

    open spec fn carried(applied: Option<T>) -> Option<T> {
        applied
    }

    open spec fn applied_model(is_valid: bool, model: T::Model) -> Option<T::Model> {
        if is_valid {
            Some(model)
        } else {
            None
        }
    }

    #[inline]
    fn apply_validity(&self, value: T) -> (applied: Option<T>) {
        if self.is_valid {
            Some(value)
        } else {
            None
        }
    }
}

/// Slice type that can describe the layout of sub-lists within a [`ListSlice`]
pub trait SublistSlice: Slice {
    /// Type of sublist
    ///
    /// This will be `usize` for slices of lists that are always valid and
    /// [`LenValidity`] for slices of lists that may be null.
    type LenValidity: SublistLenValidity;

    /// Length and validity of each sublist, in order
    ///
    /// Only meaningful for a consistent slice.
    spec fn sublists(&self) -> Seq<(nat, bool)>;

    /// A consistent slice describes one sublist per element
    proof fn lemma_sublists_len(&self)
        requires
            self.consistent(),
        ensures
            self.sublists().len() == self.model().len(),
    ;

    /// A null sublist holds no items
    proof fn lemma_null_sublists_empty(&self)
        requires
            self.consistent(),
        ensures
            forall|index: int|
                0 <= index < self.sublists().len() && !(#[trigger] self.sublists()[index]).1
                    ==> self.sublists()[index].0 == 0,
    ;

    /// Truth that each sublist starts where the sublists before it end
    ///
    /// This only fails where the slice stores the start of each sublist and
    /// a null sublist spans items: a null sublist holds none of them, so the
    /// sublists after it start further on than their lengths add up to.
    spec fn contiguous(&self) -> bool;

    /// Truth that each sublist starts where the sublists before it end
    fn is_contiguous(&self) -> (ok: bool)
        requires
            self.consistent(),
        ensures
            ok == self.contiguous(),
    ;

    /// Get the total number of items across all inner sublists, unless it is
    /// too large for an `usize`
    fn checked_total_items(&self) -> (total: Option<usize>)
        requires
            self.consistent(),
        ensures
            total is Some <==> total_items(self.sublists()) <= usize::MAX,
            total is Some ==> total.unwrap() == total_items(self.sublists()),
    ;

    /// Get the total number of items across all inner sublists
    fn total_items(&self) -> (total: usize)
        requires
            self.consistent(),
            total_items(self.sublists()) <= usize::MAX,
        ensures
            total == total_items(self.sublists()),
    {
        self.checked_total_items().unwrap()
    }

    /// Get the offset, length and validity of the N-th sublist, without bounds
    /// checking
    fn get_sublist_unchecked(&self, index: usize) -> (sublist: (usize, Self::LenValidity))
        requires
            self.consistent(),
            self.contiguous(),
            index < self.sublists().len(),
            total_items(self.sublists()) <= usize::MAX,
        ensures
            sublist.0 == items_before(self.sublists(), index as int),
            sublist.1.sublist_len() == self.sublists()[index as int].0,
            sublist.1.sublist_is_valid() == self.sublists()[index as int].1,
    ;

    /// Get the offset, length and validity of the N-th sublist, for an index
    /// known to be in bounds
    #[inline]
    fn sublist_at(&self, index: usize) -> (sublist: (usize, Self::LenValidity))
        requires
            self.consistent(),
            self.contiguous(),
            index < self.sublists().len(),
            total_items(self.sublists()) <= usize::MAX,
        ensures
            sublist.0 == items_before(self.sublists(), index as int),
            sublist.1.sublist_len() == self.sublists()[index as int].0,
            sublist.1.sublist_is_valid() == self.sublists()[index as int].1,
    {
        self.get_sublist_unchecked(index)
    }

    /// Length and validity of every sublist, first to last
    fn iter_sublists_len_validity(&self) -> (sublists: Vec<Self::LenValidity>)
        requires
            self.consistent(),
        ensures
            sublists@.len() == self.sublists().len(),
            forall|index: int|
                0 <= index < sublists@.len() ==> {
                    &&& (#[trigger] sublists@[index]).sublist_len() == self.sublists()[index].0
                    &&& sublists@[index].sublist_is_valid() == self.sublists()[index].1
                },
    ;

    /// Split the slice at sublist `mid`, as `split_at()` does
    ///
    /// Each half describes the sublists that it got as `self` describes them.
    fn split_sublists_at(&self, mid: usize) -> (parts: (Self, Self))
        requires
            self.consistent(),
            mid <= self.sublists().len(),
        ensures
            parts.0.consistent(),
            parts.1.consistent(),
            parts.0.model() == self.model().take(mid as int),
            parts.1.model() == self.model().skip(mid as int),
            parts.0.sublists() == self.sublists().take(mid as int),
            parts.1.sublists() == self.sublists().skip(mid as int),
            self.contiguous() ==> parts.0.contiguous() && parts.1.contiguous(),
    ;
}

/// Items of sublist `index`, in a column of `items` that is laid out in
/// `sublists`
pub open spec fn sublist_items<M>(items: Seq<M>, sublists: Seq<(nat, bool)>, index: int) -> Seq<M> {
    items.subrange(
        items_before(sublists, index) as int,
        (items_before(sublists, index) + sublists[index].0) as int,
    )
}

/// A columnar slice of lists
///
/// `items` is the concatenation of all inner lists, and `lists` specifies how
/// `items` is split into sublists. As a compromise between ergonomics and
/// efficiency, several types of `Lists` are supported.
///
/// - If `Lists` is `&[usize]`, each entry represents the length of a sublist
///   within `items`, and sublists cannot be null. This format is used when
///   bulk-writing lists.
/// - With `&[Option<usize>]`, each entry represents either the length of a
///   valid sublist, or `None` to denote a null sublist. This format is used
///   when bulk-writing optional lists.
/// - [`OffsetSublists`] behaves like `&[usize]`, but uses a storage layout
///   that is suitable for in-place readout from Arrow arrays.
/// - [`OptionOffsetSublists`] behaves like `&[Option<usize>]`, but uses a
///   storage layout that is suitable for in-place readout from Arrow arrays.
#[derive(Clone, Copy, Debug)]
pub struct ListSlice<Items: Slice, Lists: SublistSlice> {
    /// Concatenated items from all inner lists
    pub items: Items,
    /// Layout of sub-lists within `items`
    pub lists: Lists,
}

impl<Items: Slice, Lists: SublistSlice> ListSlice<Items, Lists> {
    /// Items of each sublist that is valid, and no items for each null
    /// sublist, in order
    pub open spec fn materialized(&self) -> Seq<Seq<<Items::Element as Value>::Model>> {
        Seq::new(
            self.lists.sublists().len(),
            |index: int|
                if self.lists.sublists()[index].1 {
                    sublist_items(self.items.model(), self.lists.sublists(), index)
                } else {
                    Seq::empty()
                },
        )
    }
}

impl<Items, Lists> Value for ListSlice<Items, Lists> where
    Items: Slice,
    Lists: SublistSlice,
    Lists::LenValidity: ApplyValidity<Items>,
 {
    type Model = Seq<<<Lists::LenValidity as ApplyValidity<Items>>::Applied as Value>::Model>;

    /// One entry per sublist: the items of that sublist, wrapped in the
    /// optionality of the sublist
    open spec fn model(&self) -> Self::Model {
        Seq::new(
            self.lists.sublists().len(),
            |index: int|
                <Lists::LenValidity as ApplyValidity<Items>>::applied_model(
                    self.lists.sublists()[index].1,
                    sublist_items(self.items.model(), self.lists.sublists(), index),
                ),
        )
    }
}

impl<Items, Lists> Slice for ListSlice<Items, Lists> where
    Items: Slice,
    Lists: SublistSlice,
    Lists::LenValidity: ApplyValidity<Items>,
 {
    type Element = <Lists::LenValidity as ApplyValidity<Items>>::Applied;

    /// Items and sublists are each consistent, each sublist starts where the
    /// sublists before it end, and there are as many items as the sublists
    /// hold together, null sublists holding none
    open spec fn consistent(&self) -> bool {
        &&& self.items.consistent()
        &&& self.lists.consistent()
        &&& self.lists.contiguous()
        &&& self.items.model().len() == total_items(self.lists.sublists())
    }

    proof fn lemma_len_bounded(&self) {
        self.lists.lemma_len_bounded();
        self.lists.lemma_sublists_len();
    }

    #[inline]
    fn is_consistent(&self) -> (ok: bool) {
        self.items.is_consistent() && self.lists.is_consistent() && self.lists.is_contiguous()
            && Some(self.items.len()) == self.lists.checked_total_items()
    }

    #[inline]
    fn len(&self) -> (n: usize) {
        proof {
            self.lists.lemma_sublists_len();
        }
        self.lists.len()
    }

    /// Sublist `index`: the items of that sublist, as a subslice of `items`,
    /// wrapped in the optionality of the sublist
    #[inline]
    fn get_cloned_unchecked(&self, index: usize) -> (element: Self::Element)
        ensures
            <Lists::LenValidity as ApplyValidity<Items>>::carried(element) is Some
                <==> self.lists.sublists()[index as int].1,
            <Lists::LenValidity as ApplyValidity<Items>>::carried(element) matches Some(sublist)
                ==> sublist.consistent() && sublist.model() == sublist_items(
                self.items.model(),
                self.lists.sublists(),
                index as int,
            ),
    {
        let ghost sublists = self.lists.sublists();
        proof {
            self.items.lemma_len_bounded();
            self.lists.lemma_sublists_len();
            lemma_items_before_increases(sublists, index + 1, sublists.len() as int);
        }
        let (offset, len_validity) = self.lists.get_sublist_unchecked(index);
        let (_before, start) = self.items.split_at(offset);
        let (list, _after) = start.split_at(len_validity.len());
        assert(list.model() == sublist_items(self.items.model(), sublists, index as int));
        len_validity.apply_validity(list)
    }

    /// Every sublist in order, cut off a single running cursor into `items`
    fn iter_cloned(&self) -> (elements: Vec<Self::Element>) {
        let ghost sublists = self.lists.sublists();
        let ghost items = self.items.model();
        proof {
            self.lists.lemma_sublists_len();
        }
        let len_validities = self.lists.iter_sublists_len_validity();
        let mut remaining = self.items;
        let mut elements: Vec<Self::Element> = Vec::new();
        let mut index: usize = 0;
        assert(remaining.model() == items.skip(0));
        while index < len_validities.len()
            invariant
                index <= len_validities@.len(),
                len_validities@.len() == sublists.len(),
                sublists == self.lists.sublists(),
                items == self.items.model(),
                items.len() == total_items(sublists),
                forall|i: int|
                    0 <= i < len_validities@.len() ==> {
                        &&& (#[trigger] len_validities@[i]).sublist_len() == sublists[i].0
                        &&& len_validities@[i].sublist_is_valid() == sublists[i].1
                    },
                remaining.consistent(),
                remaining.model() == items.skip(items_before(sublists, index as int) as int),
                elements@.len() == index,
                forall|i: int|
                    0 <= i < index ==> (#[trigger] elements@[i]).model() == self.model()[i],
            decreases len_validities@.len() - index,
        {
            proof {
                lemma_items_before_increases(sublists, index + 1, sublists.len() as int);
            }
            let sublist = len_validities[index];
            let (current, next) = remaining.split_at(sublist.len());
            remaining = next;
            assert(current.model() == sublist_items(items, sublists, index as int));
            elements.push(sublist.apply_validity(current));
            index += 1;
        }
        assert(element_models(elements@) == self.model());
        elements
    }

    /// Split the slice into two subslices at `mid`
    ///
    /// The sublists are split at index `mid`, and the items where sublist
    /// `mid` starts.
    fn split_at(&self, mid: usize) -> (parts: (Self, Self))
        ensures
            parts.0.lists.sublists() == self.lists.sublists().take(mid as int),
            parts.1.lists.sublists() == self.lists.sublists().skip(mid as int),
            parts.0.items.model() == self.items.model().take(
                items_before(self.lists.sublists(), mid as int) as int,
            ),
            parts.1.items.model() == self.items.model().skip(
                items_before(self.lists.sublists(), mid as int) as int,
            ),
    {
        let ghost sublists = self.lists.sublists();
        let ghost items = self.items.model();
        proof {
            self.items.lemma_len_bounded();
            self.lists.lemma_sublists_len();
            lemma_total_items_split(sublists, mid as int);
            lemma_items_before_increases(sublists, mid as int, sublists.len() as int);
        }
        let mid_offset = if mid < self.lists.len() {
            self.lists.sublist_at(mid).0
        } else {
            self.items.len()
        };
        let (left_lists, right_lists) = self.lists.split_sublists_at(mid);
        let (left_items, right_items) = self.items.split_at(mid_offset);
        let left = Self { items: left_items, lists: left_lists };
        let right = Self { items: right_items, lists: right_lists };
        assert(left.model() == self.model().take(mid as int)) by {
            assert forall|index: int| 0 <= index < mid implies sublist_items(
                left.items.model(),
                left.lists.sublists(),
                index,
            ) == sublist_items(items, sublists, index) by {
                lemma_items_before_take(sublists, mid as int, index);
                lemma_items_before_increases(sublists, index + 1, mid as int);
            }
        }
        assert(right.model() == self.model().skip(mid as int)) by {
            assert forall|index: int| 0 <= index < sublists.len() - mid implies sublist_items(
                right.items.model(),
                right.lists.sublists(),
                index,
            ) == sublist_items(items, sublists, mid + index) by {
                lemma_items_before_skip(sublists, mid as int, index);
                lemma_items_before_increases(sublists, mid as int, mid + index);
                lemma_items_before_increases(sublists, mid + index + 1, sublists.len() as int);
            }
        }
        assert(left.model() + right.model() == self.model());
        (left, right)
    }
}

/// Length and validity of each sublist of a column of always valid sublists
/// of lengths `lens`
pub open spec fn valid_sublists(lens: Seq<usize>) -> Seq<(nat, bool)> {
    Seq::new(lens.len(), |index: int| (lens[index] as nat, true))
}

/// Type which can be used as a list length
///
/// Bulk insertion takes the length of each list as an `usize`, and the
/// length of each list which may be null as an `Option<usize>`.
pub trait ListLength: Value {
    /// Length and validity of a sublist that has such a length
    type LenValidity: SublistLenValidity;

    /// Length and validity of the sublist
    spec fn sublist(&self) -> (nat, bool);

    /// A null sublist holds no items
    proof fn lemma_null_is_empty(&self)
        ensures
            !self.sublist().1 ==> self.sublist().0 == 0,
    ;

    /// Interpret `self` as a sublist length, treating null sublists (sublists
    /// of optional length `None`) as sublists of length 0.
    fn as_len(&self) -> (len: usize)
        ensures
            len == self.sublist().0,
    ;

    /// Length and validity of the sublist
    fn len_validity(&self) -> (sublist: Self::LenValidity)
        ensures
            sublist.sublist_len() == self.sublist().0,
            sublist.sublist_is_valid() == self.sublist().1,
    ;
}

impl ListLength for usize {
    type LenValidity = usize;

    open spec fn sublist(&self) -> (nat, bool) {
        (*self as nat, true)
    }

    proof fn lemma_null_is_empty(&self) {
    }

    #[inline]
    fn as_len(&self) -> (len: usize) {
        *self
    }

    #[inline]
    fn len_validity(&self) -> (sublist: usize) {
        let sublist = *self;
        assert(sublist.sublist_is_valid() && sublist.sublist_len() == sublist);
        sublist
    }
}

impl ListLength for Option<usize> {
    type LenValidity = LenValidity;

    /// A null sublist has no items
    open spec fn sublist(&self) -> (nat, bool) {
        match *self {
            Some(len) => (len as nat, true),
            None => (0nat, false),
        }
    }

    proof fn lemma_null_is_empty(&self) {
    }

    #[inline]
    fn as_len(&self) -> (len: usize) {
        match *self {
            Some(len) => len,
            None => 0,
        }
    }

    #[inline]
    fn len_validity(&self) -> (sublist: LenValidity) {
        LenValidity::from_option_len(*self)
    }
}

/// Length and validity of each sublist of a column of sublists of lengths
/// `lens`
pub open spec fn length_sublists<Length: ListLength>(lens: Seq<Length>) -> Seq<(nat, bool)> {
    Seq::new(lens.len(), |index: int| lens[index].sublist())
}

impl<'a, Length: ListLength> SublistSlice for &'a [Length] {
    type LenValidity = Length::LenValidity;

    open spec fn sublists(&self) -> Seq<(nat, bool)> {
        length_sublists(self@)
    }

    proof fn lemma_sublists_len(&self) {
    }

    proof fn lemma_null_sublists_empty(&self) {
        assert forall|index: int|
            0 <= index < self.sublists().len() && !(#[trigger] self.sublists()[index]).1
                implies self.sublists()[index].0 == 0 by {
            self@[index].lemma_null_is_empty();
        }
    }

    /// Lengths are stored, so that each sublist starts where the sublists
    /// before it end
    open spec fn contiguous(&self) -> bool {
        true
    }

    #[inline]
    fn is_contiguous(&self) -> (ok: bool) {
        true
    }

    fn checked_total_items(&self) -> (total: Option<usize>) {
        let ghost sublists = self.sublists();
        let mut total: usize = 0;
        let mut index: usize = 0;
        while index < <[Length]>::len(self)
            invariant
                index <= self@.len(),
                sublists == length_sublists(self@),
                total == items_before(sublists, index as int),
            decreases self@.len() - index,
        {
            match total.checked_add(self[index].as_len()) {
                Some(sum) => {
                    total = sum;
                },
                None => {
                    proof {
                        lemma_items_before_increases(sublists, index + 1, sublists.len() as int);
                    }
                    return None;
                },
            }
            index += 1;
        }
        Some(total)
    }

    fn get_sublist_unchecked(&self, index: usize) -> (sublist: (usize, Length::LenValidity)) {
        let ghost sublists = self.sublists();
        let mut offset: usize = 0;
        let mut previous: usize = 0;
        while previous < index
            invariant
                previous <= index < self@.len(),
                sublists == length_sublists(self@),
                total_items(sublists) <= usize::MAX,
                offset == items_before(sublists, previous as int),
            decreases index - previous,
        {
            proof {
                lemma_items_before_increases(sublists, previous + 1, sublists.len() as int);
            }
            offset = offset + self[previous].as_len();
            previous += 1;
        }
        (offset, self[index].len_validity())
    }

    fn iter_sublists_len_validity(&self) -> (sublists: Vec<Length::LenValidity>) {
        let mut sublists: Vec<Length::LenValidity> = Vec::new();
        let mut index: usize = 0;
        while index < <[Length]>::len(self)
            invariant
                index <= self@.len(),
                sublists@.len() == index,
                forall|i: int|
                    0 <= i < index ==> {
                        &&& (#[trigger] sublists@[i]).sublist_len() == length_sublists(self@)[i].0
                        &&& sublists@[i].sublist_is_valid() == length_sublists(self@)[i].1
                    },
            decreases self@.len() - index,
        {
            sublists.push(self[index].len_validity());
            index += 1;
        }
        sublists
    }

    fn split_sublists_at(&self, mid: usize) -> (parts: (Self, Self)) {
        let parts = <[Length]>::split_at(self, mid);
        assert(parts.0.model() == self.model().take(mid as int));
        assert(parts.1.model() == self.model().skip(mid as int));
        assert(parts.0.sublists() == self.sublists().take(mid as int));
        assert(parts.1.sublists() == self.sublists().skip(mid as int));
        parts
    }
}

/// The items of a list slice are its sublists laid end to end, as far as the
/// first `count` sublists go, provided that null sublists hold no items
proof fn lemma_materialized_prefix<Items: Slice, Lists: SublistSlice>(
    slice: ListSlice<Items, Lists>,
    count: int,
)
    requires
        slice.items.model().len() == total_items(slice.lists.sublists()),
        forall|index: int|
            0 <= index < slice.lists.sublists().len() && !(#[trigger] slice.lists.sublists()[index]).1
                ==> slice.lists.sublists()[index].0 == 0,
        0 <= count <= slice.lists.sublists().len(),
    ensures
        slice.materialized().take(count).flatten() == slice.items.model().take(
            items_before(slice.lists.sublists(), count) as int,
        ),
    decreases count,
{
    let sublists = slice.lists.sublists();
    let materialized = slice.materialized();
    if count == 0 {
        assert(materialized.take(0) == Seq::<Seq<<Items::Element as Value>::Model>>::empty());
    } else {
        lemma_materialized_prefix(slice, count - 1);
        lemma_items_before_increases(sublists, count, sublists.len() as int);
        assert(materialized.take(count) == materialized.take(count - 1).push(
            materialized[count - 1],
        ));
        materialized.take(count - 1).lemma_flatten_push(materialized[count - 1]);
    }
}

/// A list slice whose items and sublists are each consistent is consistent
/// exactly when each sublist starts where the sublists before it end and it
/// has as many items as its valid sublists hold together
pub proof fn lemma_list_slice_consistent<Items, Lists>(slice: ListSlice<Items, Lists>) where
    Items: Slice,
    Lists: SublistSlice,
    Lists::LenValidity: ApplyValidity<Items>,

    requires
        slice.items.consistent(),
        slice.lists.consistent(),
    ensures
        slice.consistent() <==> slice.lists.contiguous() && slice.items.model().len()
            == total_items(slice.lists.sublists()),
        forall|index: int|
            0 <= index < slice.lists.sublists().len() && !(#[trigger] slice.lists.sublists()[index]).1
                ==> slice.lists.sublists()[index].0 == 0,
        slice.consistent() ==> slice.model().len() == slice.lists.model().len(),
{
    slice.lists.lemma_null_sublists_empty();
    if slice.consistent() {
        slice.lists.lemma_sublists_len();
    }
}

/// The items of a consistent list slice are exactly its sublists laid end to
/// end, a null sublist holding no items
///
/// Each element of the list slice is then the matching sublist, wrapped in
/// the optionality of the sublist.
pub proof fn lemma_sublists_concat<Items, Lists>(slice: ListSlice<Items, Lists>) where
    Items: Slice,
    Lists: SublistSlice,
    Lists::LenValidity: ApplyValidity<Items>,

    requires
        slice.consistent(),
    ensures
        slice.materialized().flatten() == slice.items.model(),
        slice.materialized().len() == slice.model().len(),
        forall|index: int|
            0 <= index < slice.model().len() ==> #[trigger] slice.model()[index]
                == <Lists::LenValidity as ApplyValidity<Items>>::applied_model(
                slice.lists.sublists()[index].1,
                slice.materialized()[index],
            ),
{
    slice.lists.lemma_null_sublists_empty();
    let sublists = slice.lists.sublists();
    let materialized = slice.materialized();
    lemma_materialized_prefix(slice, sublists.len() as int);
    assert(materialized.take(sublists.len() as int) == materialized);
    assert forall|index: int| 0 <= index < slice.model().len() implies #[trigger] slice.model()[index]
        == <Lists::LenValidity as ApplyValidity<Items>>::applied_model(
        sublists[index].1,
        materialized[index],
    ) by {
        if !sublists[index].1 {
            lemma_items_before_increases(sublists, index, sublists.len() as int);
            assert(sublist_items(slice.items.model(), sublists, index) == materialized[index]);
        }
    }
}

/// Integer type that the offsets of a list array are stored in
pub trait OffsetSize: Copy + 'static {
    /// The offset, as a mathematical integer
    spec fn as_int(&self) -> int;

    /// Truth that `self` is no greater than `other`
    fn is_at_most(&self, other: &Self) -> (ordered: bool)
        ensures
            ordered == (self.as_int() <= other.as_int()),
    ;

    /// Number of items from offset `start` to offset `self`, if `self` is
    /// not below `start` and an `usize` can hold that number
    fn items_since(&self, start: &Self) -> (count: Option<usize>)
        ensures
            count is Some <==> 0 <= self.as_int() - start.as_int() <= usize::MAX,
            count is Some ==> count.unwrap() == self.as_int() - start.as_int(),
    ;
}

impl OffsetSize for i32 {
    open spec fn as_int(&self) -> int {
        *self as int
    }

    #[inline]
    fn is_at_most(&self, other: &Self) -> (ordered: bool) {
        *self <= *other
    }

    #[inline]
    fn items_since(&self, start: &Self) -> (count: Option<usize>) {
        let distance: i64 = *self as i64 - *start as i64;
        if distance < 0 || distance as u64 > usize::MAX as u64 {
            None
        } else {
            Some(distance as usize)
        }
    }
}

impl OffsetSize for i64 {
    open spec fn as_int(&self) -> int {
        *self as int
    }

    #[inline]
    fn is_at_most(&self, other: &Self) -> (ordered: bool) {
        *self <= *other
    }

    #[inline]
    fn items_since(&self, start: &Self) -> (count: Option<usize>) {
        let distance: i128 = *self as i128 - *start as i128;
        if distance < 0 || distance > usize::MAX as i128 {
            None
        } else {
            Some(distance as usize)
        }
    }
}

/// Offsets of `offsets`, as mathematical integers
pub open spec fn offset_ints<OffsetSize: self::OffsetSize>(offsets: Seq<OffsetSize>) -> Seq<int> {
    Seq::new(offsets.len(), |index: int| offsets[index].as_int())
}

/// Truth that `offsets` and `total_items` describe the sublists of a column
/// of `total_items` items
///
/// Without sublists there are no items. Else the offsets never decrease, and
/// the sublists before the last one take no more than `total_items` items.
pub open spec fn offsets_consistent(offsets: Seq<int>, total_items: nat) -> bool {
    if offsets.len() == 0 {
        total_items == 0
    } else {
        &&& forall|first: int, second: int|
            0 <= first <= second < offsets.len() ==> offsets[first] <= offsets[second]
        &&& offsets.last() - offsets.first() <= total_items
    }
}

/// Length of sublist `index` of a column of `total_items` items whose
/// sublists start at `offsets`
///
/// A sublist ends where the next one starts, and the last one ends with the
/// items. Offsets count from wherever the first sublist starts.
pub open spec fn offset_sublist_len(offsets: Seq<int>, total_items: nat, index: int) -> int {
    if index + 1 < offsets.len() {
        offsets[index + 1] - offsets[index]
    } else {
        total_items - (offsets[index] - offsets.first())
    }
}

/// Length of every sublist of a column of `total_items` items whose sublists
/// start at `offsets`
pub open spec fn offset_sublist_lens(offsets: Seq<int>, total_items: nat) -> Seq<usize> {
    Seq::new(offsets.len(), |index: int| offset_sublist_len(offsets, total_items, index) as usize)
}

/// In a consistent offset-based layout, each sublist starts as many items
/// into the column as its offset lies above the first offset, and the
/// sublists hold all the items together
pub proof fn lemma_offset_sublists(offsets: Seq<int>, total_items: nat, index: int)
    requires
        offsets_consistent(offsets, total_items),
        total_items <= usize::MAX,
        0 <= index <= offsets.len(),
    ensures
        index < offsets.len() ==> items_before(
            valid_sublists(offset_sublist_lens(offsets, total_items)),
            index,
        ) == offsets[index] - offsets.first(),
        index == offsets.len() ==> items_before(
            valid_sublists(offset_sublist_lens(offsets, total_items)),
            index,
        ) == total_items,
    decreases index,
{
    if index > 0 {
        lemma_offset_sublists(offsets, total_items, index - 1);
        let len = offset_sublist_len(offsets, total_items, index - 1);
        assert(0 <= len <= total_items) by {
            assert(offsets.first() <= offsets[index - 1] <= offsets.last());
        }
    }
}

/// Offset and length of a list within `ListSlice::items`
///
/// As an array element, such a descriptor stands for the length of its
/// sublist: where the sublist starts follows from the lengths before it.
#[derive(Clone, Copy, Debug, Default, Eq, Hash, Ord, PartialEq, PartialOrd)]
pub struct OffsetLen {
    /// Index of the first item of the list within `ListSlice::items`
    pub offset: usize,
    /// Number of items within the list
    pub len: usize,
}

impl Value for OffsetLen {
    type Model = usize;

    open spec fn model(&self) -> usize {
        self.len
    }
}

/// Slice of non-optional sublists in the native offset-based Arrow format
///
/// Behaves like a `&[usize]` of sublist lengths, but stores where each
/// sublist starts instead, along with the total number of items.
#[derive(Clone, Copy, Debug)]
pub struct OffsetSublists<'a, OffsetSize: self::OffsetSize> {
    /// Start of each sublist within the **original** [`ListSlice`], before any
    /// splitting occurred
    ///
    /// Arrow's offset-based sublist representation has the major benefit of
    /// enabling O(1) random access to any given sublist, but this comes at the
    /// cost of making slice splitting less intuitive.
    ///
    /// More specifically, the i-th offset within the current
    /// [`ListSlice::items`] slice is `original_offsets[i] -
    /// original_offsets[0]`, and not `original_offsets[i]` as you might expect.
    original_offsets: &'a [OffsetSize],
    /// Total number of items
    total_items: usize,
}

impl<'a, OffsetSize: self::OffsetSize> OffsetSublists<'a, OffsetSize> {
    /// Start of each sublist, counted from an origin that splitting leaves
    /// where it was
    pub closed spec fn offsets(&self) -> Seq<int> {
        offset_ints(self.original_offsets@)
    }

    /// Total number of items
    pub closed spec fn total(&self) -> nat {
        self.total_items as nat
    }

    /// The total number of items is a number that an `usize` can hold
    pub proof fn lemma_total_bounded(&self)
        ensures
            self.total() <= usize::MAX,
    {
    }

    /// The sublists of a consistent slice hold as many items together as the
    /// slice says in total, and each of them holds a number of items that an
    /// `usize` can hold
    pub proof fn lemma_total_items(&self)
        requires
            self.consistent(),
        ensures
            total_items(self.sublists()) == self.total() <= usize::MAX,
            forall|index: int|
                0 <= index < self.offsets().len() ==> 0 <= (#[trigger] self.sublist(index)).0
                    <= self.total() && 0 <= self.sublist(index).1 <= self.total()
                    - self.sublist(index).0 && self.model()[index] == self.sublist(index).1,
    {
        lemma_offset_sublists(self.offsets(), self.total(), self.offsets().len() as int);
        assert forall|index: int| 0 <= index < self.offsets().len() implies 0 <= (
        #[trigger] self.sublist(index)).0 <= self.total() && 0 <= self.sublist(index).1
            <= self.total() - self.sublist(index).0 && self.model()[index] == self.sublist(
            index,
        ).1 by {
            assert(self.offsets().first() <= self.offsets()[index] <= self.offsets().last());
            if index + 1 < self.offsets().len() {
                assert(self.offsets()[index] <= self.offsets()[index + 1]
                    <= self.offsets().last());
            }
        }
    }

    /// Offset, from the first item of the first sublist, and length of
    /// sublist `index`
    pub open spec fn sublist(&self, index: int) -> (int, int) {
        (
            self.offsets()[index] - self.offsets().first(),
            offset_sublist_len(self.offsets(), self.total(), index),
        )
    }

    /// Truth that `element` is the offset and length of sublist `index`
    pub open spec fn describes(&self, element: OffsetLen, index: int) -> bool {
        self.sublist(index) == (element.offset as int, element.len as int)
    }

    /// Build from an arrow offset slice and a total number of items
    pub fn new(offsets: &'a [OffsetSize], total_items: usize) -> (sublists: Self)
        ensures
            sublists.offsets() == offset_ints(offsets@),
            sublists.total() == total_items,
    {
        Self { original_offsets: offsets, total_items }
    }

    /// Build from the offsets that Arrow keeps for an array of lists: where
    /// each sublist starts, and then where the last sublist ends
    ///
    /// There must be such an end, which must not come before the start of
    /// the first sublist, nor so far after it that the items in between
    /// cannot be counted.
    pub fn from_arrow_offsets(offsets: &'a [OffsetSize]) -> (result: Option<Self>)
        ensures
            result is Some <==> offsets@.len() > 0 && 0 <= offset_ints(offsets@).last()
                - offset_ints(offsets@).first() <= usize::MAX,
            result matches Some(sublists) ==> {
                &&& sublists.offsets() == offset_ints(offsets@).drop_last()
                &&& sublists.total() == offset_ints(offsets@).last() - offset_ints(
                    offsets@,
                ).first()
            },
    {
        let len = offsets.len();
        if len == 0 {
            return None;
        }
        match offsets[len - 1].items_since(&offsets[0]) {
            Some(total_items) => {
                let starts = vstd::slice::slice_subrange(offsets, 0, len - 1);
                let sublists = Self { original_offsets: starts, total_items };
                assert(sublists.offsets() == offset_ints(offsets@).drop_last());
                Some(sublists)
            },
            None => None,
        }
    }

    /// Corrective factor to be applied to each offset in original_offset
    #[inline]
    fn first_offset(&self) -> (first: OffsetSize)
        requires
            self.offsets().len() > 0,
        ensures
            first.as_int() == self.offsets().first(),
    {
        self.original_offsets[0]
    }
}

impl<'a, OffsetSize: self::OffsetSize> Value for OffsetSublists<'a, OffsetSize> {
    type Model = Seq<usize>;

    /// The length of each sublist
    open spec fn model(&self) -> Seq<usize> {
        offset_sublist_lens(self.offsets(), self.total())
    }
}

impl<'a, OffsetSize: self::OffsetSize> Slice for OffsetSublists<'a, OffsetSize> {
    type Element = OffsetLen;

    open spec fn consistent(&self) -> bool {
        offsets_consistent(self.offsets(), self.total())
    }

    proof fn lemma_len_bounded(&self) {
        assert(vstd::slice::spec_slice_len(self.original_offsets) == self.original_offsets@.len());
    }

    fn is_consistent(&self) -> (ok: bool) {
        // If there are no lists, there should be no items.
        let len = self.original_offsets.len();
        if len == 0 {
            return self.total_items == 0;
        }
        // Offsets should be sorted in increasing order

        let mut index: usize = 1;
        while index < len
            invariant
                1 <= index <= len,
                len == self.offsets().len(),
                self.offsets() == offset_ints(self.original_offsets@),
                forall|first: int, second: int|
                    0 <= first <= second < index ==> self.offsets()[first] <= self.offsets()[second],
            decreases len - index,
        {
            if !self.original_offsets[index - 1].is_at_most(&self.original_offsets[index]) {
                assert(self.offsets()[index - 1] > self.offsets()[index as int]);
                return false;
            }
            assert forall|first: int, second: int| 0 <= first <= second < index + 1 implies self.offsets()[first]
                <= self.offsets()[second] by {
                if second == index && first < index {
                    assert(self.offsets()[first] <= self.offsets()[index - 1]);
                }
            }
            index += 1;
        }

        // Offsets should not overflow the items list
        match self.original_offsets[len - 1].items_since(&self.original_offsets[0]) {
            Some(distance) => distance <= self.total_items,
            None => false,
        }
    }

    #[inline]
    fn len(&self) -> (n: usize) {
        self.original_offsets.len()
    }

    /// Offset and length of sublist `index`
    ///
    /// The offset counts from the first item of the first sublist of this
    /// slice, which is where the matching slice of items starts.
    fn get_cloned_unchecked(&self, index: usize) -> (element: OffsetLen)
        ensures
            self.describes(element, index as int),
    {
        let ghost offsets = self.offsets();
        assert(offsets.first() <= offsets[index as int] <= offsets.last());
        let original_offset = self.original_offsets[index];
        let relative_offset = original_offset.items_since(&self.first_offset()).unwrap();
        let len = if index + 1 < self.original_offsets.len() {
            assert(offsets[index as int] <= offsets[index + 1] <= offsets.last());
            self.original_offsets[index + 1].items_since(&original_offset).unwrap()
        } else {
            self.total_items - relative_offset
        };
        let element = OffsetLen { offset: relative_offset, len };
        assert(element.model() == self.model()[index as int]);
        element
    }

    /// Offset and length of sublist `index`, if the slice is consistent and
    /// the index in bounds
    fn get_cloned(&self, index: usize) -> (element: Option<OffsetLen>)
        ensures
            element matches Some(sublist) ==> self.describes(sublist, index as int),
    {
        if self.is_consistent() && index < self.len() {
            Some(self.get_cloned_unchecked(index))
        } else {
            None
        }
    }

    /// Offset and length of sublist `index`, for an index known to be in
    /// bounds
    fn at(&self, index: usize) -> (element: OffsetLen)
        ensures
            self.describes(element, index as int),
    {
        self.get_cloned_unchecked(index)
    }

    /// Offset and length of the first sublist, if there is one
    fn first_cloned(&self) -> (first: Option<OffsetLen>)
        ensures
            first matches Some(sublist) ==> self.describes(sublist, 0),
    {
        self.get_cloned(0)
    }

    /// Offset and length of the last sublist, if there is one
    fn last_cloned(&self) -> (last: Option<OffsetLen>)
        ensures
            last matches Some(sublist) ==> self.describes(sublist, self.offsets().len() - 1),
    {
        let len = self.len();
        if len == 0 {
            None
        } else {
            self.get_cloned(len - 1)
        }
    }

    fn iter_cloned(&self) -> (elements: Vec<OffsetLen>)
        ensures
            elements@.len() == self.model().len(),
            forall|index: int|
                0 <= index < elements@.len() ==> self.describes(#[trigger] elements@[index], index),
    {
        let mut elements: Vec<OffsetLen> = Vec::new();
        let mut index: usize = 0;
        while index < self.original_offsets.len()
            invariant
                self.consistent(),
                index <= self.original_offsets@.len(),
                self.original_offsets@.len() == self.model().len(),
                elements@.len() == index,
                forall|i: int| 0 <= i < index ==> self.describes(#[trigger] elements@[i], i),
                forall|i: int|
                    0 <= i < index ==> (#[trigger] elements@[i]).model() == self.model()[i],
            decreases self.original_offsets@.len() - index,
        {
            elements.push(self.get_cloned_unchecked(index));
            index += 1;
        }
        assert(element_models(elements@) == self.model());
        elements
    }

    /// Split the sublists at index `mid`
    ///
    /// The offsets are split as they are. The first half gets as many items
    /// as come before sublist `mid`, the second half gets the others.
    fn split_at(&self, mid: usize) -> (parts: (Self, Self))
        ensures
            parts.0.offsets() == self.offsets().take(mid as int),
            parts.1.offsets() == self.offsets().skip(mid as int),
            parts.0.total() + parts.1.total() == self.total(),
            mid < self.offsets().len() ==> parts.0.total() == self.offsets()[mid as int]
                - self.offsets().first(),
            mid == self.offsets().len() ==> parts.0.total() == self.total(),
    {
        let ghost offsets = self.offsets();
        let (left_offsets, right_offsets) = self.original_offsets.split_at(mid);
        let (left_len, right_len) = if mid < self.original_offsets.len() {
            assert(offsets.first() <= offsets[mid as int] <= offsets.last());
            let relative_offset = self.original_offsets[mid].items_since(
                &self.first_offset(),
            ).unwrap();
            (relative_offset, self.total_items - relative_offset)
        } else {
            (self.total_items, 0)
        };
        let left = Self { original_offsets: left_offsets, total_items: left_len };
        let right = Self { original_offsets: right_offsets, total_items: right_len };
        assert(left.offsets() == offsets.take(mid as int));
        assert(right.offsets() == offsets.skip(mid as int));
        assert(left.consistent()) by {
            if mid > 0 {
                assert(offsets.first() <= offsets[mid - 1] <= offsets.last());
                if mid < offsets.len() {
                    assert(offsets[mid - 1] <= offsets[mid as int]);
                }
            }
        }
        assert(right.consistent());
        assert(left.model() == self.model().take(mid as int));
        assert(right.model() == self.model().skip(mid as int));
        assert(left.model() + right.model() == self.model());
        (left, right)
    }
}

impl<'a, OffsetSize: self::OffsetSize> SublistSlice for OffsetSublists<'a, OffsetSize> {
    type LenValidity = usize;

    open spec fn sublists(&self) -> Seq<(nat, bool)> {
        valid_sublists(self.model())
    }

    proof fn lemma_sublists_len(&self) {
    }

    proof fn lemma_null_sublists_empty(&self) {
    }

    /// Each sublist ends where the next one starts, and none is null
    open spec fn contiguous(&self) -> bool {
        true
    }

    #[inline]
    fn is_contiguous(&self) -> (ok: bool) {
        true
    }

    #[inline]
    fn checked_total_items(&self) -> (total: Option<usize>) {
        proof {
            lemma_offset_sublists(self.offsets(), self.total(), self.offsets().len() as int);
        }
        Some(self.total_items)
    }

    #[inline]
    fn get_sublist_unchecked(&self, index: usize) -> (sublist: (usize, usize)) {
        proof {
            lemma_offset_sublists(self.offsets(), self.total(), index as int);
        }
        let offset_len = self.get_cloned_unchecked(index);
        let len = offset_len.len;
        assert(len.sublist_is_valid() && len.sublist_len() == len);
        (offset_len.offset, len)
    }

    fn iter_sublists_len_validity(&self) -> (sublists: Vec<usize>) {
        let offset_lens = self.iter_cloned();
        let mut sublists: Vec<usize> = Vec::new();
        let mut index: usize = 0;
        while index < offset_lens.len()
            invariant
                index <= offset_lens@.len(),
                offset_lens@.len() == self.model().len(),
                forall|i: int|
                    0 <= i < offset_lens@.len() ==> (#[trigger] offset_lens@[i]).len
                        == self.model()[i],
                sublists@ == self.model().take(index as int),
            decreases offset_lens@.len() - index,
        {
            sublists.push(offset_lens[index].len);
            index += 1;
        }
        assert(sublists@ == self.model());
        sublists
    }

    #[inline]
    fn split_sublists_at(&self, mid: usize) -> (parts: (Self, Self)) {
        let parts = self.split_at(mid);
        assert(parts.0.sublists() == self.sublists().take(mid as int));
        assert(parts.1.sublists() == self.sublists().skip(mid as int));
        parts
    }
}

/// The offset of a sublist only depends on the lengths of the sublists
/// before it, not on whether they are valid
pub proof fn lemma_items_before_lens(
    sublists: Seq<(nat, bool)>,
    others: Seq<(nat, bool)>,
    index: int,
)
    requires
        0 <= index <= sublists.len() == others.len(),
        forall|i: int| 0 <= i < sublists.len() ==> (#[trigger] sublists[i]).0 == others[i].0,
    ensures
        items_before(sublists, index) == items_before(others, index),
    decreases index,
{
    if index > 0 {
        lemma_items_before_lens(sublists, others, index - 1);
    }
}

/// Length and validity of each sublist of a column of sublists of stored
/// lengths `lens` and validities `is_valid`
///
/// A null sublist holds no items, whatever its stored length.
pub open spec fn flagged_sublists(lens: Seq<usize>, is_valid: Seq<bool>) -> Seq<(nat, bool)> {
    Seq::new(
        lens.len(),
        |index: int|
            (if is_valid[index] {
                lens[index] as nat
            } else {
                0nat
            }, is_valid[index]),
    )
}

/// Truth that every null sublist of a column of sublists of stored lengths
/// `lens` and validities `is_valid` has a stored length of zero
pub open spec fn nulls_span_nothing(lens: Seq<usize>, is_valid: Seq<bool>) -> bool {
    forall|index: int| 0 <= index < lens.len() && !is_valid[index] ==> #[trigger] lens[index] == 0
}

/// Slice of optional sublists in the native offset-based Arrow format
///
/// Behaves like a `&[Option<usize>]` of sublist lengths: a null sublist
/// holds no items. Where the offsets of a null sublist span items, the
/// sublists are not contiguous, and no list slice over them is consistent.
pub type OptionOffsetSublists<'a, OffsetSize> = OptionSlice<
    OffsetSublists<'a, OffsetSize>,
    OptimizedValiditySlice<Bitmap<'a>>,
>;

impl<'a, OffsetSize, Validity> SublistSlice for OptionSlice<
    OffsetSublists<'a, OffsetSize>,
    Validity,
> where OffsetSize: self::OffsetSize, Validity: Slice<Element = bool> {
    type LenValidity = LenValidity;

    open spec fn sublists(&self) -> Seq<(nat, bool)> {
        flagged_sublists(self.values.model(), self.is_valid.model())
    }

    proof fn lemma_sublists_len(&self) {
    }

    proof fn lemma_null_sublists_empty(&self) {
    }

    /// No null sublist spans items
    open spec fn contiguous(&self) -> bool {
        nulls_span_nothing(self.values.model(), self.is_valid.model())
    }

    fn is_contiguous(&self) -> (ok: bool) {
        let len = self.values.len();
        let mut index: usize = 0;
        while index < len
            invariant
                self.consistent(),
                index <= len == self.values.model().len(),
                forall|i: int|
                    0 <= i < index && !self.is_valid.model()[i] ==> #[trigger] self.values.model()[i]
                        == 0,
            decreases len - index,
        {
            let stored = self.values.get_cloned_unchecked(index);
            let is_valid = self.is_valid.get_cloned_unchecked(index);
            assert(is_valid == self.is_valid.model()[index as int]) by {
                assert(is_valid.model() == is_valid);
            }
            assert(stored.len == self.values.model()[index as int]) by {
                assert(stored.model() == stored.len);
            }
            if !is_valid && stored.len != 0 {
                return false;
            }
            index += 1;
        }
        true
    }

    /// The stored lengths of the valid sublists, added up
    fn checked_total_items(&self) -> (total: Option<usize>) {
        let ghost sublists = self.sublists();
        let len = self.values.len();
        let mut total: usize = 0;
        let mut index: usize = 0;
        while index < len
            invariant
                self.consistent(),
                index <= len == self.values.model().len(),
                sublists == self.sublists(),
                total == items_before(sublists, index as int),
            decreases len - index,
        {
            let stored = self.values.get_cloned_unchecked(index);
            let is_valid = self.is_valid.get_cloned_unchecked(index);
            assert(is_valid == self.is_valid.model()[index as int]) by {
                assert(is_valid.model() == is_valid);
            }
            assert(stored.len == self.values.model()[index as int]) by {
                assert(stored.model() == stored.len);
            }
            if is_valid {
                match total.checked_add(stored.len) {
                    Some(sum) => {
                        total = sum;
                    },
                    None => {
                        proof {
                            lemma_items_before_increases(
                                sublists,
                                index + 1,
                                sublists.len() as int,
                            );
                        }
                        return None;
                    },
                }
            }
            index += 1;
        }
        Some(total)
    }

    #[inline]
    fn get_sublist_unchecked(&self, index: usize) -> (sublist: (usize, LenValidity)) {
        proof {
            lemma_items_before_lens(
                self.sublists(),
                self.values.sublists(),
                self.sublists().len() as int,
            );
            lemma_items_before_lens(self.sublists(), self.values.sublists(), index as int);
        }
        let (offset, len) = self.values.get_sublist_unchecked(index);
        let is_valid = self.is_valid.get_cloned_unchecked(index);
        assert(is_valid == self.is_valid.model()[index as int]) by {
            assert(is_valid.model() == is_valid);
        }
        assert(len.sublist_len() == len);
        (offset, LenValidity::new(len, is_valid))
    }

    fn iter_sublists_len_validity(&self) -> (sublists: Vec<LenValidity>) {
        let lens = self.values.iter_sublists_len_validity();
        let is_valid = self.is_valid.iter_cloned();
        assert(element_models(is_valid@) == is_valid@);
        let mut sublists: Vec<LenValidity> = Vec::new();
        let mut index: usize = 0;
        while index < lens.len()
            invariant
                index <= lens@.len(),
                lens@.len() == is_valid@.len(),
                lens@.len() == self.sublists().len(),
                is_valid@ == self.is_valid.model(),
                forall|i: int|
                    0 <= i < lens@.len() ==> (#[trigger] lens@[i]).sublist_len()
                        == self.values.sublists()[i].0,
                sublists@.len() == index,
                forall|i: int|
                    0 <= i < index ==> {
                        &&& (#[trigger] sublists@[i]).sublist_len() == self.sublists()[i].0
                        &&& sublists@[i].sublist_is_valid() == self.sublists()[i].1
                    },
            decreases lens@.len() - index,
        {
            let len = lens[index];
            assert(len.sublist_len() == len);
            let held = if is_valid[index] {
                len
            } else {
                0
            };
            sublists.push(LenValidity::new(held, is_valid[index]));
            index += 1;
        }
        sublists
    }

    #[inline]
    fn split_sublists_at(&self, mid: usize) -> (parts: (Self, Self)) {
        let parts = self.split_at(mid);
        assert(parts.0.sublists() == self.sublists().take(mid as int));
        assert(parts.1.sublists() == self.sublists().skip(mid as int));
        assert(self.contiguous() ==> parts.0.contiguous() && parts.1.contiguous()) by {
            if self.contiguous() {
                assert forall|index: int|
                    0 <= index < parts.1.values.model().len() && !parts.1.is_valid.model()[index]
                        implies #[trigger] parts.1.values.model()[index] == 0 by {
                    assert(parts.1.values.model()[index] == self.values.model()[mid + index]);
                    assert(parts.1.is_valid.model()[index] == self.is_valid.model()[mid + index]);
                }
                assert forall|index: int|
                    0 <= index < parts.0.values.model().len() && !parts.0.is_valid.model()[index]
                        implies #[trigger] parts.0.values.model()[index] == 0 by {
                    assert(parts.0.values.model()[index] == self.values.model()[index]);
                    assert(parts.0.is_valid.model()[index] == self.is_valid.model()[index]);
                }
            }
        }
        parts
    }
}

} // verus!
