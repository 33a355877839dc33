//! Comparing slices of booleans

use crate::bitmap::Bitmap;
use crate::element::{Slice, Value};
use std::cmp::Ordering;
use std::hash::{Hash, Hasher};
use vstd::prelude::*;

verus! {

/// How `left` compares to `right` in lexicographic order, where `false`
/// comes before `true`: a negative number where `left` comes first, zero
/// where they are the same sequence, a positive number where `right` comes
/// first
pub open spec fn lexicographic_order(left: Seq<bool>, right: Seq<bool>) -> int
    decreases left.len(),
{
    if left.len() == 0 {
        if right.len() == 0 {
            0
        } else {
            -1
        }
    } else if right.len() == 0 {
        1
    } else if left[0] != right[0] {
        if right[0] {
            -1
        } else {
            1
        }
    } else {
        lexicographic_order(left.skip(1), right.skip(1))
    }
}

/// Lexicographic order only tells apart sequences that differ
pub proof fn lemma_lexicographic_equal(left: Seq<bool>, right: Seq<bool>)
    ensures
        lexicographic_order(left, right) == 0 <==> left == right,
    decreases left.len(),
{
    if left.len() == 0 || right.len() == 0 {
        if left.len() == right.len() {
            assert(left =~= right);
        }
    } else if left[0] == right[0] {
        lemma_lexicographic_equal(left.skip(1), right.skip(1));
        assert(left == seq![left[0]] + left.skip(1));
        assert(right == seq![right[0]] + right.skip(1));
    }
}

/// Lexicographic order of two sequences that agree on their first `count`
/// elements is that of what comes after those
proof fn lemma_lexicographic_skip(left: Seq<bool>, right: Seq<bool>, count: int)
    requires
        0 <= count <= left.len(),
        count <= right.len(),
        forall|index: int| 0 <= index < count ==> left[index] == right[index],
    ensures
        lexicographic_order(left, right) == lexicographic_order(left.skip(count), right.skip(count)),
    decreases count,
{
    if count == 0 {
        assert(left.skip(0) == left);
        assert(right.skip(0) == right);
    } else {
        lemma_lexicographic_skip(left.skip(1), right.skip(1), count - 1);
        assert(left.skip(1).skip(count - 1) == left.skip(count));
        assert(right.skip(1).skip(count - 1) == right.skip(count));
    }
}

/// Truth that two slices of booleans hold the same booleans in the same
/// order
pub fn bools_equal<Left, Right>(left: &Left, right: &Right) -> (equal: bool) where
    Left: Slice<Element = bool>,
    Right: Slice<Element = bool>,

    requires
        left.consistent(),
        right.consistent(),
    ensures
        equal == (left.model() == right.model()),
{
    let len = left.len();
    if len != right.len() {
        return false;
    }
    let mut index: usize = 0;
    while index < len
        invariant
            left.consistent(),
            right.consistent(),
            index <= len,
            len == left.model().len(),
            len == right.model().len(),
            forall|i: int| 0 <= i < index ==> left.model()[i] == right.model()[i],
        decreases len - index,
    {
        let left_bit = left.get_cloned_unchecked(index);
        let right_bit = right.get_cloned_unchecked(index);
        assert(left_bit.model() == left_bit && right_bit.model() == right_bit);
        if left_bit != right_bit {
            return false;
        }
        index += 1;
    }
    assert(left.model() == right.model());
    true
}

/// How the booleans of `left` compare to those of `right` in lexicographic
/// order, where `false` comes before `true`: -1 where `left` comes first, 0
/// where both hold the same booleans, 1 where `right` comes first
pub fn bools_order<Left, Right>(left: &Left, right: &Right) -> (order: i8) where
    Left: Slice<Element = bool>,
    Right: Slice<Element = bool>,

    requires
        left.consistent(),
        right.consistent(),
    ensures
        -1 <= order <= 1,
        order == lexicographic_order(left.model(), right.model()),
{
    let left_len = left.len();
    let right_len = right.len();
    let mut index: usize = 0;
    while index < left_len && index < right_len
        invariant
            left.consistent(),
            right.consistent(),
            index <= left_len,
            index <= right_len,
            left_len == left.model().len(),
            right_len == right.model().len(),
            forall|i: int| 0 <= i < index ==> left.model()[i] == right.model()[i],
        decreases left_len - index,
    {
        let left_bit = left.get_cloned_unchecked(index);
        let right_bit = right.get_cloned_unchecked(index);
        assert(left_bit.model() == left_bit && right_bit.model() == right_bit);
        if left_bit != right_bit {
            proof {
                lemma_lexicographic_skip(left.model(), right.model(), index as int);
            }
            return if right_bit {
                -1
            } else {
                1
            };
        }
        index += 1;
    }
    proof {
        lemma_lexicographic_skip(left.model(), right.model(), index as int);
    }
    if index < right_len {
        -1
    } else if index < left_len {
        1
    } else {
        0
    }
}

/// The order that [`bools_order`] found, as an `Ordering`
pub open spec fn order_of(sign: int) -> Ordering {
    if sign < 0 {
        Ordering::Less
    } else if sign == 0 {
        Ordering::Equal
    } else {
        Ordering::Greater
    }
}

impl<'array, Other: Slice<Element = bool>> PartialEq<Other> for Bitmap<'array> {
    /// A bitmap equals a consistent slice of booleans that holds the same
    /// booleans, whatever the header and trailer bits of the bitmap are
    fn eq(&self, other: &Other) -> (equal: bool) {
        proof {
            use_type_invariant(self);
        }
        other.is_consistent() && bools_equal(self, other)
    }
}

impl<'array, Other: Slice<Element = bool>> vstd::std_specs::cmp::PartialEqSpecImpl<Other> for Bitmap<'array> {
    open spec fn obeys_eq_spec() -> bool {
        true
    }

    open spec fn eq_spec(&self, other: &Other) -> bool {
        other.consistent() && self.model() == other.model()
    }
}

impl<'array> Eq for Bitmap<'array> {

}

impl<'array, Other: Slice<Element = bool>> PartialOrd<Other> for Bitmap<'array> {
    /// A bitmap is ordered against a consistent slice of booleans as the
    /// sequences of booleans that the two hold, lexicographically
    fn partial_cmp(&self, other: &Other) -> (order: Option<Ordering>) {
        proof {
            use_type_invariant(self);
        }
        if !other.is_consistent() {
            return None;
        }
        let sign = bools_order(self, other);
        if sign < 0 {
            Some(Ordering::Less)
        } else if sign == 0 {
            Some(Ordering::Equal)
        } else {
            Some(Ordering::Greater)
        }
    }
}

impl<'array, Other: Slice<Element = bool>> vstd::std_specs::cmp::PartialOrdSpecImpl<Other> for Bitmap<'array> {
    open spec fn obeys_partial_cmp_spec() -> bool {
        true
    }

    open spec fn partial_cmp_spec(&self, other: &Other) -> Option<Ordering> {
        if other.consistent() {
            Some(order_of(lexicographic_order(self.model(), other.model())))
        } else {
            None
        }
    }
}

/// Feed `len` into `state`, as `Hasher::write_usize` does
#[verifier::external_body]
fn hash_len<H: Hasher>(state: &mut H, len: usize) {
    state.write_usize(len)
}

/// Feed `bit` into `state`, as the `Hash` implementation of `bool` does
#[verifier::external_body]
fn hash_bit<H: Hasher>(state: &mut H, bit: bool) {
    bit.hash(state)
}

impl<'array> Bitmap<'array> {
    /// What a bitmap feeds a hasher: the number of its booleans, and then
    /// each of them in order
    ///
    /// Bitmaps that hold the same booleans feed the same, whatever their
    /// header and trailer bits are.
    pub fn hash_feed(&self) -> (feed: (usize, Vec<bool>))
        ensures
            feed.0 == self.model().len(),
            feed.1@ == self.model(),
    {
        proof {
            use_type_invariant(self);
        }
        (self.len(), self.iter_cloned())
    }
}

impl<'array> Hash for Bitmap<'array> {
    /// Feeds the number of booleans, then each boolean in order: equal
    /// bitmaps feed the same, whatever their header and trailer bits are
    fn hash<H: Hasher>(&self, state: &mut H) {
        let (len, bits) = self.hash_feed();
        hash_len(state, len);
        let mut index: usize = 0;
        while index < bits.len()
            invariant
                index <= bits@.len(),
            decreases bits@.len() - index,
        {
            hash_bit(state, bits[index]);
            index += 1;
        }
    }
}

} // verus!
