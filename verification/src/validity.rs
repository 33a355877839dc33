//! Array validity bitmaps

use crate::bitmap::compare::{bools_equal, bools_order, lexicographic_order, order_of};
use crate::bitmap::{buffer_fits, unpacked, unpacked_from, Bitmap, Bits, Iter};
use crate::element::{Slice, Value};
use vstd::prelude::*;
use std::cmp::Ordering;
use vstd::std_specs::cmp::{PartialEqSpecImpl, PartialOrdSpecImpl};

verus! {

/// Array validity bitmap
///
/// Tells which elements of an array are valid, as opposed to null. This is a
/// [`Bitmap`] whose `index`-th boolean is the validity of the `index`-th
/// array element.
#[derive(Clone, Copy, Debug)]
pub struct ValiditySlice<'array> {
    /// Validity bitmap
    bitmap: Bitmap<'array>,
}

impl<'array> ValiditySlice<'array> {
    /// The bitmap that holds the validity of each element
    pub closed spec fn bitmap(&self) -> Bitmap<'array> {
        self.bitmap
    }

    /// Decode the validity bitmap of an array of `array_len` elements from
    /// its bit-packed form
    ///
    /// `bitmap` must hold exactly the bytes that `array_len` bits take.
    pub fn new(bitmap: &'array [u8], array_len: usize) -> (validity: Self)
        requires
            buffer_fits(bitmap@.len(), array_len as nat),
        ensures
            validity.consistent(),
            validity.bitmap().bytes() == bitmap@,
            validity.bitmap().header() == 0,
            validity.bitmap().trailer() == bitmap@.len() * 8 - array_len,
            validity.model().len() == array_len,
            validity.model() == unpacked(bitmap@).take(array_len as int),
    {
        Self { bitmap: Bitmap::new(bitmap, array_len) }
    }

    /// Decode the validity bitmap of an array of `array_len` elements from
    /// its bit-packed form, if `bitmap` has the right size for it
    ///
    /// Construction is rejected whenever `bitmap` does not have exactly
    /// `ceil(array_len / 8)` bytes.
    pub fn try_new(bitmap: &'array [u8], array_len: usize) -> (result: Option<Self>)
        ensures
            result is Some <==> buffer_fits(bitmap@.len(), array_len as nat),
            bitmap@.len() != (array_len + 7) / 8 ==> result is None,
            result matches Some(validity) ==> {
                &&& validity.consistent()
                &&& validity.bitmap().bytes() == bitmap@
                &&& validity.bitmap().header() == 0
                &&& validity.bitmap().trailer() == bitmap@.len() * 8 - array_len
                &&& validity.model().len() == array_len
                &&& validity.model() == unpacked(bitmap@).take(array_len as int)
            },
    {
        match Bitmap::try_new(bitmap, array_len) {
            Some(bitmap) => Some(Self { bitmap }),
            None => None,
        }
    }

    /// The bitmap that holds the validity of each element
    pub fn as_bitmap(&self) -> (bitmap: Bitmap<'array>)
        ensures
            bitmap == self.bitmap(),
            bitmap.well_formed(),
    {
        proof {
            use_type_invariant(&self.bitmap);
        }
        self.bitmap
    }

    /// Iterate over the validity of each element
    ///
    /// Each call starts a fresh iteration at the first element.
    pub fn iter(&self) -> (iter: Iter<'array>)
        ensures
            iter.well_formed(),
            iter.remaining() == self.model(),
    {
        self.bitmap.iter()
    }

}

impl<'array> PartialEq for ValiditySlice<'array> {
    /// Two validity slices are equal when the array elements that they
    /// describe have the same validities, in order
    fn eq(&self, other: &Self) -> (equal: bool) {
        proof {
            use_type_invariant(&self.bitmap);
            use_type_invariant(&other.bitmap);
        }
        bools_equal(&self.bitmap, &other.bitmap)
    }
}

impl<'array> PartialEqSpecImpl for ValiditySlice<'array> {
    open spec fn obeys_eq_spec() -> bool {
        true
    }

    open spec fn eq_spec(&self, other: &Self) -> bool {
        self.model() == other.model()
    }
}

impl<'array> Eq for ValiditySlice<'array> {

}

impl<'array> PartialOrd for ValiditySlice<'array> {
    /// Validity slices are ordered as the sequences of validities that they
    /// hold, lexicographically
    fn partial_cmp(&self, other: &Self) -> (order: Option<Ordering>) {
        proof {
            use_type_invariant(&self.bitmap);
            use_type_invariant(&other.bitmap);
        }
        let sign = bools_order(&self.bitmap, &other.bitmap);
        if sign < 0 {
            Some(Ordering::Less)
        } else if sign == 0 {
            Some(Ordering::Equal)
        } else {
            Some(Ordering::Greater)
        }
    }
}

impl<'array> PartialOrdSpecImpl for ValiditySlice<'array> {
    open spec fn obeys_partial_cmp_spec() -> bool {
        true
    }

    open spec fn partial_cmp_spec(&self, other: &Self) -> Option<Ordering> {
        Some(order_of(lexicographic_order(self.model(), other.model())))
    }
}

impl<'array, 'bools> PartialEq<&'bools [bool]> for ValiditySlice<'array> {
    /// A validity slice equals a slice of booleans when the array elements
    /// have those validities, in order
    fn eq(&self, other: &&'bools [bool]) -> (equal: bool) {
        proof {
            use_type_invariant(&self.bitmap);
        }
        assert(other.model() == other@);
        bools_equal(&self.bitmap, other)
    }
}

impl<'array, 'bools> PartialEqSpecImpl<&'bools [bool]> for ValiditySlice<'array> {
    open spec fn obeys_eq_spec() -> bool {
        true
    }

    open spec fn eq_spec(&self, other: &&'bools [bool]) -> bool {
        self.model() == other@
    }
}

impl<'array, 'bools> PartialOrd<&'bools [bool]> for ValiditySlice<'array> {
    /// A validity slice is ordered against a slice of booleans as the
    /// sequence of the validities of the array elements, lexicographically
    fn partial_cmp(&self, other: &&'bools [bool]) -> (order: Option<Ordering>) {
        proof {
            use_type_invariant(&self.bitmap);
        }
        assert(other.model() == other@);
        let sign = bools_order(&self.bitmap, other);
        if sign < 0 {
            Some(Ordering::Less)
        } else if sign == 0 {
            Some(Ordering::Equal)
        } else {
            Some(Ordering::Greater)
        }
    }
}

impl<'array, 'bools> PartialOrdSpecImpl<&'bools [bool]> for ValiditySlice<'array> {
    open spec fn obeys_partial_cmp_spec() -> bool {
        true
    }

    open spec fn partial_cmp_spec(&self, other: &&'bools [bool]) -> Option<Ordering> {
        Some(order_of(lexicographic_order(self.model(), other@)))
    }
}

impl<'array> Value for ValiditySlice<'array> {
    type Model = Seq<bool>;

    /// The validity of each element, in order
    open spec fn model(&self) -> Seq<bool> {
        self.bitmap().model()
    }
}

impl<'array> Slice for ValiditySlice<'array> {
    type Element = bool;

    /// A validity slice has no inner slices that could disagree: every
    /// validity slice that code can get hold of is consistent
    open spec fn consistent(&self) -> bool {
        self.bitmap().consistent()
    }

    proof fn lemma_len_bounded(&self) {
        self.bitmap().lemma_len_bounded();
    }

    #[inline]
    fn is_consistent(&self) -> (ok: bool) {
        self.bitmap.is_consistent()
    }

    #[inline]
    fn len(&self) -> (n: usize) {
        self.bitmap.len()
    }

    #[inline]
    fn get_cloned_unchecked(&self, index: usize) -> (element: bool) {
        self.bitmap.get_cloned_unchecked(index)
    }

    fn iter_cloned(&self) -> (elements: Vec<bool>)
        ensures
            elements@ == self.model(),
    {
        self.bitmap.iter_cloned()
    }

    fn split_at(&self, mid: usize) -> (parts: (Self, Self))
        ensures
            parts.0.bitmap().model() == self.bitmap().model().take(mid as int),
            parts.1.bitmap().model() == self.bitmap().model().skip(mid as int),
    {
        let (head, tail) = self.bitmap.split_at(mid);
        (Self { bitmap: head }, Self { bitmap: tail })
    }
}

/// Iterator over the elements of an Arrow-style bitmap
///
/// Yields every bit of a byte buffer, least significant bit of each byte
/// first, from a given bit of the first byte on.
#[derive(Clone, Copy, Debug)]
pub struct BitmapIter<'bytes> {
    /// Iterator over the bits of the bitmap's bytes
    bits: Bits<'bytes>,
}

impl<'bytes> BitmapIter<'bytes> {
    /// Booleans that the iterator has yet to yield, in order
    pub closed spec fn remaining(&self) -> Seq<bool> {
        self.bits.remaining()
    }

    /// Iterate over the bits of `bytes`, starting at bit `first_bit` of the
    /// first byte
    pub fn new(bytes: &'bytes [u8], first_bit: u8) -> (iter: Self)
        requires
            first_bit < 8,
        ensures
            iter.remaining() == unpacked_from(bytes@, first_bit as int),
    {
        Self { bits: Bits::new(bytes, first_bit) }
    }

    /// Yield the next bit, if any is left
    ///
    /// Once the bits are exhausted, every further call returns `None`.
    pub fn next(&mut self) -> (bit: Option<bool>)
        ensures
            match bit {
                Some(value) => {
                    &&& old(self).remaining().len() > 0
                    &&& value == old(self).remaining()[0]
                    &&& final(self).remaining() == old(self).remaining().skip(1)
                },
                None => {
                    &&& old(self).remaining().len() == 0
                    &&& final(self).remaining().len() == 0
                },
            },
    {
        self.bits.next()
    }
}

} // verus!
