//! Arrow-style bitmaps

use crate::element::{Slice, Value};
use vstd::prelude::*;

pub mod compare;

verus! {

/// Truth that the bit at `position` (0 is the least significant one) is set
/// in `byte`
pub open spec fn byte_bit(byte: u8, position: int) -> bool {
    byte & (1u8 << (position as u8)) != 0
}

/// The `bit`-th boolean packed into `bytes`
///
/// Booleans are packed least significant bit first: boolean `bit` lives in
/// byte `bit / 8`, at bit position `bit % 8`.
pub open spec fn bit_at(bytes: Seq<u8>, bit: int) -> bool {
    byte_bit(bytes[bit / 8], bit % 8)
}

/// All the booleans packed into `bytes`, eight per byte
pub open spec fn unpacked(bytes: Seq<u8>) -> Seq<bool> {
    Seq::new(8 * bytes.len(), |bit: int| bit_at(bytes, bit))
}

/// The booleans packed into `bytes` from bit `first_bit` on
pub open spec fn unpacked_from(bytes: Seq<u8>, first_bit: int) -> Seq<bool> {
    let len = if first_bit <= 8 * bytes.len() {
        8 * bytes.len() - first_bit
    } else {
        0
    };
    Seq::new(len as nat, |index: int| bit_at(bytes, first_bit + index))
}

/// Truth that `bytes` is a bit-packed form of `bits`
///
/// The buffer has just enough bytes for the bits, and holds them in order.
/// What the unused high bits of its last byte are does not matter.
pub open spec fn is_packing_of(bytes: Seq<u8>, bits: Seq<bool>) -> bool {
    &&& bits.len() <= 8 * bytes.len() < bits.len() + 8
    &&& forall|bit: int| 0 <= bit < bits.len() ==> bit_at(bytes, bit) == bits[bit]
}

/// Truth that a buffer of `byte_count` bytes is the right size for a bitmap
/// of `array_len` booleans that starts at the first bit of the buffer
///
/// The bits of the buffer must also be countable by an `usize`.
pub open spec fn buffer_fits(byte_count: nat, array_len: nat) -> bool {
    &&& byte_count * 8 <= usize::MAX
    &&& array_len <= byte_count * 8 < array_len + 8
}

/// A buffer fits an array length exactly when it has the least number of
/// bytes that can hold that many bits, `ceil(array_len / 8)`, and an `usize`
/// can count its bits
///
/// So [`Bitmap::try_new`] rejects every buffer of another size, and
/// [`Bitmap::new`] asks for a buffer of that size.
pub proof fn lemma_buffer_fits_iff_ceil(byte_count: nat, array_len: nat)
    ensures
        buffer_fits(byte_count, array_len) <==> byte_count == (array_len + 7) / 8 && byte_count * 8
            <= usize::MAX,
{
}

/// Unpacking a bit-packed form of `bits` and keeping as many booleans as
/// `bits` has gives `bits` back, whatever `bits` is
///
/// Together with what [`Bitmap::new`] ensures, this says that a bitmap decoded
/// from a packed boolean sequence holds that very sequence.
pub proof fn lemma_unpack_packing(bytes: Seq<u8>, bits: Seq<bool>)
    requires
        is_packing_of(bytes, bits),
    ensures
        unpacked(bytes).take(bits.len() as int) == bits,
        bytes.len() * 8 <= usize::MAX ==> buffer_fits(bytes.len(), bits.len()),
{
}

/// Read the bit at `position` of `byte`
#[inline]
fn test_bit(byte: u8, position: u8) -> (set: bool)
    requires
        position < 8,
    ensures
        set == byte_bit(byte, position as int),
{
    byte & (1u8 << position) != 0
}

/// A bit-packed slice of booleans
///
/// This type is logically equivalent to `&[bool]`, but is implemented over a
/// bit-packed `&[u8]` representation. It is notably used to provide in-place
/// access to the null buffer/validity bitmap of Arrow arrays.
///
/// A bitmap need not start or end at a byte boundary: a few leading bits of
/// its first byte and trailing bits of its last byte may belong to no element.
#[derive(Clone, Copy, Debug)]
pub struct Bitmap<'array> {
    /// Raw bitmap, possibly containing superfluous bits
    raw: &'array [u8],
    /// Number of leading bits in the first byte of the bitmap that have no
    /// associated array element
    header_len: u8,
    /// Number of trailing bits in the last byte of the bitmap that have no
    /// associated array element
    trailer_len: u8,
}

impl<'array> Bitmap<'array> {
    /// Bytes that the bitmap views
    pub closed spec fn bytes(&self) -> Seq<u8> {
        self.raw@
    }

    /// Number of leading bits of the first byte that belong to no element
    pub closed spec fn header(&self) -> nat {
        self.header_len as nat
    }

    /// Number of trailing bits of the last byte that belong to no element
    pub closed spec fn trailer(&self) -> nat {
        self.trailer_len as nat
    }

    /// Validity of the representation, which holds of every bitmap that code
    /// can get hold of
    ///
    /// Header and trailer take less than a byte each, and together no more
    /// bits than the buffer has.
    #[verifier::type_invariant]
    pub open spec fn well_formed(&self) -> bool {
        &&& self.header() < 8
        &&& self.trailer() < 8
        &&& self.bytes().len() * 8 <= usize::MAX
        &&& self.header() + self.trailer() <= self.bytes().len() * 8
    }

    /// Number of booleans in the bitmap
    pub open spec fn bit_len(&self) -> int {
        self.bytes().len() * 8 - self.header() - self.trailer()
    }

    /// Decode a bitmap of `array_len` booleans from its bit-packed form
    ///
    /// `raw` must hold exactly the bytes that `array_len` bits take.
    pub fn new(raw: &'array [u8], array_len: usize) -> (bitmap: Self)
        requires
            buffer_fits(raw@.len(), array_len as nat),
        ensures
            bitmap.well_formed(),
            bitmap.bytes() == raw@,
            bitmap.header() == 0,
            bitmap.trailer() == raw@.len() * 8 - array_len,
            bitmap.model().len() == array_len,
            bitmap.model() == unpacked(raw@).take(array_len as int),
    {
        let trailer_len = raw.len() * 8 - array_len;
        let bitmap = Self { raw, header_len: 0, trailer_len: trailer_len as u8 };
        assert(bitmap.model() == unpacked(raw@).take(array_len as int));
        bitmap
    }

    /// Decode a bitmap of `array_len` booleans from its bit-packed form, if
    /// `raw` has the right size for it
    ///
    /// Construction is rejected whenever `raw` does not have exactly
    /// `ceil(array_len / 8)` bytes.
    pub fn try_new(raw: &'array [u8], array_len: usize) -> (result: Option<Self>)
        ensures
            result is Some <==> buffer_fits(raw@.len(), array_len as nat),
            result is Some <==> raw@.len() == (array_len + 7) / 8 && raw@.len() * 8 <= usize::MAX,
            result matches Some(bitmap) ==> {
                &&& bitmap.well_formed()
                &&& bitmap.bytes() == raw@
                &&& bitmap.header() == 0
                &&& bitmap.trailer() == raw@.len() * 8 - array_len
                &&& bitmap.model().len() == array_len
                &&& bitmap.model() == unpacked(raw@).take(array_len as int)
            },
    {
        let Some(num_bits) = raw.len().checked_mul(8) else {
            return None;
        };
        if num_bits < array_len || num_bits - array_len >= 8 {
            return None;
        }
        Some(Self::new(raw, array_len))
    }

    /// Bytes that the bitmap views, including the header and trailer bits
    pub fn raw_bytes(&self) -> (raw: &'array [u8])
        ensures
            raw@ == self.bytes(),
    {
        self.raw
    }

    /// Number of leading bits in the first byte of the bitmap that have no
    /// associated array element
    pub fn header_len(&self) -> (len: u8)
        ensures
            len == self.header(),
            len < 8,
    {
        proof {
            use_type_invariant(self);
        }
        self.header_len
    }

    /// Number of trailing bits in the last byte of the bitmap that have no
    /// associated array element
    pub fn trailer_len(&self) -> (len: u8)
        ensures
            len == self.trailer(),
            len < 8,
    {
        proof {
            use_type_invariant(self);
        }
        self.trailer_len
    }

    /// Iterate over the booleans of the bitmap
    ///
    /// Each call starts a fresh iteration at the first element.
    pub fn iter(&self) -> (iter: Iter<'array>)
        ensures
            iter.well_formed(),
            iter.remaining() == self.model(),
    {
        proof {
            use_type_invariant(self);
        }
        let len = self.len();
        let bits = Bits::new(self.raw, self.header_len);
        assert(bits.remaining().take(len as int) == self.model()) by {
            if self.raw@.len() > 0 {
                assert(seq![self.raw@[0]] + self.raw@.skip(1) == self.raw@);
            }
        }
        Iter { bits, left: len }
    }
}

impl<'array> Default for Bitmap<'array> {
    /// The empty bitmap
    fn default() -> (bitmap: Self)
        ensures
            bitmap.well_formed(),
            bitmap.bytes().len() == 0,
            bitmap.header() == 0,
            bitmap.trailer() == 0,
            bitmap.model().len() == 0,
    {
        let raw: &[u8] = &[];
        Self { raw, header_len: 0, trailer_len: 0 }
    }
}

impl<'array> Value for Bitmap<'array> {
    type Model = Seq<bool>;

    /// The booleans between the header and the trailer bits, in order
    open spec fn model(&self) -> Seq<bool> {
        Seq::new(self.bit_len() as nat, |index: int| bit_at(self.bytes(), self.header() + index))
    }
}

impl<'array> Slice for Bitmap<'array> {
    type Element = bool;

    /// A bitmap has no inner slices that could disagree: every bitmap that
    /// code can get hold of is consistent
    open spec fn consistent(&self) -> bool {
        self.well_formed()
    }

    proof fn lemma_len_bounded(&self) {
    }

    #[inline]
    fn is_consistent(&self) -> (ok: bool) {
        proof {
            use_type_invariant(self);
        }
        true
    }

    #[inline]
    fn len(&self) -> (n: usize)
        ensures
            n == self.bit_len(),
    {
        proof {
            use_type_invariant(self);
        }
        self.raw.len() * 8 - (self.header_len + self.trailer_len) as usize
    }

    #[inline]
    fn get_cloned_unchecked(&self, index: usize) -> (element: bool)
        ensures
            element == bit_at(self.bytes(), self.header() + index),
    {
        proof {
            use_type_invariant(self);
        }
        let bit = index + self.header_len as usize;
        let element = test_bit(self.raw[bit / 8], (bit % 8) as u8);
        assert(element.model() == self.model()[index as int]);
        element
    }

    fn iter_cloned(&self) -> (elements: Vec<bool>)
        ensures
            elements@ == self.model(),
    {
        let mut iter = self.iter();
        let mut elements: Vec<bool> = Vec::new();
        let ghost all = iter.remaining();
        loop
            invariant
                iter.well_formed(),
                elements@ + iter.remaining() == all,
            ensures
                elements@ == all,
            decreases iter.remaining().len(),
        {
            let ghost before = iter.remaining();
            match iter.next() {
                Some(bit) => {
                    elements.push(bit);
                    assert(elements@ + iter.remaining() == all) by {
                        assert(seq![before[0]] + before.skip(1) == before);
                    }
                },
                None => {
                    assert(elements@ + Seq::<bool>::empty() == elements@);
                    break ;
                },
            }
        }
        elements
    }

    /// Split the bitmap into two bitmaps at `mid`
    ///
    /// When the split point falls inside a byte, that byte is the last one of
    /// the first bitmap and the first one of the second bitmap, and each of
    /// them masks out the bits of the other one.
    fn split_at(&self, mid: usize) -> (parts: (Self, Self))
        ensures
            parts.0.well_formed(),
            parts.1.well_formed(),
            parts.0.bytes() == self.bytes().take((mid + self.header() + 7) / 8),
            parts.0.header() == self.header(),
            parts.0.trailer() == (mid + self.header() + 7) / 8 * 8 - (mid + self.header()),
            parts.1.bytes() == self.bytes().skip((mid + self.header()) / 8),
            parts.1.header() == (mid + self.header()) % 8,
            parts.1.trailer() == self.trailer(),
    {
        proof {
            use_type_invariant(self);
        }
        let mid_bit = mid + self.header_len as usize;
        let first_tail_byte = mid_bit / 8;
        let num_head_bytes = if mid_bit % 8 == 0 {
            first_tail_byte
        } else {
            first_tail_byte + 1
        };
        let head_bitmap = vstd::slice::slice_subrange(self.raw, 0, num_head_bytes);
        let head = Self {
            raw: head_bitmap,
            header_len: self.header_len,
            trailer_len: (num_head_bytes * 8 - mid_bit) as u8,
        };

        let header_len = if mid_bit % 8 == 0 {
            0
        } else {
            8 - head.trailer_len
        };
        let tail = Self {
            raw: vstd::slice::slice_subrange(self.raw, first_tail_byte, self.raw.len()),
            header_len,
            trailer_len: self.trailer_len,
        };

        assert(head.model() == self.model().take(mid as int));
        assert(tail.model() == self.model().skip(mid as int)) by {
            assert forall|index: int| 0 <= index < tail.model().len() implies tail.model()[index]
                == self.model().skip(mid as int)[index] by {
                let bit = mid_bit + index;
                assert((header_len + index) / 8 + first_tail_byte == bit / 8);
                assert((header_len + index) % 8 == bit % 8);
            }
        }
        assert(head.model() + tail.model() == self.model());
        (head, tail)
    }
}

/// Iterator over the bits of an `&[u8]`
///
/// For storage efficiency reasons, Arrow bit-packs arrays of booleans into
/// `&[u8]` slices. This iterator lets you iterate over the booleans packed
/// inside of such a slice, least significant bit of each byte first.
#[derive(Clone, Copy, Debug)]
pub struct Bits<'bytes> {
    /// Bytes that come after the current one
    bytes: &'bytes [u8],
    /// Byte that the next bit is read from, `None` once the bits are exhausted
    current_byte: Option<u8>,
    /// Position of the next bit within `current_byte`
    position: u8,
}

impl<'bytes> Bits<'bytes> {
    /// Validity of the representation, which holds of every iterator that code
    /// can get hold of
    #[verifier::type_invariant]
    pub closed spec fn well_formed(&self) -> bool {
        &&& self.position < 8
        &&& self.current_byte is None ==> self.bytes@.len() == 0
    }

    /// Booleans that the iterator has yet to yield, in order
    pub closed spec fn remaining(&self) -> Seq<bool> {
        match self.current_byte {
            None => Seq::empty(),
            Some(byte) => unpacked_from(seq![byte] + self.bytes@, self.position as int),
        }
    }

    /// Iterate over the bits of `bytes`, starting at bit `first_bit` of the
    /// first byte
    pub fn new(bytes: &'bytes [u8], first_bit: u8) -> (bits: Self)
        requires
            first_bit < 8,
        ensures
            bits.well_formed(),
            bits.remaining() == unpacked_from(bytes@, first_bit as int),
    {
        if bytes.len() == 0 {
            let bits = Self { bytes, current_byte: None, position: first_bit };
            assert(bits.remaining() == unpacked_from(bytes@, first_bit as int));
            bits
        } else {
            let rest = vstd::slice::slice_subrange(bytes, 1, bytes.len());
            let bits = Self { bytes: rest, current_byte: Some(bytes[0]), position: first_bit };
            assert(seq![bytes@[0]] + rest@ == bytes@);
            bits
        }
    }

    /// Yield the next bit, if any is left
    ///
    /// Once the bits are exhausted, every further call returns `None`.
    pub fn next(&mut self) -> (bit: Option<bool>)
        ensures
            final(self).well_formed(),
            match bit {
                Some(value) => {
                    &&& old(self).remaining().len() > 0
                    &&& value == old(self).remaining()[0]
                    &&& final(self).remaining() == old(self).remaining().skip(1)
                },
                None => {
                    &&& old(self).remaining().len() == 0
                    &&& final(self).remaining().len() == 0
                },
            },
    {
        proof {
            use_type_invariant(&*self);
        }
        // Access the current bit
        let Some(byte) = self.current_byte else {
            return None;
        };
        let result = test_bit(byte, self.position);
        let ghost before = *self;
        let ghost all = seq![byte] + self.bytes@;
        assert(before.remaining()[0] == bit_at(all, self.position as int));

        // Move to the next byte/bit
        if self.position < 7 {
            *self = Self {
                bytes: self.bytes,
                current_byte: self.current_byte,
                position: self.position + 1,
            };
            assert(self.remaining() == before.remaining().skip(1));
        } else if self.bytes.len() == 0 {
            *self = Self { bytes: self.bytes, current_byte: None, position: 0 };
            assert(self.remaining() == before.remaining().skip(1));
        } else {
            let next_byte = self.bytes[0];
            let rest = vstd::slice::slice_subrange(self.bytes, 1, self.bytes.len());
            *self = Self { bytes: rest, current_byte: Some(next_byte), position: 0 };
            assert(self.remaining() == before.remaining().skip(1)) by {
                let now = seq![next_byte] + rest@;
                assert(now == all.skip(1));
                assert forall|index: int| 0 <= index < self.remaining().len() implies self.remaining()[index]
                    == before.remaining().skip(1)[index] by {
                    assert((8 + index) / 8 == index / 8 + 1);
                    assert((8 + index) % 8 == index % 8);
                }
            }
        }

        // Return the result
        Some(result)
    }
}

/// Iterator over the elements of a [`Bitmap`]
///
/// Walks the bits of the underlying bytes from the first element of the
/// bitmap on, and stops after the last one, before the trailer bits.
#[derive(Clone, Copy, Debug)]
pub struct Iter<'slice> {
    /// Iterator over the bits of the bitmap and the trailer bits after them
    bits: Bits<'slice>,
    /// Number of elements left to yield
    left: usize,
}

impl<'slice> Iter<'slice> {
    /// Validity of the representation, which holds of every iterator that code
    /// can get hold of
    #[verifier::type_invariant]
    pub closed spec fn well_formed(&self) -> bool {
        &&& self.bits.well_formed()
        &&& self.left <= self.bits.remaining().len()
    }

    /// Elements that the iterator has yet to yield, in order
    pub closed spec fn remaining(&self) -> Seq<bool> {
        self.bits.remaining().take(self.left as int)
    }

    /// Yield the next element, if any is left
    pub fn next(&mut self) -> (element: Option<bool>)
        ensures
            final(self).well_formed(),
            match element {
                Some(value) => {
                    &&& old(self).remaining().len() > 0
                    &&& value == old(self).remaining()[0]
                    &&& final(self).remaining() == old(self).remaining().skip(1)
                },
                None => {
                    &&& old(self).remaining().len() == 0
                    &&& final(self).remaining().len() == 0
                },
            },
    {
        proof {
            use_type_invariant(&*self);
        }
        if self.left == 0 {
            return None;
        }
        let ghost before = *self;
        let mut bits = self.bits;
        let element = bits.next();
        *self = Self { bits, left: self.left - 1 };
        assert(self.remaining() == before.remaining().skip(1));
        element
    }
}

} // verus!
