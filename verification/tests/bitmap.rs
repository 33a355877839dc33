use arrow_typing::bitmap::{Bitmap, Bits};
use arrow_typing::element::primitive::{ConstBoolSlice, OptimizedValiditySlice, UniformSlice};
use arrow_typing::element::Slice;
use arrow_typing::validity::ValiditySlice;
use std::cmp::Ordering;
use std::collections::hash_map::DefaultHasher;
use std::hash::{Hash, Hasher};

/// Hash of `value` by the default hasher
fn hash_of<T: Hash>(value: &T) -> u64 {
    let mut hasher = DefaultHasher::new();
    value.hash(&mut hasher);
    hasher.finish()
}

/// Pack booleans into bytes, least significant bit first
fn bits_to_bitmap(bits: &[bool]) -> (Vec<u8>, usize) {
    let mut bytes = vec![0u8; (bits.len() + 7) / 8];
    for (idx, bit) in bits.iter().enumerate() {
        if *bit {
            bytes[idx / 8] |= 1 << (idx % 8);
        }
    }
    (bytes, bits.len())
}

/// A fixed, irregular sequence of booleans
fn sample_bits(len: usize) -> Vec<bool> {
    let mut state = 0x2545_f491_4f6c_dd1du64;
    (0..len)
        .map(|_| {
            state ^= state << 13;
            state ^= state >> 7;
            state ^= state << 17;
            state & 1 == 1
        })
        .collect()
}

#[test]
fn three_bits_of_one_byte() {
    let raw = [0b00000101u8];
    let bitmap = Bitmap::new(&raw, 3);
    assert_eq!(bitmap.iter_cloned(), vec![true, false, true]);
}

#[test]
fn nine_bits_split_at_byte_boundary() {
    let raw = [0xFFu8, 0x01];
    let bitmap = Bitmap::new(&raw, 9);
    assert_eq!(bitmap.len(), 9);
    assert_eq!(bitmap.iter_cloned(), vec![true; 9]);
    let (head, tail) = bitmap.split_at(8);
    assert_eq!(head.iter_cloned(), vec![true; 8]);
    assert_eq!(head.raw_bytes(), &[0xFFu8][..]);
    assert_eq!(head.trailer_len(), 0);
    assert_eq!(tail.iter_cloned(), vec![true]);
    assert_eq!(tail.raw_bytes(), &[0x01u8][..]);
    assert_eq!(tail.header_len(), 0);
    assert_eq!(tail.trailer_len(), 7);
}

#[test]
fn round_trip() {
    let bits = sample_bits(67);
    for len in 0..=bits.len() {
        let (raw, array_len) = bits_to_bitmap(&bits[..len]);
        let bitmap = Bitmap::new(&raw, array_len);
        assert_eq!(bitmap.iter_cloned(), bits[..len].to_vec());
    }
}

#[test]
fn round_trip_of_no_bits() {
    let (raw, array_len) = bits_to_bitmap(&[]);
    assert!(raw.is_empty());
    let bitmap = Bitmap::new(&raw, array_len);
    assert_eq!(bitmap.iter_cloned(), Vec::<bool>::new());
    assert!(bitmap.iter().next().is_none());
}

#[test]
fn unused_bits_of_last_byte_do_not_show() {
    let bitmap = Bitmap::new(&[0b1111_1010], 3);
    assert_eq!(bitmap.iter_cloned(), vec![false, true, false]);
}

#[test]
fn length_matches_array_length() {
    for array_len in 0..40usize {
        let raw = vec![0xA5u8; (array_len + 7) / 8];
        let bitmap = Bitmap::new(&raw, array_len);
        assert_eq!(bitmap.len(), array_len);
        assert_eq!(bitmap.is_empty(), array_len == 0);
        assert_eq!(bitmap.iter_cloned().len(), array_len);
        assert!(bitmap.is_consistent());
    }
}

#[test]
fn construction_is_rejected_unless_sizes_match() {
    for num_bytes in 0..6usize {
        let raw = vec![0u8; num_bytes];
        for array_len in 0..50usize {
            let result = Bitmap::try_new(&raw, array_len);
            assert_eq!(result.is_some(), num_bytes == (array_len + 7) / 8);
            if let Some(bitmap) = result {
                assert_eq!(bitmap.len(), array_len);
                assert_eq!(bitmap.header_len(), 0);
                assert_eq!(bitmap.trailer_len() as usize, num_bytes * 8 - array_len);
            }
        }
    }
}

#[test]
fn construction_is_rejected_for_huge_array_length() {
    assert!(Bitmap::try_new(&[0xFF], usize::MAX).is_none());
    assert!(Bitmap::try_new(&[], 1).is_none());
    assert!(Bitmap::try_new(&[0, 0], 8).is_none());
    assert!(Bitmap::try_new(&[0, 0], 17).is_none());
}

#[test]
fn indexing_agrees_with_iteration() {
    let bits = sample_bits(29);
    let (raw, array_len) = bits_to_bitmap(&bits);
    let bitmap = Bitmap::new(&raw, array_len);
    let iterated = bitmap.iter_cloned();
    for index in 0..array_len {
        assert_eq!(bitmap.get_cloned(index), Some(iterated[index]));
        assert_eq!(bitmap.get_cloned(index), Some(bits[index]));
        assert_eq!(bitmap.get_cloned_unchecked(index), bits[index]);
        assert_eq!(bitmap.at(index), bits[index]);
    }
    for index in array_len..array_len + 20 {
        assert_eq!(bitmap.get_cloned(index), None);
    }
    assert_eq!(bitmap.get_cloned(usize::MAX), None);
}

#[test]
fn first_and_last_elements() {
    let bitmap = Bitmap::new(&[0b0000_0110], 3);
    assert_eq!(bitmap.first_cloned(), Some(false));
    assert_eq!(bitmap.last_cloned(), Some(true));
    let empty = Bitmap::new(&[], 0);
    assert_eq!(empty.first_cloned(), None);
    assert_eq!(empty.last_cloned(), None);
}

#[test]
fn split_at_every_index() {
    let bits = sample_bits(37);
    let (raw, array_len) = bits_to_bitmap(&bits);
    let bitmap = Bitmap::new(&raw, array_len);
    for mid in 0..=array_len {
        let (head, tail) = bitmap.split_at(mid);
        assert_eq!(head.len(), mid);
        assert_eq!(tail.len(), array_len - mid);
        assert_eq!(head.iter_cloned(), bits[..mid].to_vec());
        assert_eq!(tail.iter_cloned(), bits[mid..].to_vec());
        let mut joined = head.iter_cloned();
        joined.extend(tail.iter_cloned());
        assert_eq!(joined, bits);
    }
}

#[test]
fn split_inside_a_byte_shares_that_byte() {
    let raw = [0b1010_1100u8, 0b0000_0011];
    let bitmap = Bitmap::new(&raw, 10);
    let (head, tail) = bitmap.split_at(3);
    assert_eq!(head.raw_bytes(), &raw[..1]);
    assert_eq!(head.header_len(), 0);
    assert_eq!(head.trailer_len(), 5);
    assert_eq!(head.iter_cloned(), vec![false, false, true]);
    assert_eq!(tail.raw_bytes(), &raw[..]);
    assert_eq!(tail.header_len(), 3);
    assert_eq!(tail.trailer_len(), 6);
    assert_eq!(tail.iter_cloned(), vec![true, false, true, false, true, true, true]);
}

#[test]
fn split_of_a_split() {
    let bits = sample_bits(41);
    let (raw, array_len) = bits_to_bitmap(&bits);
    let bitmap = Bitmap::new(&raw, array_len);
    for first in 0..=array_len {
        let (head, tail) = bitmap.split_at(first);
        for second in 0..=head.len() {
            let (left, right) = head.split_at(second);
            assert_eq!(left.iter_cloned(), bits[..second].to_vec());
            assert_eq!(right.iter_cloned(), bits[second..first].to_vec());
        }
        for second in 0..=tail.len() {
            let (left, right) = tail.split_at(second);
            assert_eq!(left.iter_cloned(), bits[first..first + second].to_vec());
            assert_eq!(right.iter_cloned(), bits[first + second..].to_vec());
            for index in 0..right.len() {
                assert_eq!(right.get_cloned(index), Some(bits[first + second + index]));
            }
        }
    }
}

#[test]
fn split_of_empty_bitmap() {
    let bitmap = Bitmap::default();
    assert_eq!(bitmap.len(), 0);
    let (head, tail) = bitmap.split_at(0);
    assert!(head.is_empty());
    assert!(tail.is_empty());
    let (inner, rest) = Bitmap::new(&[0b0101_0101], 8).split_at(3);
    let (nothing, all) = rest.split_at(0);
    assert!(nothing.is_empty());
    assert_eq!(nothing.header_len() + nothing.trailer_len(), 8);
    assert_eq!(all.iter_cloned(), vec![false, true, false, true, false]);
    assert_eq!(inner.iter_cloned(), vec![true, false, true]);
}

#[test]
fn iterator_yields_each_element_then_none() {
    let bits = sample_bits(19);
    let (raw, array_len) = bits_to_bitmap(&bits);
    let bitmap = Bitmap::new(&raw, array_len);
    let mut iter = bitmap.iter();
    for bit in &bits {
        assert_eq!(iter.next(), Some(*bit));
    }
    assert_eq!(iter.next(), None);
    assert_eq!(iter.next(), None);
    // A new iterator starts over
    assert_eq!(bitmap.iter().next(), Some(bits[0]));
}

#[test]
fn bits_walks_all_bits_of_all_bytes() {
    let raw = [0b0000_0001u8, 0b1000_0000];
    let mut bits = Bits::new(&raw, 0);
    let mut seen = Vec::new();
    while let Some(bit) = bits.next() {
        seen.push(bit);
    }
    let mut expected = vec![false; 16];
    expected[0] = true;
    expected[15] = true;
    assert_eq!(seen, expected);
    assert_eq!(bits.next(), None);

    let mut late = Bits::new(&raw, 6);
    let mut rest = Vec::new();
    while let Some(bit) = late.next() {
        rest.push(bit);
    }
    assert_eq!(rest, expected[6..].to_vec());
    assert_eq!(Bits::new(&[], 0).next(), None);
    assert_eq!(Bits::new(&[], 5).next(), None);
}

#[test]
fn bitmaps_with_the_same_bits_are_equal() {
    let clean = Bitmap::new(&[0b0000_0101], 3);
    let dirty = Bitmap::new(&[0b1111_0101], 3);
    let other = Bitmap::new(&[0b0000_0111], 3);
    let longer = Bitmap::new(&[0b0000_0101], 4);
    assert!(clean == dirty);
    assert!(clean != other);
    assert!(clean != longer);
    let (_, tail) = Bitmap::new(&[0b0010_1000], 6).split_at(3);
    assert!(tail == clean);
    let bools: &[bool] = &[true, false, true];
    assert!(clean == bools);
    assert!(other != bools);
    assert!(longer != bools);
}

#[test]
fn bitmaps_are_ordered_lexicographically() {
    let empty = Bitmap::new(&[], 0);
    let f = Bitmap::new(&[0b0], 1);
    let t = Bitmap::new(&[0b1], 1);
    let tf = Bitmap::new(&[0b01], 2);
    let tt = Bitmap::new(&[0b11], 2);
    assert_eq!(empty.partial_cmp(&empty), Some(Ordering::Equal));
    assert_eq!(empty.partial_cmp(&f), Some(Ordering::Less));
    assert_eq!(f.partial_cmp(&empty), Some(Ordering::Greater));
    assert_eq!(f.partial_cmp(&t), Some(Ordering::Less));
    assert_eq!(t.partial_cmp(&f), Some(Ordering::Greater));
    assert_eq!(t.partial_cmp(&tf), Some(Ordering::Less));
    assert_eq!(tf.partial_cmp(&tt), Some(Ordering::Less));
    assert_eq!(tt.partial_cmp(&tf), Some(Ordering::Greater));
    assert_eq!(tf.partial_cmp(&Bitmap::new(&[0b1101], 2)), Some(Ordering::Equal));
    assert!(f < t);
    assert!(tt > t);
    assert!(f > empty);
}

#[test]
fn equal_bitmaps_hash_alike() {
    let clean = Bitmap::new(&[0b0000_0101], 3);
    let dirty = Bitmap::new(&[0b1111_0101], 3);
    let (_, tail) = Bitmap::new(&[0b0010_1000], 6).split_at(3);
    assert_eq!(hash_of(&clean), hash_of(&dirty));
    assert_eq!(hash_of(&clean), hash_of(&tail));
    let mut expected = DefaultHasher::new();
    expected.write_usize(3);
    true.hash(&mut expected);
    false.hash(&mut expected);
    true.hash(&mut expected);
    assert_eq!(hash_of(&clean), expected.finish());
    assert_ne!(hash_of(&clean), hash_of(&Bitmap::new(&[0b0000_0101], 4)));
    assert_ne!(hash_of(&clean), hash_of(&Bitmap::new(&[0b0000_0111], 3)));
    assert_ne!(hash_of(&Bitmap::new(&[], 0)), hash_of(&Bitmap::new(&[0], 1)));
}

#[test]
fn split_beyond_the_end_fails() {
    let bitmap = Bitmap::new(&[0x05], 3);
    assert!(bitmap.checked_split_at(5).is_none());
    assert!(bitmap.checked_split_at(4).is_none());
    assert!(bitmap.checked_split_at(usize::MAX).is_none());
    let (head, tail) = bitmap.checked_split_at(3).expect("the end is in bounds");
    assert_eq!(head.iter_cloned(), vec![true, false, true]);
    assert!(tail.is_empty());
    let (head, tail) = bitmap.checked_split_at(1).unwrap();
    assert_eq!(head.iter_cloned(), vec![true]);
    assert_eq!(tail.iter_cloned(), vec![false, true]);
    assert!(tail.checked_split_at(3).is_none());
}

#[test]
fn bitmap_hash_feed_and_order_against_bools() {
    let bitmap = Bitmap::new(&[0b1111_0101], 3);
    assert_eq!(bitmap.hash_feed(), (3, vec![true, false, true]));
    assert_eq!(Bitmap::new(&[], 0).hash_feed(), (0, vec![]));
    let same: &[bool] = &[true, false, true];
    let less: &[bool] = &[true, false];
    let more: &[bool] = &[true, true];
    assert_eq!(bitmap.partial_cmp(&same), Some(Ordering::Equal));
    assert_eq!(bitmap.partial_cmp(&less), Some(Ordering::Greater));
    assert_eq!(bitmap.partial_cmp(&more), Some(Ordering::Less));
    assert!(bitmap < more);
    assert!(bitmap > less);
}

#[test]
fn bitmap_compares_with_any_boolean_slice() {
    let bitmap = Bitmap::new(&[0b0000_0111], 3);
    assert!(bitmap == ConstBoolSlice::<true>::new(3));
    assert!(bitmap != ConstBoolSlice::<true>::new(4));
    assert!(bitmap != ConstBoolSlice::<false>::new(3));
    assert!(bitmap == UniformSlice::new(true, 3));
    assert!(bitmap == ValiditySlice::new(&[0b1111_0111], 3));
    assert!(bitmap == OptimizedValiditySlice::<Bitmap>::AllValid(ConstBoolSlice::<true>::new(3)));
    assert!(bitmap < ConstBoolSlice::<true>::new(4));
    assert!(bitmap > ConstBoolSlice::<true>::new(2));
    assert!(bitmap > ConstBoolSlice::<false>::new(5));
    assert_eq!(bitmap.partial_cmp(&UniformSlice::new(true, 3)), Some(Ordering::Equal));
    let (head, tail) = Bitmap::new(&[0b0101_1010], 8).split_at(3);
    let flags: &[bool] = &[false, true, false, true, true, false, true, false];
    assert!(head == &flags[..3]);
    assert!(tail == &flags[3..]);
    assert!(tail > head);
    assert_eq!(head.partial_cmp(&tail), Some(Ordering::Less));
}

#[test]
fn validity_slices_compare_by_validities() {
    let validity = ValiditySlice::new(&[0b0000_0101], 3);
    assert!(validity == ValiditySlice::new(&[0b1111_1101], 3));
    assert!(validity != ValiditySlice::new(&[0b0000_0101], 4));
    assert!(validity != ValiditySlice::new(&[0b0000_0111], 3));
    assert!(validity < ValiditySlice::new(&[0b0000_0111], 3));
    assert!(validity < ValiditySlice::new(&[0b0000_0101], 4));
    assert!(validity > ValiditySlice::new(&[0b0000_0001], 3));
    assert_eq!(
        validity.partial_cmp(&ValiditySlice::new(&[0b0000_0101], 3)),
        Some(Ordering::Equal)
    );
}
