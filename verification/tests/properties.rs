use arrow_typing::bitmap::Bitmap;
use arrow_typing::element::list::{ListSlice, OffsetSublists, SublistSlice};
use arrow_typing::element::option::OptionSlice;
use arrow_typing::element::Slice;
use proptest::collection;
use proptest::strategy::Strategy;
use proptest::test_runner::{Config, RngAlgorithm, TestCaseError, TestRng, TestRunner};

/// Runs each property on the same inputs every time
fn runner() -> TestRunner {
    let config = Config {
        failure_persistence: None,
        ..Config::default()
    };
    TestRunner::new_with_rng(config, TestRng::deterministic_rng(RngAlgorithm::ChaCha))
}

/// Check `property` on inputs drawn from `strategy`
fn check<S: Strategy>(strategy: S, property: impl Fn(S::Value)) {
    let result = runner().run(&strategy, |input| -> Result<(), TestCaseError> {
        property(input);
        Ok(())
    });
    if let Err(failure) = result {
        panic!("{}", failure);
    }
}

/// Sequences of booleans of all sorts of lengths
fn any_bits() -> impl Strategy<Value = Vec<bool>> {
    collection::vec(proptest::bool::ANY, 0..300)
}

/// Pack booleans into bytes, least significant bit first
fn pack(bits: &[bool]) -> Vec<u8> {
    bits.chunks(8)
        .map(|chunk| {
            let mut byte = 0u8;
            for (idx, bit) in chunk.iter().enumerate() {
                byte |= (*bit as u8) << idx;
            }
            byte
        })
        .collect()
}

#[test]
fn packed_booleans_come_back() {
    check(any_bits(), |bits| {
        let raw = pack(&bits);
        let bitmap = Bitmap::new(&raw, bits.len());
        assert_eq!(bitmap.len(), bits.len());
        assert_eq!(bitmap.is_empty(), bits.is_empty());
        assert_eq!(bitmap.iter_cloned(), bits);
        let mut iter = bitmap.iter();
        for bit in &bits {
            assert_eq!(iter.next(), Some(*bit));
        }
        assert_eq!(iter.next(), None);
        assert!(bitmap == &bits[..]);
    });
}

#[test]
fn bitmap_init() {
    let building_blocks = (collection::vec(proptest::num::u8::ANY, 0..40), 0usize..400);
    check(building_blocks, |(raw, array_len)| {
        let result = Bitmap::try_new(&raw, array_len);
        if raw.len() != (array_len + 7) / 8 {
            assert!(result.is_none());
            return;
        }
        let bitmap = result.expect("sizes match");
        assert_eq!(bitmap.len(), array_len);
        assert_eq!(bitmap.is_empty(), array_len == 0);
        let bits = bitmap.iter_cloned();
        assert_eq!(bits.len(), array_len);
        for (idx, bit) in bits.into_iter().enumerate() {
            assert_eq!(bit, raw[idx / 8] & (1 << (idx % 8)) != 0);
        }
    });
}

#[test]
fn bitmap_index() {
    check((any_bits(), 0usize..400), |(bits, index)| {
        let raw = pack(&bits);
        let bitmap = Bitmap::new(&raw, bits.len());
        assert_eq!(bitmap.get_cloned(index), bits.get(index).copied());
        if index < bits.len() {
            assert_eq!(bitmap.get_cloned_unchecked(index), bits[index]);
            assert_eq!(bitmap.at(index), bits[index]);
            assert_eq!(bitmap.get_cloned(index), Some(bitmap.iter_cloned()[index]));
        }
    });
}

#[test]
fn bitmap_split_at() {
    check((any_bits(), 0usize..400, 0usize..400), |(bits, first, second)| {
        let raw = pack(&bits);
        let bitmap = Bitmap::new(&raw, bits.len());
        if first > bits.len() {
            return;
        }
        let (bitmap_head, bitmap_tail) = bitmap.split_at(first);
        let (bits_head, bits_tail) = bits.split_at(first);
        assert_eq!(bitmap_head.len(), first);
        assert_eq!(bitmap_tail.len(), bits.len() - first);
        assert!(bitmap_head == bits_head);
        assert!(bitmap_tail == bits_tail);
        let mut joined = bitmap_head.iter_cloned();
        joined.extend(bitmap_tail.iter_cloned());
        assert_eq!(joined, bits);
        if second <= bits_tail.len() {
            let (left, right) = bitmap_tail.split_at(second);
            assert!(left == &bits_tail[..second]);
            assert!(right == &bits_tail[second..]);
        }
    });
}

#[test]
fn option_slice_consistency_and_elements() {
    let columns = (
        collection::vec(proptest::num::i32::ANY, 0..50),
        collection::vec(proptest::bool::ANY, 0..50),
    );
    check(columns, |(values, is_valid)| {
        let slice = OptionSlice {
            values: &values[..],
            is_valid: &is_valid[..],
        };
        assert_eq!(slice.is_consistent(), values.len() == is_valid.len());
        if !slice.is_consistent() {
            assert_eq!(slice.get_cloned(0), None);
            return;
        }
        let elements = slice.iter_cloned();
        assert_eq!(elements.len(), values.len());
        for index in 0..values.len() {
            assert_eq!(elements[index], is_valid[index].then(|| values[index]));
            assert_eq!(slice.get_cloned(index), Some(elements[index]));
        }
        let packed = pack(&is_valid);
        let read = OptionSlice {
            values: &values[..],
            is_valid: Bitmap::new(&packed, is_valid.len()),
        };
        assert_eq!(read.iter_cloned(), elements);
    });
}

#[test]
fn list_slice_sum_law() {
    let columns = (collection::vec(0usize..9, 0..30), 0usize..120, 0usize..40);
    check(columns, |(lengths, num_items, mid)| {
        let items: Vec<u16> = (0..num_items as u16).collect();
        let slice = ListSlice {
            items: &items[..],
            lists: &lengths[..],
        };
        let total: usize = lengths.iter().sum();
        assert_eq!(slice.is_consistent(), total == num_items);
        if !slice.is_consistent() {
            return;
        }
        let sublists = slice.iter_cloned();
        assert_eq!(sublists.len(), lengths.len());
        let mut joined = Vec::new();
        for (index, sublist) in sublists.iter().enumerate() {
            assert_eq!(sublist.len(), lengths[index]);
            assert_eq!(slice.get_cloned(index), Some(*sublist));
            joined.extend_from_slice(sublist);
        }
        assert_eq!(joined, items);
        if mid <= lengths.len() {
            let (left, right) = slice.split_at(mid);
            assert!(left.is_consistent());
            assert!(right.is_consistent());
            assert_eq!(left.iter_cloned(), sublists[..mid].to_vec());
            assert_eq!(right.iter_cloned(), sublists[mid..].to_vec());
        }
    });
}

#[test]
fn offsets_behave_like_lengths() {
    let columns = (
        collection::vec(0usize..9, 0..30),
        -50i32..50,
        0usize..40,
        0usize..40,
    );
    check(columns, |(lengths, base, first, second)| {
        let mut offsets = Vec::new();
        let mut offset = base;
        for len in &lengths {
            offsets.push(offset);
            offset += *len as i32;
        }
        let total: usize = lengths.iter().sum();
        let sublists = OffsetSublists::new(&offsets[..], total);
        assert!(sublists.is_consistent());
        assert_eq!(sublists.iter_sublists_len_validity(), lengths);
        assert_eq!(sublists.total_items(), total);
        let items: Vec<u16> = (0..total as u16).collect();
        let by_lengths = ListSlice {
            items: &items[..],
            lists: &lengths[..],
        };
        let by_offsets = ListSlice {
            items: &items[..],
            lists: sublists,
        };
        assert!(by_offsets.is_consistent());
        assert_eq!(by_offsets.iter_cloned(), by_lengths.iter_cloned());
        if first > lengths.len() {
            return;
        }
        let (_, tail) = by_offsets.split_at(first);
        let (_, tail_by_lengths) = by_lengths.split_at(first);
        assert_eq!(tail.iter_cloned(), tail_by_lengths.iter_cloned());
        if second > tail.len() {
            return;
        }
        let (middle, last) = tail.split_at(second);
        let (middle_by_lengths, last_by_lengths) = tail_by_lengths.split_at(second);
        assert!(middle.is_consistent());
        assert!(last.is_consistent());
        assert_eq!(middle.iter_cloned(), middle_by_lengths.iter_cloned());
        assert_eq!(last.iter_cloned(), last_by_lengths.iter_cloned());
        for index in 0..last.len() {
            assert_eq!(last.get_cloned(index), last_by_lengths.get_cloned(index));
        }
    });
}
