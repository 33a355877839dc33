use arrow_typing::bitmap::Bitmap;
use arrow_typing::builder::backend::list::{sublists_to_push, values_to_append};
use arrow_typing::builder::backend::ExtendError;
use arrow_typing::element::list::{
    ApplyValidity, LenValidity, ListLength, ListSlice, OffsetLen, OffsetSize, OffsetSublists,
    SublistLenValidity, SublistSlice,
};
use arrow_typing::element::option::OptionSlice;
use arrow_typing::element::Slice;
use std::cmp::Ordering;

#[test]
fn list_slice_with_explicit_lengths() {
    let items: &[i32] = &[1, 2, 3, 4, 5];
    let lists: &[usize] = &[2, 0, 3];
    let slice = ListSlice { items, lists };
    assert!(slice.is_consistent());
    assert_eq!(slice.len(), 3);
    let expected: Vec<&[i32]> = vec![&[1, 2], &[], &[3, 4, 5]];
    assert_eq!(slice.iter_cloned(), expected);
    let (head, tail) = slice.split_at(1);
    assert_eq!(head.items, &[1, 2]);
    assert_eq!(head.lists, &[2]);
    assert_eq!(tail.items, &[3, 4, 5]);
    assert_eq!(tail.lists, &[0, 3]);
}

#[test]
fn list_slice_random_access() {
    let items: &[u8] = &[1, 2, 3, 4, 5, 6];
    let lists: &[usize] = &[1, 3, 0, 2];
    let slice = ListSlice { items, lists };
    assert_eq!(slice.get_cloned(0), Some(&items[0..1]));
    assert_eq!(slice.get_cloned(1), Some(&items[1..4]));
    assert_eq!(slice.get_cloned(2), Some(&items[4..4]));
    assert_eq!(slice.get_cloned(3), Some(&items[4..6]));
    assert_eq!(slice.get_cloned(4), None);
    assert_eq!(slice.at(3), &[5, 6]);
    assert_eq!(slice.first_cloned(), Some(&items[0..1]));
    assert_eq!(slice.last_cloned(), Some(&items[4..6]));
    let iterated = slice.iter_cloned();
    for index in 0..4 {
        assert_eq!(slice.get_cloned_unchecked(index), iterated[index]);
    }
}

#[test]
fn list_slice_is_consistent_iff_lengths_add_up() {
    let items: &[u8] = &[1, 2, 3, 4, 5];
    let cases: [(&[usize], bool); 8] = [
        (&[2, 0, 3], true),
        (&[5], true),
        (&[1, 1, 1, 1, 1], true),
        (&[0, 0, 5, 0], true),
        (&[2, 2], false),
        (&[3, 3], false),
        (&[], false),
        (&[usize::MAX, 6], false),
    ];
    for (lists, consistent) in cases {
        let slice = ListSlice { items, lists };
        assert_eq!(slice.is_consistent(), consistent);
        if !consistent {
            assert_eq!(slice.get_cloned(0), None);
        }
    }
    let nothing: &[u8] = &[];
    let no_lists: &[usize] = &[];
    assert!(ListSlice { items: nothing, lists: no_lists }.is_consistent());
    let empty_lists: &[usize] = &[0, 0];
    assert!(ListSlice { items: nothing, lists: empty_lists }.is_consistent());
}

#[test]
fn sublists_laid_end_to_end_are_the_items() {
    let items: Vec<u16> = (0..40).collect();
    let lists: &[usize] = &[3, 0, 0, 10, 7, 1, 19, 0];
    let slice = ListSlice { items: &items[..], lists };
    assert!(slice.is_consistent());
    let mut joined = Vec::new();
    for sublist in slice.iter_cloned() {
        joined.extend_from_slice(sublist);
    }
    assert_eq!(joined, items);

    let option_lists: &[Option<usize>] = &[Some(3), None, Some(0), Some(17), None, Some(20)];
    let slice = ListSlice { items: &items[..], lists: option_lists };
    assert!(slice.is_consistent());
    let mut joined = Vec::new();
    for sublist in slice.iter_cloned() {
        if let Some(sublist) = sublist {
            joined.extend_from_slice(sublist);
        }
    }
    assert_eq!(joined, items);
}

#[test]
fn list_slice_split_at_every_index() {
    let items: &[u8] = &[1, 2, 3, 4, 5, 6];
    let lists: &[usize] = &[1, 3, 0, 2];
    let slice = ListSlice { items, lists };
    let all = slice.iter_cloned();
    let offsets = [0, 1, 4, 4, 6];
    for mid in 0..=4 {
        let (left, right) = slice.split_at(mid);
        assert!(left.is_consistent());
        assert!(right.is_consistent());
        assert_eq!(left.items, &items[..offsets[mid]]);
        assert_eq!(right.items, &items[offsets[mid]..]);
        assert_eq!(left.lists, &lists[..mid]);
        assert_eq!(right.lists, &lists[mid..]);
        assert_eq!(left.iter_cloned(), all[..mid].to_vec());
        assert_eq!(right.iter_cloned(), all[mid..].to_vec());
    }
}

#[test]
fn list_slice_with_optional_lengths() {
    let items: &[i8] = &[-1, -2, -3];
    let lists: &[Option<usize>] = &[None, Some(2), Some(0), None, Some(1)];
    let slice = ListSlice { items, lists };
    assert!(slice.is_consistent());
    assert_eq!(slice.len(), 5);
    let expected: Vec<Option<&[i8]>> =
        vec![None, Some(&[-1, -2]), Some(&[]), None, Some(&[-3])];
    assert_eq!(slice.iter_cloned(), expected);
    assert_eq!(slice.get_cloned(0), Some(None));
    assert_eq!(slice.get_cloned(1), Some(Some(&items[..2])));
    assert_eq!(slice.get_cloned(4), Some(Some(&items[2..])));
    assert_eq!(slice.get_cloned(5), None);
    let (left, right) = slice.split_at(2);
    assert_eq!(left.items, &[-1, -2]);
    assert_eq!(left.lists, &[None, Some(2)]);
    assert_eq!(right.items, &[-3]);
    assert_eq!(right.lists, &[Some(0), None, Some(1)]);
    let too_long: &[Option<usize>] = &[Some(2), None, Some(2)];
    assert!(!ListSlice { items, lists: too_long }.is_consistent());
    let overflowing: &[Option<usize>] = &[Some(usize::MAX), None, Some(4)];
    assert!(!ListSlice { items, lists: overflowing }.is_consistent());
}

#[test]
fn list_slice_of_option_slices() {
    let values: &[u8] = &[1, 2, 3, 4];
    let is_valid: &[bool] = &[true, false, false, true];
    let lists: &[usize] = &[3, 1];
    let slice = ListSlice { items: OptionSlice { values, is_valid }, lists };
    assert!(slice.is_consistent());
    let sublists = slice.iter_cloned();
    assert_eq!(sublists.len(), 2);
    assert_eq!(sublists[0].iter_cloned(), vec![Some(1), None, None]);
    assert_eq!(sublists[1].iter_cloned(), vec![Some(4)]);
    let inconsistent = ListSlice { items: OptionSlice { values, is_valid: &is_valid[..3] }, lists };
    assert!(!inconsistent.is_consistent());
}

#[test]
fn list_slice_of_list_slices() {
    let items: &[u8] = &[1, 2, 3, 4, 5, 6];
    let inner: &[usize] = &[1, 2, 0, 3];
    let outer: &[usize] = &[3, 1];
    let slice = ListSlice { items: ListSlice { items, lists: inner }, lists: outer };
    assert!(slice.is_consistent());
    let lists = slice.iter_cloned();
    assert_eq!(lists.len(), 2);
    let first: Vec<&[u8]> = vec![&[1], &[2, 3], &[]];
    let second: Vec<&[u8]> = vec![&[4, 5, 6]];
    assert_eq!(lists[0].iter_cloned(), first);
    assert_eq!(lists[1].iter_cloned(), second);
    assert_eq!(slice.at(1).iter_cloned(), second);
}

#[test]
fn sublist_layout_from_lengths() {
    let lists: &[usize] = &[4, 0, 2];
    assert_eq!(lists.checked_total_items(), Some(6));
    assert_eq!(lists.total_items(), 6);
    assert_eq!(lists.get_sublist_unchecked(0), (0, 4));
    assert_eq!(lists.get_sublist_unchecked(1), (4, 0));
    assert_eq!(lists.sublist_at(2), (4, 2));
    assert_eq!(lists.iter_sublists_len_validity(), vec![4, 0, 2]);
    let (left, right) = lists.split_sublists_at(1);
    assert_eq!(left, &[4]);
    assert_eq!(right, &[0, 2]);
    let huge: &[usize] = &[usize::MAX, 1];
    assert_eq!(huge.checked_total_items(), None);
    let just_fits: &[usize] = &[usize::MAX - 1, 1];
    assert_eq!(just_fits.checked_total_items(), Some(usize::MAX));

    let lists: &[Option<usize>] = &[Some(4), None, Some(2)];
    assert_eq!(lists.checked_total_items(), Some(6));
    assert_eq!(lists.get_sublist_unchecked(0), (0, LenValidity::new(4, true)));
    assert_eq!(lists.get_sublist_unchecked(1), (4, LenValidity::new(0, false)));
    assert_eq!(lists.sublist_at(2), (4, LenValidity::new(2, true)));
    assert_eq!(
        lists.iter_sublists_len_validity(),
        vec![LenValidity::new(4, true), LenValidity::new(0, false), LenValidity::new(2, true)]
    );
}

#[test]
fn len_validity_from_option_len() {
    let valid = LenValidity::from_option_len(Some(3));
    assert_eq!(valid.len(), 3);
    assert!(valid.is_valid());
    assert!(!valid.is_empty());
    assert_eq!(valid.apply_validity(7u8), Some(7));
    let null = LenValidity::from_option_len(None);
    assert_eq!(null.len(), 0);
    assert!(!null.is_valid());
    assert!(null.is_empty());
    assert_eq!(null.apply_validity(7u8), None);
    assert_eq!(LenValidity::from_option_len(Some(0)), LenValidity::new(0, true));
    assert_ne!(LenValidity::from_option_len(Some(0)), null);
    assert_eq!(SublistLenValidity::len(&5usize), 5);
    assert!(SublistLenValidity::is_empty(&0usize));
    assert_eq!(5usize.apply_validity(9u8), 9);
}

#[test]
fn offset_size_distances() {
    assert_eq!(7i32.items_since(&3), Some(4));
    assert_eq!(3i32.items_since(&7), None);
    assert_eq!(i32::MAX.items_since(&i32::MIN), Some(u32::MAX as usize));
    assert_eq!((-3i32).items_since(&-3), Some(0));
    assert!(3i32.is_at_most(&3));
    assert!(!4i32.is_at_most(&3));
    assert_eq!(7i64.items_since(&3), Some(4));
    assert_eq!(3i64.items_since(&7), None);
    assert_eq!(i64::MAX.items_since(&0), Some(i64::MAX as usize));
    assert_eq!(i64::MAX.items_since(&i64::MIN), Some(usize::MAX));
    assert!((-4i64).is_at_most(&3));
}

#[test]
fn offset_sublists_consistency() {
    let cases: [(&[i32], usize, bool); 12] = [
        (&[], 0, true),
        (&[], 1, false),
        (&[0], 0, true),
        (&[0], 5, true),
        (&[0, 2, 2, 5], 5, true),
        (&[0, 2, 2, 5], 9, true),
        (&[0, 2, 2, 5], 4, false),
        (&[0, 2, 1, 5], 5, false),
        (&[5, 2], 5, false),
        (&[3, 5, 8], 5, true),
        (&[3, 5, 8], 4, false),
        (&[-4, -4, 0], 4, true),
    ];
    for (offsets, total_items, consistent) in cases {
        assert_eq!(OffsetSublists::new(offsets, total_items).is_consistent(), consistent);
    }
    let extreme: &[i32] = &[i32::MIN, i32::MAX];
    assert!(OffsetSublists::new(extreme, u32::MAX as usize).is_consistent());
    assert!(!OffsetSublists::new(extreme, u32::MAX as usize - 1).is_consistent());
    let extreme: &[i64] = &[i64::MIN, i64::MAX];
    assert!(OffsetSublists::new(extreme, usize::MAX).is_consistent());
    assert!(!OffsetSublists::new(extreme, usize::MAX - 1).is_consistent());
}

#[test]
fn offset_sublists_elements() {
    let offsets: &[i32] = &[0, 2, 2, 5];
    let sublists = OffsetSublists::new(offsets, 7);
    assert_eq!(sublists.len(), 4);
    assert_eq!(sublists.get_cloned(0), Some(OffsetLen { offset: 0, len: 2 }));
    assert_eq!(sublists.get_cloned(1), Some(OffsetLen { offset: 2, len: 0 }));
    assert_eq!(sublists.get_cloned(2), Some(OffsetLen { offset: 2, len: 3 }));
    assert_eq!(sublists.get_cloned(3), Some(OffsetLen { offset: 5, len: 2 }));
    assert_eq!(sublists.get_cloned(4), None);
    assert_eq!(
        sublists.iter_cloned(),
        vec![
            OffsetLen { offset: 0, len: 2 },
            OffsetLen { offset: 2, len: 0 },
            OffsetLen { offset: 2, len: 3 },
            OffsetLen { offset: 5, len: 2 },
        ]
    );
    assert_eq!(sublists.total_items(), 7);
    assert_eq!(sublists.checked_total_items(), Some(7));
    assert_eq!(sublists.get_sublist_unchecked(2), (2, 3));
    assert_eq!(sublists.sublist_at(3), (5, 2));
    assert_eq!(sublists.iter_sublists_len_validity(), vec![2, 0, 3, 2]);
    assert_eq!(OffsetSublists::new(offsets, 4).get_cloned(0), None);
}

#[test]
fn offset_sublists_count_from_the_first_offset() {
    let offsets: &[i64] = &[10, 13, 13, 20];
    let sublists = OffsetSublists::new(offsets, 12);
    assert!(sublists.is_consistent());
    assert_eq!(
        sublists.iter_cloned(),
        vec![
            OffsetLen { offset: 0, len: 3 },
            OffsetLen { offset: 3, len: 0 },
            OffsetLen { offset: 3, len: 7 },
            OffsetLen { offset: 10, len: 2 },
        ]
    );
    let below_zero: &[i32] = &[-5, -2, 4];
    let sublists = OffsetSublists::new(below_zero, 9);
    assert!(sublists.is_consistent());
    assert_eq!(sublists.iter_sublists_len_validity(), vec![3, 6, 0]);
    assert_eq!(sublists.get_sublist_unchecked(2), (9, 0));
}

#[test]
fn offset_sublists_split() {
    let offsets: &[i32] = &[0, 2, 2, 5];
    let sublists = OffsetSublists::new(offsets, 7);
    let lens = sublists.iter_sublists_len_validity();
    let item_offsets = [0, 2, 2, 5, 7];
    for mid in 0..=4 {
        let (left, right) = sublists.split_at(mid);
        assert!(left.is_consistent());
        assert!(right.is_consistent());
        assert_eq!(left.len(), mid);
        assert_eq!(right.len(), 4 - mid);
        assert_eq!(left.total_items(), item_offsets[mid]);
        assert_eq!(right.total_items(), 7 - item_offsets[mid]);
        assert_eq!(left.iter_sublists_len_validity(), lens[..mid].to_vec());
        assert_eq!(right.iter_sublists_len_validity(), lens[mid..].to_vec());
        for index in 0..right.len() {
            let element = right.get_cloned_unchecked(index);
            assert_eq!(element.offset, item_offsets[mid + index] - item_offsets[mid]);
            assert_eq!(element.len, lens[mid + index]);
        }
    }
}

#[test]
fn offset_sublists_split_twice_in_a_row() {
    let offsets: &[i32] = &[0, 1, 4, 4, 9, 12];
    let sublists = OffsetSublists::new(offsets, 15);
    let lens = vec![1usize, 3, 0, 5, 3, 3];
    assert_eq!(sublists.iter_sublists_len_validity(), lens);
    for first in 0..=6 {
        let (head, tail) = sublists.split_at(first);
        for second in 0..=tail.len() {
            let (left, right) = tail.split_at(second);
            assert!(left.is_consistent());
            assert!(right.is_consistent());
            assert_eq!(left.iter_sublists_len_validity(), lens[first..first + second].to_vec());
            assert_eq!(right.iter_sublists_len_validity(), lens[first + second..].to_vec());
            let mut offset = 0;
            for (index, element) in right.iter_cloned().into_iter().enumerate() {
                assert_eq!(element.offset, offset);
                assert_eq!(element.len, lens[first + second + index]);
                offset += element.len;
            }
            assert_eq!(right.total_items(), offset);
        }
        for second in 0..=head.len() {
            let (left, right) = head.split_at(second);
            assert_eq!(left.iter_sublists_len_validity(), lens[..second].to_vec());
            assert_eq!(right.iter_sublists_len_validity(), lens[second..first].to_vec());
        }
    }
}

#[test]
fn list_slice_with_offsets() {
    let items: &[u8] = &[10, 11, 12, 13, 14, 15, 16];
    let offsets: &[i32] = &[0, 2, 2, 5];
    let slice = ListSlice { items, lists: OffsetSublists::new(offsets, 7) };
    assert!(slice.is_consistent());
    let expected: Vec<&[u8]> = vec![&[10, 11], &[], &[12, 13, 14], &[15, 16]];
    assert_eq!(slice.iter_cloned(), expected);
    assert_eq!(slice.get_cloned(2), Some(&items[2..5]));
    let (left, right) = slice.split_at(2);
    assert_eq!(left.items, &items[..2]);
    assert_eq!(right.items, &items[2..]);
    assert_eq!(left.iter_cloned(), expected[..2].to_vec());
    assert_eq!(right.iter_cloned(), expected[2..].to_vec());
    let (middle, last) = right.split_at(1);
    assert_eq!(middle.iter_cloned(), expected[2..3].to_vec());
    assert_eq!(last.iter_cloned(), expected[3..].to_vec());
    assert_eq!(last.get_cloned(0), Some(&items[5..]));
    let (everything, nothing) = slice.split_at(4);
    assert_eq!(everything.iter_cloned(), expected);
    assert!(nothing.is_empty());
    assert!(nothing.is_consistent());
    assert!(!ListSlice { items: &items[..6], lists: OffsetSublists::new(offsets, 7) }.is_consistent());
    assert!(!ListSlice { items, lists: OffsetSublists::new(offsets, 6) }.is_consistent());
}

#[test]
fn list_slice_with_offsets_and_validity() {
    let items: &[u8] = &[10, 11, 12, 13];
    let offsets: &[i64] = &[0, 2, 2, 2];
    let values = OffsetSublists::new(offsets, 4);
    let lists = OptionSlice { values, is_valid: Bitmap::new(&[0b0000_1011], 4) };
    assert!(lists.is_consistent());
    assert!(lists.is_contiguous());
    assert_eq!(lists.checked_total_items(), Some(4));
    assert_eq!(lists.get_sublist_unchecked(2), (2, LenValidity::new(0, false)));
    assert_eq!(lists.get_sublist_unchecked(3), (2, LenValidity::new(2, true)));
    assert_eq!(
        lists.iter_sublists_len_validity(),
        vec![
            LenValidity::new(2, true),
            LenValidity::new(0, true),
            LenValidity::new(0, false),
            LenValidity::new(2, true),
        ]
    );
    let slice = ListSlice { items, lists };
    assert!(slice.is_consistent());
    let expected: Vec<Option<&[u8]>> = vec![Some(&[10, 11]), Some(&[]), None, Some(&[12, 13])];
    assert_eq!(slice.iter_cloned(), expected);
    assert_eq!(slice.get_cloned(2), Some(None));
    assert_eq!(slice.get_cloned(3), Some(Some(&items[2..])));
    let (left, right) = slice.split_at(3);
    assert_eq!(left.iter_cloned(), expected[..3].to_vec());
    assert_eq!(right.iter_cloned(), expected[3..].to_vec());
    assert_eq!(right.items, &items[2..]);
    let short = OptionSlice { values, is_valid: Bitmap::new(&[0b0000_1011], 3) };
    assert!(!ListSlice { items, lists: short }.is_consistent());
}

#[test]
fn null_sublists_hold_no_items() {
    let offsets: &[i32] = &[0];
    let values = OffsetSublists::new(offsets, 2);
    let is_valid: &[bool] = &[false];
    let lists = OptionSlice { values, is_valid };
    assert!(lists.is_consistent());
    assert_eq!(lists.checked_total_items(), Some(0));
    assert_eq!(lists.total_items(), 0);
    assert_eq!(lists.iter_sublists_len_validity(), vec![LenValidity::new(0, false)]);
    assert!(!lists.is_contiguous());
    let two: &[u8] = &[1, 2];
    assert!(!ListSlice { items: two, lists }.is_consistent());
    let none: &[u8] = &[];
    assert!(!ListSlice { items: none, lists }.is_consistent());

    let empty_null = OptionSlice { values: OffsetSublists::new(offsets, 0), is_valid };
    assert!(empty_null.is_contiguous());
    assert_eq!(empty_null.checked_total_items(), Some(0));
    let slice = ListSlice { items: none, lists: empty_null };
    assert!(slice.is_consistent());
    assert_eq!(slice.iter_cloned(), vec![None::<&[u8]>]);
}

#[test]
fn null_sublist_that_spans_items_breaks_the_layout() {
    let items: &[u8] = &[10, 11, 12, 13, 14, 15, 16];
    let offsets: &[i64] = &[0, 2, 2, 5];
    let values = OffsetSublists::new(offsets, 7);
    let lists = OptionSlice { values, is_valid: Bitmap::new(&[0b0000_1011], 4) };
    assert!(lists.is_consistent());
    assert!(!lists.is_contiguous());
    assert_eq!(lists.checked_total_items(), Some(4));
    assert_eq!(
        lists.iter_sublists_len_validity(),
        vec![
            LenValidity::new(2, true),
            LenValidity::new(0, true),
            LenValidity::new(0, false),
            LenValidity::new(2, true),
        ]
    );
    assert!(!ListSlice { items, lists }.is_consistent());
    assert!(!ListSlice { items: &items[..4], lists }.is_consistent());
    let all_valid = OptionSlice { values, is_valid: Bitmap::new(&[0b0000_1111], 4) };
    assert!(all_valid.is_contiguous());
    assert_eq!(all_valid.checked_total_items(), Some(7));
    assert!(ListSlice { items, lists: all_valid }.is_consistent());
}

#[test]
fn list_lengths() {
    assert_eq!(7usize.as_len(), 7);
    assert_eq!(7usize.len_validity(), 7);
    assert_eq!(Some(7usize).as_len(), 7);
    assert_eq!(Some(7usize).len_validity(), LenValidity::new(7, true));
    assert_eq!(Some(0usize).len_validity(), LenValidity::new(0, true));
    assert_eq!(None::<usize>.as_len(), 0);
    assert_eq!(None::<usize>.len_validity(), LenValidity::new(0, false));
}

#[test]
fn bulk_insertion_of_lists_is_validated() {
    let items: &[u8] = &[1, 2, 3, 4, 5];
    let lists: &[usize] = &[2, 0, 3];
    let expected: Vec<&[u8]> = vec![&[1, 2], &[], &[3, 4, 5]];
    assert_eq!(sublists_to_push(&ListSlice { items, lists }), Ok(expected));
    let short: &[usize] = &[2, 0, 2];
    assert_eq!(
        sublists_to_push(&ListSlice { items, lists: short }),
        Err(ExtendError::SublistLengthMismatch)
    );
    let long: &[Option<usize>] = &[Some(2), None, Some(4)];
    assert_eq!(
        sublists_to_push(&ListSlice { items, lists: long }),
        Err(ExtendError::SublistLengthMismatch)
    );
    let fitting: &[Option<usize>] = &[Some(2), None, Some(3)];
    let expected: Vec<Option<&[u8]>> = vec![Some(&[1, 2]), None, Some(&[3, 4, 5])];
    assert_eq!(sublists_to_push(&ListSlice { items, lists: fitting }), Ok(expected));
}

#[test]
fn bulk_insertion_of_options_is_validated() {
    let values: &[u8] = &[1, 2, 3];
    let is_valid: &[bool] = &[true, false, true];
    assert_eq!(
        values_to_append(&OptionSlice { values, is_valid }),
        Ok((values, is_valid))
    );
    assert_eq!(
        values_to_append(&OptionSlice { values, is_valid: &is_valid[..2] }),
        Err(ExtendError::ValidityLengthMismatch)
    );
    assert_eq!(
        values_to_append(&OptionSlice { values: &values[..1], is_valid }),
        Err(ExtendError::ValidityLengthMismatch)
    );
}

#[test]
fn offset_sublists_from_arrow_offsets() {
    let offsets: &[i32] = &[0, 2, 2, 5, 7];
    let sublists = OffsetSublists::from_arrow_offsets(offsets).expect("offsets are in order");
    assert!(sublists.is_consistent());
    assert_eq!(sublists.len(), 4);
    assert_eq!(sublists.total_items(), 7);
    assert_eq!(sublists.iter_sublists_len_validity(), vec![2, 0, 3, 2]);
    assert_eq!(sublists.at(2), OffsetLen { offset: 2, len: 3 });
    assert_eq!(sublists.first_cloned(), Some(OffsetLen { offset: 0, len: 2 }));
    assert_eq!(sublists.last_cloned(), Some(OffsetLen { offset: 5, len: 2 }));
    let shifted: &[i64] = &[10, 13, 14];
    let sublists = OffsetSublists::from_arrow_offsets(shifted).unwrap();
    assert_eq!(sublists.total_items(), 4);
    assert_eq!(sublists.iter_cloned(), vec![OffsetLen { offset: 0, len: 3 }, OffsetLen { offset: 3, len: 1 }]);
    let only_end: &[i32] = &[4];
    let none = OffsetSublists::from_arrow_offsets(only_end).unwrap();
    assert!(none.is_consistent());
    assert_eq!(none.len(), 0);
    assert_eq!(none.first_cloned(), None);
    assert_eq!(none.last_cloned(), None);
    let empty: &[i32] = &[];
    assert!(OffsetSublists::from_arrow_offsets(empty).is_none());
    let backwards: &[i32] = &[5, 7, 3];
    assert!(OffsetSublists::from_arrow_offsets(backwards).is_none());
    let unordered: &[i32] = &[0, 7, 3, 8];
    assert!(!OffsetSublists::from_arrow_offsets(unordered).unwrap().is_consistent());
}

#[test]
fn checked_split_fails_out_of_bounds() {
    let items: &[u8] = &[1, 2, 3];
    assert_eq!(Slice::checked_split_at(&items, 3), Some((&items[..], &items[3..])));
    assert_eq!(Slice::checked_split_at(&items, 4), None);
    let lists: &[usize] = &[1, 2];
    let slice = ListSlice { items, lists };
    assert!(slice.checked_split_at(2).is_some());
    assert!(slice.checked_split_at(3).is_none());
    let bad: &[usize] = &[1, 1];
    assert!(ListSlice { items, lists: bad }.checked_split_at(0).is_none());
}

#[test]
fn list_slices_compare_by_sublists() {
    let items: &[u8] = &[1, 2, 3, 4, 5];
    let lists: &[usize] = &[2, 0, 3];
    let slice = ListSlice { items, lists };
    let expected: &[&[u8]] = &[&[1, 2], &[], &[3, 4, 5]];
    assert!(slice == expected);
    assert!(slice == slice);
    let offsets: &[i32] = &[10, 12, 12];
    assert!(slice == ListSlice { items, lists: OffsetSublists::new(offsets, 5) });
    let regrouped: &[usize] = &[2, 1, 2];
    assert!(slice != ListSlice { items, lists: regrouped });
    let differs: &[&[u8]] = &[&[1, 2], &[], &[3, 4, 6]];
    assert!(slice != differs);
    assert!(slice != &expected[..2]);
    let short: &[usize] = &[2, 0, 2];
    assert!(ListSlice { items, lists: short } != expected);

    let optional: &[Option<usize>] = &[Some(2), None, Some(3)];
    let slice = ListSlice { items, lists: optional };
    let expected: &[Option<&[u8]>] = &[Some(&[1, 2]), None, Some(&[3, 4, 5])];
    assert!(slice == expected);
    let empty_not_null: &[Option<&[u8]>] = &[Some(&[1, 2]), Some(&[]), Some(&[3, 4, 5])];
    assert!(slice != empty_not_null);
}

#[test]
fn list_slices_are_ordered_by_sublists() {
    let items: &[u8] = &[1, 2, 3, 4, 5];
    let lists: &[usize] = &[2, 0, 3];
    let slice = ListSlice { items, lists };
    let same: &[&[u8]] = &[&[1, 2], &[], &[3, 4, 5]];
    assert_eq!(slice.partial_cmp(&same), Some(Ordering::Equal));
    let shorter_first: &[&[u8]] = &[&[1], &[9, 9]];
    assert_eq!(slice.partial_cmp(&shorter_first), Some(Ordering::Greater));
    let fuller_second: &[&[u8]] = &[&[1, 2], &[0]];
    assert_eq!(slice.partial_cmp(&fuller_second), Some(Ordering::Less));
    assert!(slice < fuller_second);
    assert_eq!(slice.partial_cmp(&&same[..2]), Some(Ordering::Greater));
    let regrouped: &[usize] = &[2, 1, 2];
    assert!(slice < ListSlice { items, lists: regrouped });
    let short: &[usize] = &[2, 0, 2];
    assert_eq!(ListSlice { items, lists: short }.partial_cmp(&same), None);

    let optional: &[Option<usize>] = &[Some(2), None, Some(3)];
    let slice = ListSlice { items, lists: optional };
    let empty_not_null: &[Option<&[u8]>] = &[Some(&[1, 2]), Some(&[]), Some(&[3, 4, 5])];
    assert_eq!(slice.partial_cmp(&empty_not_null), Some(Ordering::Less));
    let same: &[Option<&[u8]>] = &[Some(&[1, 2]), None, Some(&[3, 4, 5])];
    assert_eq!(slice.partial_cmp(&same), Some(Ordering::Equal));
}
