use std::collections::HashSet;
use std::hash::RandomState;

use interflow::channel_map::Bitset;
use interflow::channel_map::ChannelMap128;
use interflow::channel_map::ChannelMap32;
use interflow::channel_map::ChannelMap64;

#[test]
fn test_getset_index() {
    let mut bitset = 0u8;
    bitset.set_index(0, true);
    bitset.set_index(2, true);
    bitset.set_index(3, true);
    bitset.set_index(2, false);

    assert_eq!(0b1001, bitset);
    assert!(bitset.get_index(0));
    assert!(bitset.get_index(3));
    assert!(!bitset.get_index(2));
}

#[test]
fn test_indices() {
    let bitset = 0b10010100u8;
    let result = HashSet::<_, RandomState>::from_iter(bitset.indices());
    assert_eq!(HashSet::from_iter([2, 4, 7]), result);
}

#[test]
fn test_slice_getset() {
    let mut storage = [0; 3];
    let mut bitset: &mut [u32] = &mut storage;

    bitset.set_index(0, true);
    bitset.set_index(34, true);
    bitset.set_index(81, true);

    assert_eq!([0b1, 0b100, 1 << (81 - 64)], bitset);

    assert!(bitset.get_index(0));
    assert!(bitset.get_index(34));
    assert!(bitset.get_index(81));
}

#[test]
fn test_slice_indices() {
    let mut storage = [0b100101u8, 1 << 6 | 1 << 4, 1];
    let bitrate: &mut [u8] = &mut storage;
    let result = HashSet::<_, RandomState>::from_iter(bitrate.indices());
    assert_eq!(HashSet::from_iter([0, 2, 5, 12, 14, 16]), result);
}

#[test]
fn integer_capacities() {
    assert_eq!(8, 0u8.capacity());
    assert_eq!(16, 0u16.capacity());
    assert_eq!(32, 0u32.capacity());
    assert_eq!(64, 0u64.capacity());
    assert_eq!(128, 0u128.capacity());
}

#[test]
fn indices_are_increasing() {
    let bitset: ChannelMap64 = (1 << 63) | (1 << 5) | 1;
    assert_eq!(vec![0, 5, 63], bitset.indices());
}

#[test]
fn integer_count_matches_indices() {
    let bitset: ChannelMap128 = (1 << 127) | (1 << 64) | (1 << 3);
    assert_eq!(3, bitset.count());
    assert_eq!(bitset.indices().len(), bitset.count());
    assert_eq!(0, 0u16.count());
    assert_eq!(32, u32::MAX.count());
}

#[test]
fn set_index_leaves_other_indices() {
    let mut bitset: ChannelMap32 = 0b1010;
    bitset.set_index(0, true);
    assert_eq!(0b1011, bitset);
    bitset.set_index(3, false);
    assert_eq!(0b0011, bitset);
    bitset.set_index(31, true);
    assert!(bitset.get_index(31));
    assert_eq!(0b0011 | (1 << 31), bitset);
}

#[test]
fn with_index_chains() {
    let mut bitset = 0u16;
    bitset.with_index(1, true).with_index(4, true).with_index(1, false);
    assert_eq!(0b10000, bitset);
}

#[test]
fn with_indices_sets_all_given() {
    let bitset = 0b1u32.with_indices(&[3, 5, 3]);
    assert_eq!(0b101001, bitset);
    let unchanged = 0b110u8.with_indices(&[]);
    assert_eq!(0b110, unchanged);
}

#[test]
fn slice_capacity_is_sum() {
    let mut storage = [0u8, 0u8, 0u8];
    let bitset: &mut [u8] = &mut storage;
    assert_eq!(24, bitset.capacity());
    let mut empty: [u16; 0] = [];
    let none: &mut [u16] = &mut empty;
    assert_eq!(0, none.capacity());
}

#[test]
fn slice_reads_up_to_its_last_index() {
    let mut storage = [u8::MAX, 0b0111_1111];
    let bitset: &mut [u8] = &mut storage;
    assert!(bitset.get_index(14));
    assert!(!bitset.get_index(15));
}

#[test]
fn slice_set_crosses_elements() {
    let mut storage = [0u8, 0u8];
    {
        let mut bitset: &mut [u8] = &mut storage;
        bitset.set_index(7, true);
        bitset.set_index(8, true);
        bitset.set_index(15, true);
        bitset.set_index(7, false);
        assert_eq!(2, bitset.count());
        assert_eq!(vec![8, 15], bitset.indices());
    }
    assert_eq!([0, 0b1000_0001], storage);
}

#[test]
fn slice_locates_across_elements() {
    let mut storage = [0u32; 3];
    {
        let mut bitset: &mut [u32] = &mut storage;
        assert_eq!(96, bitset.capacity());
        bitset.set_index(32, true);
        bitset.set_index(34, true);
        assert!(bitset.get_index(95) == false);
    }
    assert_eq!([0, 0b101, 0], storage);
}

#[test]
fn inner_bitset_positions() {
    let arr = [0u32; 3];
    assert_eq!(Some((0, 5)), interflow::channel_map::get_inner_bitset_at(&arr, 5));
    assert_eq!(Some((1, 0)), interflow::channel_map::get_inner_bitset_at(&arr, 32));
    assert_eq!(Some((1, 2)), interflow::channel_map::get_inner_bitset_at(&arr, 34));
    assert_eq!(None, interflow::channel_map::get_inner_bitset_at(&arr, 96));
    let mixed = [0u8, 0u8];
    assert_eq!(Some((1, 7)), interflow::channel_map::get_inner_bitset_at(&mixed, 15));
}
