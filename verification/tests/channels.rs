use it_module::channels::CHANNEL_COUNT;
use it_module::ActiveChannels;

#[test]
fn channels_empty_holds_no_channel() {
    let set = ActiveChannels::empty();
    assert_eq!(set.bits(), 0);
    assert!(set.is_empty());
    for channel in 0u8..=255 {
        assert!(!set.contains(channel));
    }
}

#[test]
fn channels_all_holds_the_sixty_four() {
    assert_eq!(CHANNEL_COUNT, 64);
    let set = ActiveChannels::all();
    assert_eq!(set.bits(), u64::MAX);
    assert!(!set.is_empty());
    for channel in 0u8..=255 {
        assert_eq!(set.contains(channel), channel < 64);
    }
}

#[test]
fn channels_bit_c_stands_for_channel_c() {
    let set = ActiveChannels::from_bits(0x8000_0000_0000_0005);
    assert_eq!(set.bits(), 0x8000_0000_0000_0005);
    for channel in 0u8..=255 {
        assert_eq!(set.contains(channel), channel == 0 || channel == 2 || channel == 63);
    }
}

#[test]
fn channels_insert_sets_one_bit() {
    let mut set = ActiveChannels::empty();
    assert!(set.insert(0));
    assert_eq!(set.bits(), 1);
    assert!(set.insert(63));
    assert_eq!(set.bits(), 0x8000_0000_0000_0001);
    assert!(set.insert(5));
    assert_eq!(set.bits(), 0x8000_0000_0000_0021);
    assert!(set.insert(5));
    assert_eq!(set.bits(), 0x8000_0000_0000_0021);
    assert!(set.contains(5));
    assert!(!set.contains(6));
}

#[test]
fn channels_insert_refuses_what_is_no_channel() {
    let mut set = ActiveChannels::from_bits(0x10);
    assert!(!set.insert(64));
    assert!(!set.insert(200));
    assert!(!set.insert(255));
    assert_eq!(set.bits(), 0x10);
}

#[test]
fn channels_union_is_bitwise_or() {
    let a = ActiveChannels::from_bits(0b0101);
    let b = ActiveChannels::from_bits(0b0110);
    assert_eq!(a.union(b).bits(), 0b0111);
    assert_eq!(a.union(b), b.union(a));
    assert_eq!(a.union(a), a);
    assert_eq!(a.union(ActiveChannels::empty()), a);
    assert_eq!(ActiveChannels::empty().union(b), b);
}

#[test]
fn channels_bitor_is_union() {
    let a = ActiveChannels::from_bits(0xf0);
    let b = ActiveChannels::from_bits(0x0f00_0000_0000_0001);
    assert_eq!((a | b).bits(), 0x0f00_0000_0000_00f1);
    assert_eq!(a | b, a.union(b));
}
