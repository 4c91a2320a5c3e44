use it_module::flags::{KNOWN_BITS, SPECIAL_SHIFT};
use it_module::{ModuleFlag, ModuleFlags};

fn every_flag() -> Vec<ModuleFlag> {
    vec![
        ModuleFlag::Stereo,
        ModuleFlag::Vol0MixOptimizations,
        ModuleFlag::UseInstruments,
        ModuleFlag::LinearSlides,
        ModuleFlag::OldEffects,
        ModuleFlag::LinkGEEffects,
        ModuleFlag::UseMidiPitch,
        ModuleFlag::RequestMidiConfigEmbedded,
        ModuleFlag::MessageAttached,
        ModuleFlag::MidiConfigEmbedded,
    ]
}

#[test]
fn from_parts_stereo_and_message_attached() {
    let flags = ModuleFlags::from_parts(0b0000_0001, 0b0000_0001);
    assert_eq!(flags.bits(), 0x0001_0001);
    assert_eq!(
        flags,
        ModuleFlags::from_flag(ModuleFlag::Stereo)
            .union(ModuleFlags::from_flag(ModuleFlag::MessageAttached))
    );
    for flag in every_flag() {
        let expected = flag == ModuleFlag::Stereo || flag == ModuleFlag::MessageAttached;
        assert_eq!(flags.contains(flag), expected);
    }
}

#[test]
fn from_parts_all_bits_set_keeps_only_known_bits() {
    let flags = ModuleFlags::from_parts(0xffff, 0xffff);
    assert_eq!(flags.bits(), 0x0009_00ff);
    assert_eq!(flags.bits() & !KNOWN_BITS, 0);
    assert_eq!(flags, ModuleFlags::all());
    for flag in every_flag() {
        assert!(flags.contains(flag));
    }
}

#[test]
fn from_parts_of_nothing_is_empty() {
    let flags = ModuleFlags::from_parts(0, 0);
    assert_eq!(flags.bits(), 0);
    assert!(flags.is_empty());
    assert_eq!(flags, ModuleFlags::empty());
}

#[test]
fn from_parts_moves_the_special_word_up_by_sixteen() {
    assert_eq!(SPECIAL_SHIFT, 16);
    assert_eq!(ModuleFlags::from_parts(0, 0x0001).bits(), 1 << 16);
    assert_eq!(ModuleFlags::from_parts(0, 0x0008).bits(), 1 << 19);
    assert_eq!(ModuleFlags::from_parts(0, 0x0009).bits(), (1 << 16) | (1 << 19));
    assert_eq!(ModuleFlags::from_parts(0x0008, 0).bits(), 1 << 3);
}

#[test]
fn from_parts_drops_reserved_bits_of_both_words() {
    assert_eq!(ModuleFlags::from_parts(0xff00, 0).bits(), 0);
    assert_eq!(ModuleFlags::from_parts(0, 0xfff6).bits(), 0);
    assert_eq!(ModuleFlags::from_parts(0x0100, 0x0002).bits(), 0);
    assert_eq!(ModuleFlags::from_parts(0x8142, 0x4004).bits(), 0x0000_0042);
}

#[test]
fn from_parts_never_lets_a_reserved_bit_through() {
    let words: [u16; 9] = [0, 1, 0x00ff, 0x0100, 0x8000, 0xffff, 0x0009, 0x1234, 0xabcd];
    for &flags in words.iter() {
        for &special in words.iter() {
            let set = ModuleFlags::from_parts(flags, special);
            let merged = u32::from(flags) | (u32::from(special) << 16);
            assert_eq!(set.bits(), merged & 0x0009_00ff);
            assert_eq!(set.bits() & !0x0009_00ffu32, 0);
        }
    }
}

#[test]
fn from_parts_sets_each_flag_from_its_own_bit() {
    let general: [(u16, ModuleFlag); 8] = [
        (1 << 0, ModuleFlag::Stereo),
        (1 << 1, ModuleFlag::Vol0MixOptimizations),
        (1 << 2, ModuleFlag::UseInstruments),
        (1 << 3, ModuleFlag::LinearSlides),
        (1 << 4, ModuleFlag::OldEffects),
        (1 << 5, ModuleFlag::LinkGEEffects),
        (1 << 6, ModuleFlag::UseMidiPitch),
        (1 << 7, ModuleFlag::RequestMidiConfigEmbedded),
    ];
    for (word, flag) in general.iter() {
        assert_eq!(ModuleFlags::from_parts(*word, 0), ModuleFlags::from_flag(*flag));
    }
    assert_eq!(
        ModuleFlags::from_parts(0, 1 << 0),
        ModuleFlags::from_flag(ModuleFlag::MessageAttached)
    );
    assert_eq!(
        ModuleFlags::from_parts(0, 1 << 3),
        ModuleFlags::from_flag(ModuleFlag::MidiConfigEmbedded)
    );
}

#[test]
fn flag_masks_are_the_documented_bits() {
    assert_eq!(ModuleFlag::Stereo.mask(), 1 << 0);
    assert_eq!(ModuleFlag::Vol0MixOptimizations.mask(), 1 << 1);
    assert_eq!(ModuleFlag::UseInstruments.mask(), 1 << 2);
    assert_eq!(ModuleFlag::LinearSlides.mask(), 1 << 3);
    assert_eq!(ModuleFlag::OldEffects.mask(), 1 << 4);
    assert_eq!(ModuleFlag::LinkGEEffects.mask(), 1 << 5);
    assert_eq!(ModuleFlag::UseMidiPitch.mask(), 1 << 6);
    assert_eq!(ModuleFlag::RequestMidiConfigEmbedded.mask(), 1 << 7);
    assert_eq!(ModuleFlag::MessageAttached.mask(), 1 << 16);
    assert_eq!(ModuleFlag::MidiConfigEmbedded.mask(), 1 << 19);
    let mut all: u32 = 0;
    for flag in every_flag() {
        all |= flag.mask();
    }
    assert_eq!(all, KNOWN_BITS);
    assert_eq!(KNOWN_BITS, 0x0009_00ff);
}

#[test]
fn flags_empty_and_all() {
    assert_eq!(ModuleFlags::empty().bits(), 0);
    assert!(ModuleFlags::empty().is_empty());
    assert_eq!(ModuleFlags::all().bits(), 0x0009_00ff);
    assert!(!ModuleFlags::all().is_empty());
    for flag in every_flag() {
        assert!(!ModuleFlags::empty().contains(flag));
        assert!(ModuleFlags::all().contains(flag));
    }
}

#[test]
fn flags_from_bits_refuses_unknown_bits() {
    assert_eq!(ModuleFlags::from_bits(0x0001_0001).unwrap().bits(), 0x0001_0001);
    assert_eq!(ModuleFlags::from_bits(0).unwrap().bits(), 0);
    assert_eq!(ModuleFlags::from_bits(0x0009_00ff).unwrap().bits(), 0x0009_00ff);
    assert_eq!(ModuleFlags::from_bits(0x0000_0100), None);
    assert_eq!(ModuleFlags::from_bits(0x0002_0001), None);
    assert_eq!(ModuleFlags::from_bits(0xffff_ffff), None);
}

#[test]
fn flags_from_bits_truncate_drops_unknown_bits() {
    assert_eq!(ModuleFlags::from_bits_truncate(0xffff_ffff).bits(), 0x0009_00ff);
    assert_eq!(ModuleFlags::from_bits_truncate(0x0002_0101).bits(), 0x0000_0001);
    assert_eq!(ModuleFlags::from_bits_truncate(0x0008_0040).bits(), 0x0008_0040);
}

#[test]
fn flags_from_flag_holds_that_flag_alone() {
    for flag in every_flag() {
        let set = ModuleFlags::from_flag(flag);
        assert_eq!(set.bits(), flag.mask());
        for other in every_flag() {
            assert_eq!(set.contains(other), other == flag);
        }
    }
}

#[test]
fn flags_union_and_intersection() {
    let a = ModuleFlags::from_bits(0x0001_0003).unwrap();
    let b = ModuleFlags::from_bits(0x0008_0006).unwrap();
    assert_eq!(a.union(b).bits(), 0x0009_0007);
    assert_eq!(a.intersection(b).bits(), 0x0000_0002);
    assert_eq!(a.union(ModuleFlags::empty()), a);
    assert_eq!(a.intersection(ModuleFlags::empty()), ModuleFlags::empty());
    assert_eq!(a.intersection(ModuleFlags::all()), a);
    assert_eq!(a.union(b), b.union(a));
}

#[test]
fn flags_contains_all() {
    let a = ModuleFlags::from_bits(0x0001_0003).unwrap();
    let part = ModuleFlags::from_bits(0x0001_0001).unwrap();
    let other = ModuleFlags::from_bits(0x0000_0004).unwrap();
    assert!(a.contains_all(part));
    assert!(!part.contains_all(a));
    assert!(!a.contains_all(other));
    assert!(a.contains_all(ModuleFlags::empty()));
    assert!(ModuleFlags::all().contains_all(a));
}
