use gulf::mem::{Align, AlignError, Mask};
use gulf::mem::mask::has_hole;
use gulf::num::NotPowerOfTwo;
use std::alloc::Layout;
use std::cmp::Ordering;

#[test]
fn align_min_is_one() {
    assert_eq!(Align::min_value().get(), 1);
    assert_eq!(Align::min_value().get(), 2_usize.pow(0));
    assert_eq!(Align::min_value().get(), 1_usize << 0);
}

#[test]
fn align_max_is_top_bit() {
    let bits = usize::BITS;
    assert_eq!(Align::max_value().get(), 2_usize.pow(bits - 1));
    assert_eq!(Align::max_value().get(), 1_usize << (bits - 1));
    assert_eq!(Align::max_value().get(), (isize::MAX as usize) + 1);
}

#[test]
fn align_new() {
    assert!(Align::new(0).is_none());
    assert!(Align::new(3).is_none());
    assert!(Align::new(6).is_none());
    assert!(Align::new(usize::MAX).is_none());
    assert_eq!(Align::new(1).unwrap().get(), 1);
    assert_eq!(Align::new(4096).unwrap().get(), 4096);
    assert_eq!(Align::new(1 << 40).unwrap().get(), 1 << 40);
    assert!(Align::from_nonzero(12).is_none());
    assert_eq!(Align::from_nonzero(64).unwrap().get_nonzero(), 64);
    assert_eq!(Align::new_unchecked(32).get(), 32);
}

#[test]
fn align_from_addr() {
    assert!(Align::from_addr(0).is_none());
    assert_eq!(Align::from_addr(1).unwrap().get(), 1);
    assert_eq!(Align::from_addr(0x1000).unwrap().get(), 0x1000);
    assert_eq!(Align::from_addr(0x1230).unwrap().get(), 0x10);
    assert_eq!(Align::from_addr_nonzero(0x1238).get(), 0x8);
    assert_eq!(Align::from_addr_nonzero(usize::MAX).get(), 1);
    assert_eq!(Align::from_addr_nonzero(1 << (usize::BITS - 1)).get(), 1 << (usize::BITS - 1));
    assert_eq!(Align::from_addr_nonzero(96).get(), 32);
}

#[test]
fn align_of_types() {
    assert_eq!(Align::of::<u8>().get(), 1);
    assert_eq!(Align::of::<u64>().get(), std::mem::align_of::<u64>());
    assert_eq!(Align::of::<[u32; 3]>().get(), 4);
}

#[test]
fn align_log2_and_mask() {
    assert_eq!(Align::new(4096).unwrap().log2(), 12);
    assert_eq!(Align::min_value().log2(), 0);
    assert_eq!(Align::max_value().log2(), usize::BITS - 1);
    let a = Align::new(16).unwrap();
    assert_eq!(a.mask().get(), !15);
    assert_eq!(Align::from_mask(a.mask()), a);
    assert_eq!(Align::from(a.mask()), a);
    assert_eq!(usize::from(a), 16);
}

#[test]
fn align_layout() {
    let a = Align::new(8).unwrap();
    let layout = a.layout_with_size(24).unwrap();
    assert_eq!(layout.size(), 24);
    assert_eq!(layout.align(), 8);
    let two = Align::new(2).unwrap();
    assert!(two.layout_with_size(isize::MAX as usize).is_err());
    assert!(two.layout_with_size(isize::MAX as usize - 1).is_ok());
    assert!(Align::min_value().layout_with_size(isize::MAX as usize).is_ok());
    assert!(Align::min_value().layout_with_size(isize::MAX as usize + 1).is_err());
    assert_eq!(Align::from_layout(Layout::from_size_align(8, 16).unwrap()).get(), 16);
}

#[test]
fn align_round_up_size() {
    let a = Align::new(8).unwrap();
    assert_eq!(a.round_up_size(0), None);
    assert_eq!(a.round_up_size(1), Some(8));
    assert_eq!(a.round_up_size(8), Some(8));
    assert_eq!(a.round_up_size(9), Some(16));
    assert_eq!(a.round_up_size(usize::MAX), None);
    assert_eq!(a.round_up_size(usize::MAX - 7), Some(usize::MAX - 7));
    assert_eq!(a.round_up_size(usize::MAX - 8), Some(usize::MAX - 7));
    assert_eq!(Align::min_value().round_up_size(usize::MAX), Some(usize::MAX));
    assert_eq!(Align::max_value().round_up_size(1), Some(1 << (usize::BITS - 1)));
    assert_eq!(Align::max_value().round_up_size((1 << (usize::BITS - 1)) + 1), None);
}

#[test]
fn align_max_size() {
    assert_eq!(Align::max_value().max_size(), 0);
    assert_eq!(Align::min_value().max_size(), isize::MAX as usize);
    assert_eq!(Align::new(4096).unwrap().max_size(), (isize::MAX as usize) + 1 - 4096);
}

#[test]
fn align_order() {
    let a = Align::new(4).unwrap();
    let b = Align::new(16).unwrap();
    assert_eq!(a.compare(b), Ordering::Less);
    assert_eq!(b.compare(a), Ordering::Greater);
    assert_eq!(a.compare(a), Ordering::Equal);
    assert!(a < b);
    assert_eq!(a.min(b), a);
    assert_eq!(a.max(b), b);
    assert_eq!(Align::new(2).unwrap().clamp(a, b), Some(a));
    assert_eq!(Align::new(64).unwrap().clamp(a, b), Some(b));
    assert_eq!(Align::new(8).unwrap().clamp(a, b), Some(Align::new(8).unwrap()));
    assert_eq!(Align::new(8).unwrap().clamp(b, a), None);
}

#[test]
fn align_conversions() {
    assert_eq!(Align::try_from(3usize), Err(AlignError));
    assert_eq!(Align::try_from(256usize).unwrap().get(), 256);
    assert_eq!(Align::default(), Align::min_value());
    assert_eq!(AlignError::from(NotPowerOfTwo), AlignError);
    assert_eq!(AlignError.description(), "could not create an `Align`");
}

#[test]
fn mask_bounds() {
    assert_eq!(Mask::max_value().get(), usize::MAX);
    assert_eq!(Mask::min_value().get(), 1 << (usize::BITS - 1));
    assert_eq!(Mask::max_value().align(), Align::min_value());
    assert_eq!(Mask::min_value().align(), Align::max_value());
}

#[test]
fn mask_new() {
    assert!(Mask::new(0).is_none());
    assert!(Mask::new(1).is_none());
    assert!(Mask::new(0b0110).is_none());
    assert!(Mask::new(usize::MAX << 4 | 1).is_none());
    assert_eq!(Mask::new(usize::MAX).unwrap().get(), usize::MAX);
    assert_eq!(Mask::new(usize::MAX << 16).unwrap().align().get(), 1 << 16);
    assert_eq!(Mask::from_nonzero(usize::MAX << 3).unwrap().get_nonzero(), usize::MAX << 3);
    assert!(Mask::from_nonzero(usize::MAX >> 1).is_none());
    assert_eq!(Mask::new_unchecked(!7).align().get(), 8);
}

#[test]
fn mask_roundtrip() {
    for k in 0..usize::BITS {
        let a = Align::new(1 << k).unwrap();
        let m = Mask::from_align(a);
        assert_eq!(m.get(), !((1usize << k) - 1));
        assert_eq!(m.align(), a);
        assert_eq!(Mask::new(m.get()).unwrap().get(), m.get());
    }
}

#[test]
fn mask_holes() {
    assert!(!has_hole(0));
    assert!(!has_hole(usize::MAX));
    assert!(!has_hole(usize::MAX << 32));
    assert!(has_hole(0xF0F0));
    assert!(has_hole(0xFFF0));
    assert!(has_hole(1));
    assert!(!has_hole(0xFFFF_FFFF_0000_0000_usize));
    assert!(has_hole(0xFFFF_FF0F_0000_0000_usize));
}
