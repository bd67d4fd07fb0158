use autosized_num::{
    select_auto_width, select_signed_width, select_unsigned_width, Signedness, Width,
    WidthDescriptor,
};

#[test]
fn unsigned() {
    assert_eq!(select_unsigned_width(10), Width::W8);
    assert_eq!(select_unsigned_width(257), Width::W16);
    assert_eq!(10u128 as u8, 10u8);
}

#[test]
fn singed() {
    assert_eq!(select_signed_width(-10), Width::W8);
    assert_eq!(select_signed_width(129), Width::W16);
    assert_eq!(-10i128 as i8, -10i8);
}

#[test]
fn int_auto() {
    assert_eq!(
        select_auto_width(-10),
        WidthDescriptor { signedness: Signedness::Signed, width: Width::W8 }
    );
    assert_eq!(
        select_auto_width(1_000_000_000),
        WidthDescriptor { signedness: Signedness::Unsigned, width: Width::W32 }
    );
    assert_eq!(-100_000_000i128 as i32, -100_000_000i32);
    assert_eq!(
        select_auto_width(-100_000_000),
        WidthDescriptor { signedness: Signedness::Signed, width: Width::W32 }
    );
}

#[test]
fn unsigned_boundaries() {
    assert_eq!(select_unsigned_width(0), Width::W8);
    assert_eq!(select_unsigned_width(255), Width::W8);
    assert_eq!(select_unsigned_width(256), Width::W16);
    assert_eq!(select_unsigned_width(65_535), Width::W16);
    assert_eq!(select_unsigned_width(65_536), Width::W32);
    assert_eq!(select_unsigned_width(4_294_967_295), Width::W32);
    assert_eq!(select_unsigned_width(4_294_967_296), Width::W64);
    assert_eq!(select_unsigned_width(18_446_744_073_709_551_615), Width::W64);
    assert_eq!(select_unsigned_width(18_446_744_073_709_551_616), Width::W128);
    assert_eq!(select_unsigned_width(u128::MAX), Width::W128);
}

#[test]
fn signed_boundaries() {
    assert_eq!(select_signed_width(0), Width::W8);
    assert_eq!(select_signed_width(127), Width::W8);
    assert_eq!(select_signed_width(128), Width::W16);
    assert_eq!(select_signed_width(-128), Width::W8);
    assert_eq!(select_signed_width(-129), Width::W16);
    assert_eq!(select_signed_width(32_767), Width::W16);
    assert_eq!(select_signed_width(32_768), Width::W32);
    assert_eq!(select_signed_width(-32_768), Width::W16);
    assert_eq!(select_signed_width(-32_769), Width::W32);
    assert_eq!(select_signed_width(2_147_483_647), Width::W32);
    assert_eq!(select_signed_width(2_147_483_648), Width::W64);
    assert_eq!(select_signed_width(-2_147_483_648), Width::W32);
    assert_eq!(select_signed_width(-2_147_483_649), Width::W64);
    assert_eq!(select_signed_width(9_223_372_036_854_775_807), Width::W64);
    assert_eq!(select_signed_width(9_223_372_036_854_775_808), Width::W128);
    assert_eq!(select_signed_width(-9_223_372_036_854_775_808), Width::W64);
    assert_eq!(select_signed_width(-9_223_372_036_854_775_809), Width::W128);
    assert_eq!(select_signed_width(i128::MAX), Width::W128);
    assert_eq!(select_signed_width(i128::MIN), Width::W128);
}

#[test]
fn auto_dispatch_matches_single_policies() {
    let negatives: [i128; 4] = [-1, -129, -100_000_000, i128::MIN];
    for v in negatives {
        let d = select_auto_width(v);
        assert_eq!(d.signedness, Signedness::Signed);
        assert_eq!(d.width, select_signed_width(v));
    }
    let non_negatives: [i128; 4] = [0, 300, 70_000, i128::MAX];
    for v in non_negatives {
        let d = select_auto_width(v);
        assert_eq!(d.signedness, Signedness::Unsigned);
        assert_eq!(d.width, select_unsigned_width(v as u128));
    }
}

#[test]
fn repeated_selection_is_deterministic() {
    assert_eq!(select_unsigned_width(300), select_unsigned_width(300));
    assert_eq!(select_signed_width(-200), select_signed_width(-200));
    assert_eq!(select_auto_width(-200), select_auto_width(-200));
    assert_eq!(select_auto_width(70_000), select_auto_width(70_000));
}

#[test]
fn width_is_monotone_in_magnitude() {
    let magnitudes: [u128; 6] = [0, 255, 256, 70_000, 5_000_000_000, u128::MAX];
    for pair in magnitudes.windows(2) {
        let smaller = select_unsigned_width(pair[0]).bits();
        let larger = select_unsigned_width(pair[1]).bits();
        assert!(smaller <= larger);
    }
    let ascending_negatives: [i128; 5] = [i128::MIN, -3_000_000_000, -32_769, -129, -1];
    for pair in ascending_negatives.windows(2) {
        let wider = select_signed_width(pair[0]).bits();
        let narrower = select_signed_width(pair[1]).bits();
        assert!(narrower <= wider);
    }
    let ascending_positives: [i128; 5] = [0, 127, 128, 40_000, i128::MAX];
    for pair in ascending_positives.windows(2) {
        let narrower = select_signed_width(pair[0]).bits();
        let wider = select_signed_width(pair[1]).bits();
        assert!(narrower <= wider);
    }
}

#[test]
fn concrete_scenarios() {
    assert_eq!(select_unsigned_width(300), Width::W16);
    assert_eq!(select_signed_width(-200), Width::W16);
    assert_eq!(
        select_auto_width(10),
        WidthDescriptor { signedness: Signedness::Unsigned, width: Width::W8 }
    );
    assert_eq!(
        select_auto_width(-10),
        WidthDescriptor { signedness: Signedness::Signed, width: Width::W8 }
    );
    assert_eq!(
        select_auto_width(1_000_000_000),
        WidthDescriptor { signedness: Signedness::Unsigned, width: Width::W32 }
    );
    assert_eq!(
        select_auto_width(-100_000_000),
        WidthDescriptor { signedness: Signedness::Signed, width: Width::W32 }
    );
}

#[test]
fn bits_of_each_rung() {
    assert_eq!(Width::W8.bits(), 8);
    assert_eq!(Width::W16.bits(), 16);
    assert_eq!(Width::W32.bits(), 32);
    assert_eq!(Width::W64.bits(), 64);
    assert_eq!(Width::W128.bits(), 128);
}
