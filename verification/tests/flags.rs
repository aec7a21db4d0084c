use cubism_model::flags::{
    decode, decode_raw_bits, encode, is_set, names, unnamed, ConstantFlags, DynamicFlags, FlagKind,
    Radix,
};

#[test]
fn encode_gives_back_every_raw_value() {
    for x in 0..=255u8 {
        assert_eq!(encode(&decode_raw_bits(x)), x);
    }
}

#[test]
fn decode_raw_bits_lists_the_set_bits_lowest_first() {
    assert_eq!(decode_raw_bits(0), Vec::<u8>::new());
    assert_eq!(decode_raw_bits(0b1010_0101), vec![0, 2, 5, 7]);
    assert_eq!(decode_raw_bits(0xff), vec![0, 1, 2, 3, 4, 5, 6, 7]);
}

#[test]
fn decode_holds_exactly_the_named_bits_that_are_set() {
    for x in 0..=255u8 {
        let constant = decode(FlagKind::Constant, x);
        let dynamic = decode(FlagKind::Dynamic, x);
        for p in 0..8u8 {
            let set = x & (1 << p) != 0;
            assert_eq!(constant.contains(&p), p < 4 && set);
            assert_eq!(dynamic.contains(&p), p < 6 && set);
            assert_eq!(is_set(x, p), set);
        }
        assert_eq!(encode(&constant), x & 0x0f);
        assert_eq!(encode(&dynamic), x & 0x3f);
        assert_eq!(unnamed(FlagKind::Constant, x), x & 0xf0);
        assert_eq!(unnamed(FlagKind::Dynamic, x), x & 0xc0);
    }
}

#[test]
fn encode_passes_over_positions_that_are_no_bit() {
    assert_eq!(encode(&vec![1, 8, 200, 3]), 0b1010);
    assert_eq!(encode(&vec![2, 2, 2]), 0b100);
    assert_eq!(encode(&vec![]), 0);
}

#[test]
fn is_set_is_false_beyond_the_width() {
    assert!(!is_set(0xff, 8));
    assert!(!is_set(0xff, 255));
    assert!(is_set(0x80, 7));
}

#[test]
fn format_writes_as_the_standard_formats_do() {
    for x in 0..=255u8 {
        assert_eq!(cubism_model::flags::format(x, Radix::Decimal), format!("{}", x));
        assert_eq!(cubism_model::flags::format(x, Radix::Hex), format!("{:#x}", x));
        assert_eq!(cubism_model::flags::format(x, Radix::Binary), format!("{:#b}", x));
    }
}

#[test]
fn format_of_some_values() {
    assert_eq!(cubism_model::flags::format(0, Radix::Decimal), "0");
    assert_eq!(cubism_model::flags::format(0, Radix::Hex), "0x0");
    assert_eq!(cubism_model::flags::format(0, Radix::Binary), "0b0");
    assert_eq!(cubism_model::flags::format(5, Radix::Binary), "0b101");
    assert_eq!(cubism_model::flags::format(171, Radix::Hex), "0xab");
    assert_eq!(cubism_model::flags::format(255, Radix::Decimal), "255");
}

#[test]
fn names_joins_the_names_of_the_flags() {
    assert_eq!(names(FlagKind::Constant, 0), "(empty)");
    assert_eq!(names(FlagKind::Dynamic, 0), "(empty)");
    assert_eq!(names(FlagKind::Constant, 0b0001), "BLEND_ADDITIVE");
    assert_eq!(names(FlagKind::Constant, 0b0101), "BLEND_ADDITIVE | IS_DOUBLE_SIDED");
    assert_eq!(
        names(FlagKind::Constant, 0b1111),
        "BLEND_ADDITIVE | BLEND_MULTIPLICATIVE | IS_DOUBLE_SIDED | IS_INVERTED_MASK"
    );
    assert_eq!(names(FlagKind::Dynamic, 0b00_0001), "IS_VISIBLE");
    assert_eq!(
        names(FlagKind::Dynamic, 0b11_1111),
        "IS_VISIBLE | VISIBILITY_CHANGED | OPACITY_CHANGED | DRAW_ORDER_CHANGED | \
         RENDER_ORDER_CHANGED | VERTEX_POSITIONS_CHANGED"
    );
}

#[test]
fn names_keeps_the_bits_that_have_no_name() {
    assert_eq!(names(FlagKind::Constant, 0x30), "0x30");
    assert_eq!(names(FlagKind::Constant, 0x35), "BLEND_ADDITIVE | IS_DOUBLE_SIDED | 0x30");
    assert_eq!(names(FlagKind::Dynamic, 0x81), "IS_VISIBLE | 0x80");
    assert_eq!(names(FlagKind::Dynamic, 0x30), "RENDER_ORDER_CHANGED | VERTEX_POSITIONS_CHANGED");
}

#[test]
fn flag_names_follow_the_table() {
    assert_eq!(FlagKind::Constant.width(), 4);
    assert_eq!(FlagKind::Dynamic.width(), 6);
    assert_eq!(FlagKind::Constant.flag_name(2), Some("IS_DOUBLE_SIDED"));
    assert_eq!(FlagKind::Constant.flag_name(4), None);
    assert_eq!(FlagKind::Dynamic.flag_name(4), Some("RENDER_ORDER_CHANGED"));
    assert_eq!(FlagKind::Dynamic.flag_name(6), None);
}

#[test]
fn flag_sets_keep_their_bits() {
    assert_eq!(ConstantFlags::from_bits(0xa5).bits(), 0xa5);
    assert_eq!(DynamicFlags::from_bits(0xff).bits(), 0xff);
}

#[test]
fn flag_sets_decode_by_their_own_table() {
    let constant = ConstantFlags::from_bits(0x35);
    assert_eq!(constant.flags(), vec![0, 2]);
    assert!(constant.contains(0));
    assert!(!constant.contains(1));
    assert!(!constant.contains(4));
    assert!(!constant.contains(5));
    assert_eq!(constant.names(), "BLEND_ADDITIVE | IS_DOUBLE_SIDED | 0x30");
    assert_eq!(constant.format(Radix::Hex), "0x35");
    assert_eq!(constant.format(Radix::Binary), "0b110101");
    assert_eq!(constant.format(Radix::Decimal), "53");
    let dynamic = DynamicFlags::from_bits(0x35);
    assert_eq!(dynamic.flags(), vec![0, 2, 4, 5]);
    assert!(dynamic.contains(4));
    assert!(!dynamic.contains(6));
    assert_eq!(
        dynamic.names(),
        "IS_VISIBLE | OPACITY_CHANGED | RENDER_ORDER_CHANGED | VERTEX_POSITIONS_CHANGED"
    );
    assert_eq!(dynamic.format(Radix::Hex), "0x35");
}
