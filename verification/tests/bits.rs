use regmap_hal::bits::{genmask, lowest_set_bit};

#[test]
fn genmask_sets_the_bits_between_lsb_and_msb() {
    assert_eq!(genmask(7, 0), 0xff);
    assert_eq!(genmask(6, 0), 0x7f);
    assert_eq!(genmask(7, 7), 0x80);
    assert_eq!(genmask(5, 4), 0x30);
    assert_eq!(genmask(31, 0), 0xffff_ffff);
    assert_eq!(genmask(31, 31), 0x8000_0000);
    assert_eq!(genmask(0, 0), 1);
}

#[test]
fn genmask_has_as_many_bits_as_the_span() {
    for lsb in 0..32u32 {
        for msb in lsb..32u32 {
            let mask = genmask(msb, lsb);
            assert_eq!(mask.count_ones(), msb - lsb + 1);
            assert_eq!(mask.trailing_zeros(), lsb);
            assert_eq!(31 - mask.leading_zeros(), msb);
        }
    }
}

#[test]
fn lowest_set_bit_finds_the_shift_of_a_mask() {
    assert_eq!(lowest_set_bit(0), 32);
    assert_eq!(lowest_set_bit(1), 0);
    assert_eq!(lowest_set_bit(0xc0), 6);
    assert_eq!(lowest_set_bit(0x8000_0000), 31);
}
