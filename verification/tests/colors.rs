use rusterizer::utils::{from_coords_index, from_index_coords, from_u32_u8, from_u8_rgb};

#[test]
fn packs_channels_into_one_value() {
    assert_eq!(from_u8_rgb(0x12, 0x34, 0x56), 0x123456);
    assert_eq!(from_u8_rgb(255, 0, 255), 0xff00ff);
    assert_eq!(from_u8_rgb(0, 0, 0), 0);
    assert_eq!(from_u8_rgb(255, 255, 255), 0xffffff);
}

#[test]
fn unpacks_channels_and_ignores_the_top_byte() {
    assert_eq!(from_u32_u8(0x123456), (0x12, 0x34, 0x56));
    assert_eq!(from_u32_u8(0xab123456), (0x12, 0x34, 0x56));
}

#[test]
fn packing_and_unpacking_round_trip() {
    for &(r, g, b) in &[(0u8, 0u8, 0u8), (1, 2, 3), (255, 254, 253), (128, 0, 255)] {
        assert_eq!(from_u32_u8(from_u8_rgb(r, g, b)), (r, g, b));
    }
}

#[test]
fn index_and_coordinates_round_trip() {
    assert_eq!(from_index_coords(13, 5), (3, 2));
    assert_eq!(from_coords_index(3, 2, 5), 13);
    for index in 0..40usize {
        let (x, y) = from_index_coords(index, 8);
        assert_eq!(from_coords_index(x, y, 8), index);
    }
}
