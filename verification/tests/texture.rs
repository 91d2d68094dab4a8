use rusterizer::texture::Texture;

fn numbered() -> Texture {
    // 4 x 2 texels, the texel in column x and row y is 0x00_0x_0y
    let mut bytes = Vec::new();
    for y in 0..2u8 {
        for x in 0..4u8 {
            bytes.push(0);
            bytes.push(x);
            bytes.push(y);
        }
    }
    Texture::from_rgb8(4, 2, 3, &bytes)
}

fn texel(u: f32, size: usize) -> usize {
    (u * size as f32) as usize
}

#[test]
fn bytes_are_packed_three_by_three() {
    let tex = Texture::from_rgb8(2, 1, 3, &[1, 2, 3, 0xaa, 0xbb, 0xcc, 9, 9]);
    assert_eq!(tex.width, 2);
    assert_eq!(tex.height, 1);
    assert_eq!(tex.depth, 3);
    assert_eq!(tex.data, vec![0x010203, 0xaabbcc]);
    assert!(Texture::from_rgb8(0, 0, 3, &[]).data.is_empty());
}

#[test]
fn nearest_texel_is_sampled() {
    let tex = numbered();
    assert_eq!(tex.uv_to_index(0, 0), 0);
    assert_eq!(tex.uv_to_index(3, 1), 7);
    assert_eq!(tex.sample_at_uv(2, 1), 0x000201);
    assert_eq!(tex.sample_at_uv_rgb(3, 0), (0, 3, 0));
    assert_eq!(tex.sample_at_uv(texel(0.6, 4), texel(0.9, 2)), 0x000201);
}

#[test]
fn texture_tiles() {
    let tex = numbered();
    assert_eq!(
        tex.sample_at_uv(texel(1.5, 4), texel(0.5, 2)),
        tex.sample_at_uv(texel(0.5, 4), texel(0.5, 2))
    );
    assert_eq!(tex.uv_to_index(texel(1.5, 4), texel(0.5, 2)), 6);
    for u in 0..12usize {
        for v in 0..6usize {
            assert_eq!(tex.uv_to_index(u, v), tex.uv_to_index(u % 4, v % 2));
            assert_eq!(tex.sample_at_uv(u + 4, v + 2), tex.sample_at_uv(u, v));
        }
    }
}

#[test]
fn missing_texels_are_magenta() {
    // the image says 4 x 2 but holds three texels only
    let tex = Texture { width: 4, height: 2, data: vec![1, 2, 3], depth: 3 };
    assert_eq!(tex.sample_at_uv(2, 0), 3);
    assert_eq!(tex.sample_at_uv(3, 0), 0xff00ff);
    assert_eq!(tex.sample_at_uv_rgb(1, 1), (255, 0, 255));
}
