//! Textures: decoded images, sampled at the nearest texel with wrap-around
//! addressing.
use crate::utils::{from_u32_u8, from_u8_rgb, spec_from_u32_u8, spec_from_u8_rgb};
use vstd::prelude::*;

verus! {

/// A decoded image: `width * height` packed `0x00RRGGBB` texels, row by row.
pub struct Texture {
    pub width: usize,
    pub height: usize,
    pub data: Vec<u32>,
    /// The number of channels that the image file had per pixel.
    pub depth: usize,
}

/// The colour that stands in for a texel that the image does not hold.
pub open spec fn spec_fallback_color() -> u32 {
    0xff00ffu32
}

/// Texel `i` of an image given as red, green and blue bytes in turn.
pub open spec fn spec_texel_of_bytes(bytes: Seq<u8>, i: int) -> u32 {
    spec_from_u8_rgb(bytes[3 * i], bytes[3 * i + 1], bytes[3 * i + 2])
}

impl Texture {
    /// Packs decoded 8-bit RGB pixel data into a texture. Every three bytes
    /// make one texel; one or two bytes left at the end are dropped.
    pub fn from_rgb8(width: usize, height: usize, depth: usize, bytes: &[u8]) -> (r: Texture)
        ensures
            r.width == width,
            r.height == height,
            r.depth == depth,
            r.data@ == Seq::new((bytes@.len() / 3) as nat, |i: int| spec_texel_of_bytes(bytes@, i)),
    {
        let len: usize = bytes.len();
        let n: usize = len / 3;
        let mut data: Vec<u32> = Vec::new();
        let mut id: usize = 0;
        while id < n
            invariant
                id <= n,
                len == bytes@.len(),
                n == len / 3,
                data@ =~= Seq::new(id as nat, |i: int| spec_texel_of_bytes(bytes@, i)),
            decreases n - id,
        {
            data.push(from_u8_rgb(bytes[id * 3], bytes[id * 3 + 1], bytes[id * 3 + 2]));
            id = id + 1;
        }
        Texture { width, height, data, depth }
    }

    /// The row-major index of the texel in column `u` and row `v`, both
    /// wrapped into the texture.
    pub open spec fn spec_uv_to_index(&self, u: int, v: int) -> int {
        (u % (self.width as int)) + (v % (self.height as int)) * self.width
    }

    /// Index of the texel that a texture coordinate falls on. `u` and `v`
    /// are the coordinate scaled by the size of the texture and truncated
    /// to whole texels; they may lie beyond the texture, which then
    /// repeats.
    pub fn uv_to_index(&self, u: usize, v: usize) -> (index: usize)
        requires
            self.width > 0,
            self.height > 0,
            self.width * self.height <= usize::MAX,
        ensures
            index == self.spec_uv_to_index(u as int, v as int),
            index < self.width * self.height,
    {
        let x: usize = u % self.width;
        let y: usize = v % self.height;
        assert(x + y * self.width < self.width * self.height) by (nonlinear_arith)
            requires
                x < self.width,
                y < self.height,
        ;
        crate::utils::from_coords_index(x, y, self.width)
    }

    /// The texel at the given index, or the fallback colour where the image
    /// holds no such texel.
    pub open spec fn spec_texel(&self, index: int) -> u32 {
        if 0 <= index < self.data@.len() {
            self.data@[index]
        } else {
            spec_fallback_color()
        }
    }

    /// The packed colour of the texel that a texture coordinate falls on;
    /// bright magenta where the image is shorter than its size says.
    pub fn sample_at_uv(&self, u: usize, v: usize) -> (color: u32)
        requires
            self.width > 0,
            self.height > 0,
            self.width * self.height <= usize::MAX,
        ensures
            color == self.spec_texel(self.spec_uv_to_index(u as int, v as int)),
    {
        let index = self.uv_to_index(u, v);
        if index < self.data.len() {
            self.data[index]
        } else {
            from_u8_rgb(255, 0, 255)
        }
    }

    /// The three channels of the texel that a texture coordinate falls on.
    pub fn sample_at_uv_rgb(&self, u: usize, v: usize) -> (channels: (u8, u8, u8))
        requires
            self.width > 0,
            self.height > 0,
            self.width * self.height <= usize::MAX,
        ensures
            channels == spec_from_u32_u8(
                self.spec_texel(self.spec_uv_to_index(u as int, v as int)),
            ),
    {
        from_u32_u8(self.sample_at_uv(u, v))
    }

    /// The texture repeats: a coordinate that lies whole widths and heights
    /// further on falls on the same texel.
    pub proof fn lemma_texture_tiles(&self, u: int, v: int, across: int, down: int)
        requires
            self.width > 0,
            self.height > 0,
        ensures
            self.spec_uv_to_index(u + across * self.width, v + down * self.height)
                == self.spec_uv_to_index(u, v),
    {
        let w = self.width as int;
        let h = self.height as int;
        vstd::arithmetic::div_mod::lemma_mod_multiples_vanish(across, u, w);
        vstd::arithmetic::div_mod::lemma_mod_multiples_vanish(down, v, h);
        assert(w * across + u == u + across * w) by (nonlinear_arith);
        assert(h * down + v == v + down * h) by (nonlinear_arith);
    }
}

} // verus!
