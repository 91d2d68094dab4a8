//! The framebuffer: a colour buffer and a depth buffer, and depth-tested
//! drawing into them.
use crate::geometry::{
    get_triangle_bounding_box_2d, max, min, spec_max, spec_min, spec_triangle_bounding_box_2d,
    BoundingBox2D,
};
use crate::scalar::{at_least, exact, less, one, ordered, spec_one, spec_zero, zero, Scalar};
use crate::vector::Vec2;
use vstd::prelude::*;
use vstd::std_specs::ops::SubSpec;

verus! {

/// A colour buffer and a depth buffer of `width * height` pixels each, row
/// by row from the top left.
pub struct Screen<S> {
    pub width: usize,
    pub height: usize,
    /// One packed `0x00RRGGBB` colour per pixel.
    pub data: Vec<u32>,
    /// The depth of what was drawn last at each pixel; smaller is nearer.
    pub z_buffer: Vec<S>,
    /// The depth that stands for "nothing drawn yet": farther than anything
    /// that can be drawn.
    pub far: S,
}

/// The state of a screen as mathematical sequences.
pub struct ScreenView<S> {
    pub width: nat,
    pub height: nat,
    pub data: Seq<u32>,
    pub z_buffer: Seq<S>,
    pub far: S,
}

impl<S> View for Screen<S> {
    type V = ScreenView<S>;

    open spec fn view(&self) -> ScreenView<S> {
        ScreenView {
            width: self.width as nat,
            height: self.height as nat,
            data: self.data@,
            z_buffer: self.z_buffer@,
            far: self.far,
        }
    }
}

impl<S: Scalar> ScreenView<S> {
    /// Both buffers hold one entry per pixel.
    pub open spec fn wf(self) -> bool {
        &&& self.data.len() == self.width * self.height
        &&& self.z_buffer.len() == self.width * self.height
    }

    /// The screen with every pixel black and nothing drawn.
    pub open spec fn cleared(self) -> ScreenView<S> {
        ScreenView {
            data: Seq::new(self.data.len(), |i: int| 0u32),
            z_buffer: Seq::new(self.z_buffer.len(), |i: int| self.far),
            ..self
        }
    }

    /// A fragment of the given depth passes the depth test at the pixel: it
    /// is strictly nearer than what the depth buffer holds there.
    pub open spec fn passes(self, pixel_id: int, depth: S) -> bool {
        less(depth, self.z_buffer[pixel_id])
    }

    /// The screen after the depth test of one fragment: the depth buffer
    /// takes the depth where the fragment passes.
    pub open spec fn tested(self, pixel_id: int, depth: S) -> ScreenView<S> {
        if self.passes(pixel_id, depth) {
            ScreenView { z_buffer: self.z_buffer.update(pixel_id, depth), ..self }
        } else {
            self
        }
    }

    /// The screen with one pixel of the colour buffer overwritten.
    pub open spec fn painted(self, pixel_id: int, color: u32) -> ScreenView<S> {
        ScreenView { data: self.data.update(pixel_id, color), ..self }
    }

    /// The screen after one fragment was drawn: where it passes the depth
    /// test, depth and colour are taken over; where it fails, nothing
    /// changes.
    pub open spec fn drawn(self, pixel_id: int, depth: S, color: u32) -> ScreenView<S> {
        if self.passes(pixel_id, depth) {
            self.tested(pixel_id, depth).painted(pixel_id, color)
        } else {
            self
        }
    }

    /// The screen after a sequence of fragments was drawn, first to last.
    pub open spec fn drawn_all(self, fragments: Seq<Fragment<S>>) -> ScreenView<S>
        decreases fragments.len(),
    {
        if fragments.len() == 0 {
            self
        } else {
            let f = fragments.last();
            self.drawn_all(fragments.drop_last()).drawn(f.pixel_id as int, f.depth, f.color)
        }
    }
}

/// One shaded fragment: a pixel, the depth of the surface there and its
/// packed colour.
#[derive(Clone, Copy, Debug, PartialEq)]
pub struct Fragment<S> {
    pub pixel_id: usize,
    pub depth: S,
    pub color: u32,
}

impl<S: Scalar> Screen<S> {
    /// Both buffers hold one entry per pixel.
    pub open spec fn wf(&self) -> bool {
        self@.wf()
    }

    /// Creates the two buffers of a `screen_width` by `screen_height`
    /// screen: every pixel black, every depth `far`.
    pub fn create(screen_width: usize, screen_height: usize, far: S) -> (r: Self)
        requires
            screen_width * screen_height <= usize::MAX,
        ensures
            r.wf(),
            r.width == screen_width,
            r.height == screen_height,
            r.far == far,
            r@ == r@.cleared(),
    {
        let n: usize = screen_width * screen_height;
        let mut data: Vec<u32> = Vec::new();
        let mut z_buffer: Vec<S> = Vec::new();
        let mut i: usize = 0;
        while i < n
            invariant
                i <= n,
                data@ =~= Seq::new(i as nat, |k: int| 0u32),
                z_buffer@ =~= Seq::new(i as nat, |k: int| far),
            decreases n - i,
        {
            data.push(0);
            z_buffer.push(far);
            i = i + 1;
        }
        Self { width: screen_width, height: screen_height, data, z_buffer, far }
    }

    /// Resets every pixel to black and every depth to `far`.
    pub fn clear(&mut self)
        ensures
            final(self)@ == old(self)@.cleared(),
    {
        let n: usize = self.data.len();
        let mut i: usize = 0;
        while i < n
            invariant
                i <= n,
                self.data@.len() == n,
                self.width == old(self).width,
                self.height == old(self).height,
                self.far == old(self).far,
                self.z_buffer@ == old(self).z_buffer@,
                forall|k: int| 0 <= k < i ==> self.data@[k] == 0u32,
            decreases n - i,
        {
            self.data[i] = 0;
            i = i + 1;
        }
        let m: usize = self.z_buffer.len();
        let mut j: usize = 0;
        while j < m
            invariant
                j <= m,
                self.z_buffer@.len() == m,
                self.width == old(self).width,
                self.height == old(self).height,
                self.far == old(self).far,
                self.data@ =~= Seq::new(old(self).data@.len(), |k: int| 0u32),
                forall|k: int| 0 <= k < j ==> self.z_buffer@[k] == self.far,
            decreases m - j,
        {
            let far = self.far;
            self.z_buffer[j] = far;
            j = j + 1;
        }
        assert(self.z_buffer@ =~= Seq::new(old(self).z_buffer@.len(), |k: int| self.far));
    }

    /// Tests a fragment against the depth buffer and, where it is strictly
    /// nearer than what was drawn at the pixel before, records its depth.
    /// A fragment at equal depth fails: what was drawn first stays.
    pub fn test_depth(&mut self, pixel_id: usize, depth: S) -> (passed: bool)
        requires
            pixel_id < old(self).z_buffer@.len(),
        ensures
            ordered::<S>() ==> passed == old(self)@.passes(pixel_id as int, depth),
            passed ==> final(self)@ == (ScreenView {
                z_buffer: old(self)@.z_buffer.update(pixel_id as int, depth),
                ..old(self)@
            }),
            !passed ==> final(self)@ == old(self)@,
    {
        if depth < self.z_buffer[pixel_id] {
            self.z_buffer[pixel_id] = depth;
            true
        } else {
            false
        }
    }

    /// Writes one packed colour into the colour buffer.
    pub fn set_pixel(&mut self, pixel_id: usize, color: u32)
        requires
            pixel_id < old(self).data@.len(),
        ensures
            final(self)@ == old(self)@.painted(pixel_id as int, color),
    {
        self.data[pixel_id] = color;
    }

    /// Draws one shaded fragment: where it passes the depth test its depth
    /// and colour replace what the pixel held, else the screen stays as it
    /// is.
    pub fn draw_fragment(&mut self, fragment: Fragment<S>) -> (drawn: bool)
        requires
            fragment.pixel_id < old(self).z_buffer@.len(),
            fragment.pixel_id < old(self).data@.len(),
        ensures
            ordered::<S>() ==> drawn == old(self)@.passes(fragment.pixel_id as int, fragment.depth),
            drawn ==> final(self)@ == (ScreenView {
                z_buffer: old(self)@.z_buffer.update(fragment.pixel_id as int, fragment.depth),
                data: old(self)@.data.update(fragment.pixel_id as int, fragment.color),
                ..old(self)@
            }),
            !drawn ==> final(self)@ == old(self)@,
            ordered::<S>() ==> final(self)@ == old(self)@.drawn(
                fragment.pixel_id as int,
                fragment.depth,
                fragment.color,
            ),
    {
        if self.test_depth(fragment.pixel_id, fragment.depth) {
            self.set_pixel(fragment.pixel_id, fragment.color);
            true
        } else {
            false
        }
    }

    /// Of two fragments at one pixel, the nearer one shows, whichever is
    /// drawn first: if `a` is strictly nearer than `b` and than what the
    /// pixel holds, the pixel ends with the colour of `a` in both orders.
    pub proof fn lemma_nearer_wins(
        screen: ScreenView<S>,
        pixel_id: int,
        a: Fragment<S>,
        b: Fragment<S>,
    )
        requires
            0 <= pixel_id < screen.z_buffer.len(),
            pixel_id < screen.data.len(),
            a.pixel_id == pixel_id,
            b.pixel_id == pixel_id,
            less(a.depth, b.depth),
            !less(b.depth, a.depth),
            screen.passes(pixel_id, a.depth),
        ensures
            screen.drawn_all(seq![a, b]).data[pixel_id] == a.color,
            screen.drawn_all(seq![b, a]).data[pixel_id] == a.color,
            screen.drawn_all(seq![a, b]).z_buffer[pixel_id] == a.depth,
            screen.drawn_all(seq![b, a]).z_buffer[pixel_id] == a.depth,
    {
        let ab = seq![a, b];
        let ba = seq![b, a];
        reveal_with_fuel(ScreenView::drawn_all, 3);
        assert(ab.drop_last() =~= seq![a]);
        assert(ba.drop_last() =~= seq![b]);
        assert(seq![a].drop_last() =~= Seq::<Fragment<S>>::empty());
        assert(seq![b].drop_last() =~= Seq::<Fragment<S>>::empty());
        assert(ab.last() == b);
        assert(ba.last() == a);
        assert(seq![a].last() == a);
        assert(seq![b].last() == b);
    }

    /// A cleared screen remembers nothing: two screens of the same size and
    /// far depth are equal once cleared, whatever was drawn on them before,
    /// and so stay equal when the same fragments are drawn on both.
    pub proof fn lemma_clear_forgets(
        first: ScreenView<S>,
        second: ScreenView<S>,
        fragments: Seq<Fragment<S>>,
    )
        requires
            first.width == second.width,
            first.height == second.height,
            first.far == second.far,
            first.data.len() == second.data.len(),
            first.z_buffer.len() == second.z_buffer.len(),
        ensures
            first.cleared() == second.cleared(),
            first.cleared().drawn_all(fragments) == second.cleared().drawn_all(fragments),
            first.cleared().cleared() == first.cleared(),
    {
        assert(first.cleared().data =~= second.cleared().data);
        assert(first.cleared().z_buffer =~= second.cleared().z_buffer);
        assert(first.cleared().cleared().data =~= first.cleared().data);
        assert(first.cleared().cleared().z_buffer =~= first.cleared().z_buffer);
    }
}

impl<S: Scalar> Screen<S> {
    /// The part of the triangle's bounding box that lies on a screen of
    /// `viewport_size` pixels, and nothing where the box is wholly off the
    /// screen. The box is clamped to `0 ..= width - 1` and
    /// `0 ..= height - 1`.
    pub open spec fn spec_triangle_screen_bounding_box(
        p0: Vec2<S>,
        p1: Vec2<S>,
        p2: Vec2<S>,
        viewport_size: Vec2<S>,
    ) -> Option<BoundingBox2D<S>> {
        let bb = spec_triangle_bounding_box_2d(p0, p1, p2);
        if at_least(bb.left, viewport_size.x) || less(bb.right, spec_zero::<S>()) || at_least(
            bb.top,
            viewport_size.y,
        ) || less(bb.bottom, spec_zero::<S>()) {
            None
        } else {
            Some(
                BoundingBox2D {
                    left: spec_max(bb.left, spec_zero::<S>()),
                    right: spec_min(bb.right, viewport_size.x.sub_spec(spec_one::<S>())),
                    top: spec_max(bb.top, spec_zero::<S>()),
                    bottom: spec_min(bb.bottom, viewport_size.y.sub_spec(spec_one::<S>())),
                },
            )
        }
    }

    /// The bounding box of a triangle in screen space, clamped to the
    /// screen; `None` when the box misses the screen altogether, so that
    /// nothing of the triangle needs to be drawn.
    pub fn triangle_screen_bounding_box(positions: &[Vec2<S>; 3], viewport_size: Vec2<S>) -> (r:
        Option<BoundingBox2D<S>>)
        requires
            exact::<S>(),
            viewport_size.x.sub_req(spec_one::<S>()),
            viewport_size.y.sub_req(spec_one::<S>()),
        ensures
            r == Self::spec_triangle_screen_bounding_box(
                positions[0],
                positions[1],
                positions[2],
                viewport_size,
            ),
    {
        let bb = get_triangle_bounding_box_2d(positions);
        let z: S = zero();

        if bb.left >= viewport_size.x || bb.right < z || bb.top >= viewport_size.y || bb.bottom
            < z {
            None
        } else {
            let left = max(bb.left, z);
            let right = min(bb.right, viewport_size.x - one());
            let top = max(bb.top, z);
            let bottom = min(bb.bottom, viewport_size.y - one());

            Some(BoundingBox2D { left, right, top, bottom })
        }
    }

    /// Draws the fragments one after the other, first to last.
    pub fn draw_fragments(&mut self, fragments: &[Fragment<S>])
        requires
            old(self).data@.len() == old(self).z_buffer@.len(),
            forall|i: int|
                0 <= i < fragments@.len() ==> (#[trigger] fragments@[i]).pixel_id < old(
                    self,
                ).data@.len(),
        ensures
            ordered::<S>() ==> final(self)@ == old(self)@.drawn_all(fragments@),
    {
        let n: usize = fragments.len();
        let mut i: usize = 0;
        while i < n
            invariant
                i <= n,
                n == fragments@.len(),
                self.data@.len() == old(self).data@.len(),
                self.z_buffer@.len() == old(self).z_buffer@.len(),
                old(self).data@.len() == old(self).z_buffer@.len(),
                forall|k: int|
                    0 <= k < fragments@.len() ==> (#[trigger] fragments@[k]).pixel_id < old(
                        self,
                    ).data@.len(),
                ordered::<S>() ==> self@ == old(self)@.drawn_all(fragments@.take(i as int)),
            decreases n - i,
        {
            self.draw_fragment(fragments[i]);
            proof {
                let next = fragments@.take(i as int + 1);
                assert(next.drop_last() =~= fragments@.take(i as int));
                assert(next.last() == fragments@[i as int]);
            }
            i = i + 1;
        }
        assert(fragments@.take(n as int) =~= fragments@);
    }
}

} // verus!
