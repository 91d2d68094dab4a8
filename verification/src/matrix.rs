//! Four-by-four matrices, stored column by column.
use crate::scalar::Scalar;
use crate::vector::Vec4;
use vstd::prelude::*;
use vstd::std_specs::ops::{AddSpec, MulSpec};

verus! {

/// A matrix of four columns; a vector is transformed by weighing the columns
/// with its numbers.
#[derive(Clone, Copy, Debug, PartialEq)]
pub struct Mat4<S> {
    pub x_axis: Vec4<S>,
    pub y_axis: Vec4<S>,
    pub z_axis: Vec4<S>,
    pub w_axis: Vec4<S>,
}

impl<S: Scalar> Mat4<S> {
    /// The matrix whose columns are `m[0..4]`, `m[4..8]`, `m[8..12]` and
    /// `m[12..16]`.
    pub open spec fn spec_from_cols_array(m: Seq<S>) -> Mat4<S> {
        Mat4 {
            x_axis: Vec4 { x: m[0], y: m[1], z: m[2], w: m[3] },
            y_axis: Vec4 { x: m[4], y: m[5], z: m[6], w: m[7] },
            z_axis: Vec4 { x: m[8], y: m[9], z: m[10], w: m[11] },
            w_axis: Vec4 { x: m[12], y: m[13], z: m[14], w: m[15] },
        }
    }

    /// Builds a matrix from sixteen numbers in column-major order.
    pub fn from_cols_array(m: &[S; 16]) -> (r: Mat4<S>)
        ensures
            r == Self::spec_from_cols_array(m@),
    {
        Mat4 {
            x_axis: Vec4 { x: m[0], y: m[1], z: m[2], w: m[3] },
            y_axis: Vec4 { x: m[4], y: m[5], z: m[6], w: m[7] },
            z_axis: Vec4 { x: m[8], y: m[9], z: m[10], w: m[11] },
            w_axis: Vec4 { x: m[12], y: m[13], z: m[14], w: m[15] },
        }
    }

    /// The sixteen numbers of the matrix in column-major order.
    pub open spec fn spec_to_cols_array(self) -> Seq<S> {
        seq![
            self.x_axis.x,
            self.x_axis.y,
            self.x_axis.z,
            self.x_axis.w,
            self.y_axis.x,
            self.y_axis.y,
            self.y_axis.z,
            self.y_axis.w,
            self.z_axis.x,
            self.z_axis.y,
            self.z_axis.z,
            self.z_axis.w,
            self.w_axis.x,
            self.w_axis.y,
            self.w_axis.z,
            self.w_axis.w,
        ]
    }

    /// Flattens the matrix into sixteen numbers in column-major order.
    pub fn to_cols_array(&self) -> (r: [S; 16])
        ensures
            r@ == self.spec_to_cols_array(),
    {
        let r = [
            self.x_axis.x,
            self.x_axis.y,
            self.x_axis.z,
            self.x_axis.w,
            self.y_axis.x,
            self.y_axis.y,
            self.y_axis.z,
            self.y_axis.w,
            self.z_axis.x,
            self.z_axis.y,
            self.z_axis.z,
            self.z_axis.w,
            self.w_axis.x,
            self.w_axis.y,
            self.w_axis.z,
            self.w_axis.w,
        ];
        assert(r@ =~= self.spec_to_cols_array());
        r
    }

    /// The transformed vector: the columns weighed by `rhs.x`, `rhs.y`,
    /// `rhs.z` and `rhs.w`, summed from the left.
    pub open spec fn spec_mul_vec4(self, rhs: Vec4<S>) -> Vec4<S> {
        self.x_axis.mul_spec(rhs.x).add_spec(self.y_axis.mul_spec(rhs.y)).add_spec(
            self.z_axis.mul_spec(rhs.z),
        ).add_spec(self.w_axis.mul_spec(rhs.w))
    }

    /// No step of the transformation leaves the range of `S`.
    pub open spec fn mul_vec4_defined(self, rhs: Vec4<S>) -> bool {
        &&& self.x_axis.mul_req(rhs.x)
        &&& self.y_axis.mul_req(rhs.y)
        &&& self.z_axis.mul_req(rhs.z)
        &&& self.w_axis.mul_req(rhs.w)
        &&& self.x_axis.mul_spec(rhs.x).add_req(self.y_axis.mul_spec(rhs.y))
        &&& self.x_axis.mul_spec(rhs.x).add_spec(self.y_axis.mul_spec(rhs.y)).add_req(
            self.z_axis.mul_spec(rhs.z),
        )
        &&& self.x_axis.mul_spec(rhs.x).add_spec(self.y_axis.mul_spec(rhs.y)).add_spec(
            self.z_axis.mul_spec(rhs.z),
        ).add_req(self.w_axis.mul_spec(rhs.w))
    }

    /// Transforms a vector of four numbers.
    pub fn mul_vec4(&self, rhs: Vec4<S>) -> (r: Vec4<S>)
        requires
            S::obeys_mul_spec(),
            S::obeys_add_spec(),
            self.mul_vec4_defined(rhs),
        ensures
            r == self.spec_mul_vec4(rhs),
    {
        let a = self.x_axis * rhs.x;
        let b = a + self.y_axis * rhs.y;
        let c = b + self.z_axis * rhs.z;
        c + self.w_axis * rhs.w
    }
}

} // verus!
