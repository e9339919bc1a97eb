//! The input-to-motion mapper and the laws that hold of it.

use vstd::prelude::*;
use crate::keys::DirectionKey;
use crate::keys::PressedKeySet;

verus! {

/// 1 when `key` is held in `pressed`, 0 otherwise: a held key contributes one
/// copy of its basis vector to the frame's accumulator.
pub open spec fn held_weight(pressed: Set<DirectionKey>, key: DirectionKey) -> int {
    if pressed.contains(key) {
        1
    } else {
        0
    }
}

/// Net signed coefficient of the frame's forward basis vector: `Forward`
/// adds it, `Back` subtracts it.
pub open spec fn forward_weight(pressed: Set<DirectionKey>) -> int {
    held_weight(pressed, DirectionKey::Forward) - held_weight(pressed, DirectionKey::Back)
}

/// Net signed coefficient of the frame's right basis vector: `Right` adds
/// it, `Left` subtracts it.
pub open spec fn right_weight(pressed: Set<DirectionKey>) -> int {
    held_weight(pressed, DirectionKey::Right) - held_weight(pressed, DirectionKey::Left)
}

/// Squared length of the accumulator `f * forward + r * right` for any
/// reference frame whose forward and right basis vectors are unit length and
/// mutually orthogonal.
pub open spec fn norm_sq_of(f: int, r: int) -> int {
    f * f + r * r
}

/// One frame's motion, described exactly. The displacement that the host
/// must apply is
///
/// * the zero vector when `forward` and `right` are both zero, and otherwise
/// * `(forward * F + right * R) * speed * dt / sqrt(norm_sq)`,
///
/// where `F` and `R` are the reference frame's unit forward and right basis
/// vectors. Dividing by the accumulator's length `sqrt(norm_sq)` is the
/// "normalize-or-zero" policy: a diagonal never moves faster than a single
/// key, and an empty or cancelling key set moves not at all, rather than
/// failing on a zero-length normalization.
#[derive(Clone, Copy, Debug, PartialEq, Eq, Structural)]
pub struct MotionRequest {
    /// Coefficient of the frame's forward basis vector, in `-1 ..= 1`.
    pub forward: i8,
    /// Coefficient of the frame's right basis vector, in `-1 ..= 1`.
    pub right: i8,
}

/// An integer-coordinate world-space vector. Under the fixed-world-axes
/// convention (world X is forward, world Z is right, world Y is up) the
/// accumulator of a motion request has integer coordinates, so it can be
/// carried exactly.
#[derive(Clone, Copy, Debug, PartialEq, Eq, Structural)]
pub struct Vec3i {
    pub x: i8,
    pub y: i8,
    pub z: i8,
}

impl MotionRequest {
    /// Both coefficients lie in `-1 ..= 1`; every value `compute` returns
    /// satisfies this.
    pub open spec fn wf(self) -> bool {
        &&& -1 <= self.forward <= 1
        &&& -1 <= self.right <= 1
    }

    /// Squared length of this request's accumulator.
    pub open spec fn spec_norm_sq(self) -> int {
        norm_sq_of(self.forward as int, self.right as int)
    }

    /// Whether the request is the zero displacement.
    pub open spec fn spec_is_zero(self) -> bool {
        self.forward == 0 && self.right == 0
    }

    /// Squared length of the accumulator. The host scales the accumulator by
    /// `speed * dt / sqrt(n)` when `n > 0` and applies the zero vector when
    /// `n == 0`.
    pub fn norm_sq(&self) -> (n: i32)
        ensures
            n == self.spec_norm_sq(),
    {
        let f: i32 = self.forward as i32;
        let r: i32 = self.right as i32;
        proof {
            assert(0 <= f * f <= 16384) by (nonlinear_arith)
                requires
                    -128 <= f <= 127,
            ;
            assert(0 <= r * r <= 16384) by (nonlinear_arith)
                requires
                    -128 <= r <= 127,
            ;
        }
        f * f + r * r
    }

    /// Whether the request is the zero displacement.
    pub fn is_zero(&self) -> (z: bool)
        ensures
            z == self.spec_is_zero(),
    {
        self.forward == 0 && self.right == 0
    }

    /// The accumulator on the fixed world axes: forward is world X, right is
    /// world Z. The Y coordinate is always zero — motion stays in the
    /// horizontal plane.
    pub fn world_axes_direction(&self) -> (v: Vec3i)
        ensures
            v.x == self.forward,
            v.y == 0,
            v.z == self.right,
    {
        Vec3i { x: self.forward, y: 0, z: self.right }
    }
}

/// Maps the keys held this frame to the frame's motion request: each held key
/// adds or subtracts its basis vector, and the result records the net
/// coefficient along each axis. A pure function of the key set: the frame's
/// basis vectors, `dt` and `speed` only scale the result and are applied by
/// the host.
pub fn compute(pressed: &PressedKeySet) -> (req: MotionRequest)
    ensures
        req.forward == forward_weight(pressed@),
        req.right == right_weight(pressed@),
        req.wf(),
{
    let mut f: i8 = 0;
    let mut r: i8 = 0;
    if pressed.contains(DirectionKey::Forward) {
        f = f + 1;
    }
    if pressed.contains(DirectionKey::Back) {
        f = f - 1;
    }
    if pressed.contains(DirectionKey::Right) {
        r = r + 1;
    }
    if pressed.contains(DirectionKey::Left) {
        r = r - 1;
    }
    MotionRequest { forward: f, right: r }
}

/// The square of a coefficient in `-1 ..= 1` is 0 exactly for 0 and 1
/// otherwise.
proof fn lemma_square_cases(x: int)
    requires
        -1 <= x <= 1,
    ensures
        x * x == if x == 0 { 0int } else { 1int },
{
    assert(x * x == if x == 0 { 0int } else { 1int }) by (nonlinear_arith)
        requires
            -1 <= x <= 1,
    ;
}

/// An empty key set maps to the zero request, whatever the frame, `dt` and
/// `speed`: scaling the zero accumulator gives the zero displacement.
pub proof fn lemma_empty_input_is_zero(pressed: Set<DirectionKey>)
    requires
        pressed =~= Set::<DirectionKey>::empty(),
    ensures
        forward_weight(pressed) == 0,
        right_weight(pressed) == 0,
        norm_sq_of(forward_weight(pressed), right_weight(pressed)) == 0,
{
}

/// A single held key maps to exactly its signed basis vector, and the
/// accumulator has squared length 1: after normalize-or-zero and scaling, the
/// displacement's magnitude is exactly `speed * dt` and its direction is the
/// key's signed basis vector.
pub proof fn lemma_single_key_direction(pressed: Set<DirectionKey>, key: DirectionKey)
    requires
        pressed =~= set![key],
    ensures
        key == DirectionKey::Forward ==> forward_weight(pressed) == 1 && right_weight(pressed)
            == 0,
        key == DirectionKey::Back ==> forward_weight(pressed) == -1 && right_weight(pressed) == 0,
        key == DirectionKey::Left ==> forward_weight(pressed) == 0 && right_weight(pressed) == -1,
        key == DirectionKey::Right ==> forward_weight(pressed) == 0 && right_weight(pressed) == 1,
        norm_sq_of(forward_weight(pressed), right_weight(pressed)) == 1,
{
    lemma_square_cases(forward_weight(pressed));
    lemma_square_cases(right_weight(pressed));
}

/// Opposite keys cancel: holding `Forward` and `Back` together zeroes the
/// forward coefficient whatever else is held, and likewise `Left` with
/// `Right`; when both pairs are balanced the request is the zero
/// displacement.
pub proof fn lemma_opposite_keys_cancel(pressed: Set<DirectionKey>)
    ensures
        pressed.contains(DirectionKey::Forward) && pressed.contains(DirectionKey::Back)
            ==> forward_weight(pressed) == 0,
        pressed.contains(DirectionKey::Left) && pressed.contains(DirectionKey::Right)
            ==> right_weight(pressed) == 0,
        (pressed.contains(DirectionKey::Forward) == pressed.contains(DirectionKey::Back) && pressed.contains(
            DirectionKey::Left,
        ) == pressed.contains(DirectionKey::Right)) ==> forward_weight(pressed) == 0
            && right_weight(pressed) == 0 && norm_sq_of(
            forward_weight(pressed),
            right_weight(pressed),
        ) == 0,
{
}

/// An orthogonal pair — one longitudinal key with one lateral key — gives an
/// accumulator of squared length 2: normalize-or-zero divides it by
/// `sqrt(2)`, so the diagonal displacement's magnitude is `speed * dt`, not
/// `sqrt(2) * speed * dt`.
pub proof fn lemma_orthogonal_pair(
    pressed: Set<DirectionKey>,
    longitudinal: DirectionKey,
    lateral: DirectionKey,
)
    requires
        longitudinal == DirectionKey::Forward || longitudinal == DirectionKey::Back,
        lateral == DirectionKey::Left || lateral == DirectionKey::Right,
        pressed =~= set![longitudinal, lateral],
    ensures
        norm_sq_of(forward_weight(pressed), right_weight(pressed)) == 2,
{
    lemma_square_cases(forward_weight(pressed));
    lemma_square_cases(right_weight(pressed));
}

/// The mapper is deterministic: its contract pins both coefficients as
/// functions of the key set alone, so any two requests computed from equal
/// key sets are equal.
pub proof fn lemma_compute_deterministic(
    a: MotionRequest,
    b: MotionRequest,
    pressed: Set<DirectionKey>,
)
    requires
        a.forward == forward_weight(pressed),
        a.right == right_weight(pressed),
        b.forward == forward_weight(pressed),
        b.right == right_weight(pressed),
    ensures
        a == b,
{
}

/// Every key set gives coefficients in `-1 ..= 1` and an accumulator of
/// squared length 0, 1 or 2, zero exactly when both coefficients are zero:
/// the displacement's magnitude is either 0 or exactly `speed * dt`, never a
/// partial or diagonal-inflated scale.
pub proof fn lemma_norm_sq_cases(pressed: Set<DirectionKey>)
    ensures
        -1 <= forward_weight(pressed) <= 1,
        -1 <= right_weight(pressed) <= 1,
        norm_sq_of(forward_weight(pressed), right_weight(pressed)) == 0 || norm_sq_of(
            forward_weight(pressed),
            right_weight(pressed),
        ) == 1 || norm_sq_of(forward_weight(pressed), right_weight(pressed)) == 2,
        norm_sq_of(forward_weight(pressed), right_weight(pressed)) == 0 <==> forward_weight(
            pressed,
        ) == 0 && right_weight(pressed) == 0,
{
    lemma_square_cases(forward_weight(pressed));
    lemma_square_cases(right_weight(pressed));
}

} // verus!

