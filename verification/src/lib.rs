//! Directional input-to-motion mapping.
//!
//! Each frame a host environment (a game loop) collects the set of held
//! direction keys and asks this library for the frame's motion. The answer is
//! a [`motion::MotionRequest`]: the exact pair of signed coefficients that the
//! held keys contribute along a reference frame's forward and right basis
//! vectors, together with the squared length of that accumulator. Because the
//! basis vectors are unit length and mutually orthogonal, those integers
//! describe the "normalize-or-zero" displacement completely: the displacement
//! is the zero vector when both coefficients are zero, and otherwise it is the
//! accumulator divided by the square root of `norm_sq` and scaled by
//! `speed * dt`. The host applies that scale in its own floating-point vector
//! type; everything discrete — which keys cancel, which diagonals arise, and
//! that the result is never longer than a single key's displacement — is
//! proved here.

pub mod keys;
pub mod motion;
