//! Direction keys and the per-frame set of held keys.

use vstd::prelude::*;

verus! {

/// One of the four active movement keys. The keys are interpreted against a
/// reference frame: `Forward`/`Back` move along the frame's forward basis
/// vector, `Left`/`Right` along its right basis vector. Vertical movement
/// keys are deliberately absent: motion stays in the horizontal plane.
#[derive(Clone, Copy, Debug, PartialEq, Eq, Structural)]
pub enum DirectionKey {
    Forward,
    Back,
    Left,
    Right,
}

/// The set of direction keys held during one frame. The host's input
/// collaborator builds a fresh value each frame; order of insertion is
/// irrelevant and inserting a held key again changes nothing, as the view as
/// a mathematical set makes precise.
#[derive(Clone, Copy, Debug, PartialEq, Eq, Structural)]
pub struct PressedKeySet {
    forward_held: bool,
    back_held: bool,
    left_held: bool,
    right_held: bool,
}

impl View for PressedKeySet {
    type V = Set<DirectionKey>;

    closed spec fn view(&self) -> Set<DirectionKey> {
        Set::new(
            |k: DirectionKey|
                match k {
                    DirectionKey::Forward => self.forward_held,
                    DirectionKey::Back => self.back_held,
                    DirectionKey::Left => self.left_held,
                    DirectionKey::Right => self.right_held,
                },
        )
    }
}

impl PressedKeySet {
    /// The set for a frame in which no key is held.
    pub fn empty() -> (s: Self)
        ensures
            s@ =~= Set::<DirectionKey>::empty(),
    {
        PressedKeySet { forward_held: false, back_held: false, left_held: false, right_held: false }
    }

    /// Records that `key` is held this frame.
    pub fn insert(&mut self, key: DirectionKey)
        ensures
            final(self)@ =~= old(self)@.insert(key),
    {
        match key {
            DirectionKey::Forward => self.forward_held = true,
            DirectionKey::Back => self.back_held = true,
            DirectionKey::Left => self.left_held = true,
            DirectionKey::Right => self.right_held = true,
        }
    }

    /// Whether `key` is held this frame.
    pub fn contains(&self, key: DirectionKey) -> (held: bool)
        ensures
            held == self@.contains(key),
    {
        match key {
            DirectionKey::Forward => self.forward_held,
            DirectionKey::Back => self.back_held,
            DirectionKey::Left => self.left_held,
            DirectionKey::Right => self.right_held,
        }
    }

    /// Whether no key is held this frame.
    pub fn is_empty(&self) -> (empty: bool)
        ensures
            empty == (self@ =~= Set::<DirectionKey>::empty()),
    {
        proof {
            assert(self@.contains(DirectionKey::Forward) == self.forward_held);
            assert(self@.contains(DirectionKey::Back) == self.back_held);
            assert(self@.contains(DirectionKey::Left) == self.left_held);
            assert(self@.contains(DirectionKey::Right) == self.right_held);
        }
        !(self.forward_held || self.back_held || self.left_held || self.right_held)
    }
}

} // verus!
