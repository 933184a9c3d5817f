use vstd::prelude::*;

verus! {

/// The three state vectors of the second-order time development: the
/// current state, the one before it, and the one just developed.
pub struct StateBuffers<T> {
    pub current: T,
    pub previous: T,
    pub developed: T,
}

/// The buffers after one rotation.
pub open spec fn rotated<T>(b: StateBuffers<T>) -> StateBuffers<T> {
    StateBuffers { current: b.developed, previous: b.current, developed: b.previous }
}

impl<T> StateBuffers<T> {
    /// Makes the developed state current and the current one previous; the
    /// old previous buffer becomes the target of the next development.
    pub fn swap(&mut self)
        ensures
            *final(self) == rotated(*old(self)),
            final(self).current == old(self).developed,
            final(self).previous == old(self).current,
            final(self).developed == old(self).previous,
    {
        std::mem::swap(&mut self.current, &mut self.previous);
        std::mem::swap(&mut self.current, &mut self.developed);
    }
}

/// Rotating three times gives back the buffers in their first places: no
/// buffer is lost or duplicated.
pub proof fn lemma_three_rotations_restore<T>(b: StateBuffers<T>)
    ensures
        rotated(rotated(rotated(b))) == b,
{
}

/// After a swap the freshly developed state is current and the state that
/// was current is the previous one; the old previous buffer is reused as the
/// next development target, so no buffer is lost.
pub proof fn lemma_swap_promotes_developed<T>(b: StateBuffers<T>)
    ensures
        rotated(b).current == b.developed,
        rotated(b).previous == b.current,
        rotated(b).developed == b.previous,
{
}

} // verus!
