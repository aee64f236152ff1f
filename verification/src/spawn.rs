//! The weapon resolver's spawn buffer.
//!
//! Projectiles decided on during a ship's weapon pass are buffered before
//! they enter the pool, so the fired cue can be emitted once and the spawns
//! applied at the end of the pass.  The buffer is a `smallvec::SmallVec`
//! (inline storage for the common one-or-two-shot case) held in an opaque
//! struct behind trusted wrappers; `buf_view` names its contents in push
//! order.

use vstd::prelude::*;
use crate::components::Physical;
use crate::components::Spatial;

verus! {

/// A projectile waiting in the spawn buffer: the spatial and kinematic
/// records it will carry into the pool.
#[derive(Clone, Copy, Debug)]
pub struct NewLaser {
    pub spatial: Spatial,
    pub physical: Physical,
}

/// The spawn buffer: a `smallvec::SmallVec` opaque to the verifier, read
/// and written only through the trusted wrappers below.
#[verifier::external_body]
pub struct SpawnBuffer {
    buf: smallvec::SmallVec<[NewLaser; 8]>,
}

/// What the spawn buffer holds, in push order.
pub uninterp spec fn buf_view(v: SpawnBuffer) -> Seq<NewLaser>;

impl SpawnBuffer {
    /// Relies on smallvec::SmallVec::new: a freshly built vector is empty.
    #[verifier::external_body]
    pub(crate) fn new() -> (r: SpawnBuffer)
        ensures
            buf_view(r) == Seq::<NewLaser>::empty(),
    {
        SpawnBuffer { buf: smallvec::SmallVec::new() }
    }

    /// Relies on smallvec::SmallVec::push: appends the item at the end.
    #[verifier::external_body]
    pub(crate) fn push(&mut self, item: NewLaser)
        requires
            buf_view(*old(self)).len() < 8,
        ensures
            buf_view(*final(self)) == buf_view(*old(self)).push(item),
    {
        self.buf.push(item);
    }

    /// Relies on smallvec::SmallVec::is_empty: the length is zero.
    #[verifier::external_body]
    pub(crate) fn is_empty(&self) -> (r: bool)
        ensures
            r == (buf_view(*self).len() == 0),
    {
        self.buf.is_empty()
    }

    /// Relies on smallvec's IntoIterator: it yields the items in push order.
    #[verifier::external_body]
    pub(crate) fn drain(self) -> (r: Vec<NewLaser>)
        ensures
            r@ == buf_view(self),
    {
        self.buf.into_iter().collect()
    }
}

} // verus!
