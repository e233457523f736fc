//! TriMoebius time: a tick counter `k2` and a committed counter `k1`.
use vstd::prelude::*;

verus! {

/// How `k1` follows `k2` on commit.
#[derive(Debug, Clone, Copy, PartialEq, Eq, Structural)]
pub enum K1Policy {
    MirrorOnCommit,
}

/// The two clocks and the non-commutativity tag.
#[derive(Debug, Clone, PartialEq, Eq)]
pub struct TriMoebiusState {
    pub k1: u64,
    pub k2: u64,
    pub nc_tag: String,
    pub policy: K1Policy,
}

impl TriMoebiusState {
    /// Advances `k2` by one, saturating at `u64::MAX`.
    pub fn tick(&mut self)
        ensures
            final(self).k2 == (if old(self).k2 == u64::MAX {
                u64::MAX
            } else {
                (old(self).k2 + 1) as u64
            }),
            final(self).k1 == old(self).k1,
            final(self).nc_tag == old(self).nc_tag,
            final(self).policy == old(self).policy,
    {
        self.k2 = self.k2.saturating_add(1);
    }

    /// Commits: under `MirrorOnCommit`, `k1` takes the value of `k2`.
    pub fn commit(&mut self)
        ensures
            final(self).k1 == old(self).k2,
            final(self).k2 == old(self).k2,
            final(self).nc_tag == old(self).nc_tag,
            final(self).policy == old(self).policy,
    {
        match self.policy {
            K1Policy::MirrorOnCommit => {
                self.k1 = self.k2;
            },
        }
    }
}

} // verus!
