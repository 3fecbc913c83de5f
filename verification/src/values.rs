//! The override composition primitive: permission bitmasks, allow/deny
//! overrides, and the meaning of applying a sequence of rank-keyed overrides.

use vstd::prelude::*;

verus! {

/// Bitmask granting every permission that is safe to hand out wholesale.
/// Returned for server and group owners, whose identity is never diluted by
/// role or channel restrictions.
pub const GRANT_ALL_SAFE: u64 = 0x000F_FFFF_FFFF_FFFF;

/// Fixed permission set for a saved-messages channel: its only user is its
/// owner, so everything safe is granted.
pub const DEFAULT_PERMISSION_SAVED_MESSAGES: u64 = GRANT_ALL_SAFE;

/// Fixed baseline permission set for direct conversations: direct-message
/// channels, and group channels without an explicit permission value.
pub const DEFAULT_PERMISSION_DIRECT_MESSAGE: u64 = 0x0000_0000_0000_0FFF;

/// A pair of allow/deny bit sets applied as a delta to an accumulating
/// permission value. A well-formed override never marks the same bit as both
/// allowed and denied; the constructor enforces this statically.
#[derive(Clone, Copy, PartialEq, Eq, Structural, Debug)]
pub struct Override {
    allow: u64,
    deny: u64,
}

impl Override {
    /// Bits this override explicitly allows.
    pub closed spec fn allows(&self) -> u64 {
        self.allow
    }

    /// Bits this override explicitly denies.
    pub closed spec fn denies(&self) -> u64 {
        self.deny
    }

    /// An override is well formed when no bit is both allowed and denied.
    pub open spec fn wf(&self) -> bool {
        self.allows() & self.denies() == 0
    }

    pub fn new(allow: u64, deny: u64) -> (o: Override)
        requires
            allow & deny == 0,
        ensures
            o.allows() == allow,
            o.denies() == deny,
            o.wf(),
    {
        Override { allow, deny }
    }

    pub fn allow(&self) -> (r: u64)
        ensures
            r == self.allows(),
    {
        self.allow
    }

    pub fn deny(&self) -> (r: u64)
        ensures
            r == self.denies(),
    {
        self.deny
    }

    /// Precedence key of this override when it is owned by a role of the
    /// given rank. The key is the owning role's rank: overrides are applied
    /// in descending key order, so the override of the lowest-ranked
    /// (highest-precedence) role is applied last and settles conflicts.
    pub fn rank(&self, role_rank: i64) -> (r: i64)
        ensures
            r == role_rank,
    {
        role_rank
    }
}

/// Applying one override to an accumulated value: denied bits are cleared
/// first, allowed bits are set afterwards, so an override's own allow bits
/// cannot be defeated by its own deny bits.
pub open spec fn apply_override(v: u64, o: Override) -> u64 {
    (v & !o.denies()) | o.allows()
}

/// Applying a sequence of rank-keyed overrides, first to last.
pub open spec fn apply_all(v: u64, s: Seq<(i64, Override)>) -> u64
    decreases s.len(),
{
    if s.len() == 0 {
        v
    } else {
        apply_all(apply_override(v, s[0].1), s.drop_first())
    }
}

/// Resolved bitmask of granted permissions: always a complete snapshot,
/// never partially applied.
#[derive(Clone, Copy, PartialEq, Eq, Structural, Debug)]
pub struct PermissionValue(pub u64);

impl PermissionValue {
    /// Merge one override into the accumulator.
    pub fn apply(&mut self, o: Override)
        ensures
            final(self).0 == apply_override(old(self).0, o),
    {
        self.0 = (self.0 & !o.deny()) | o.allow();
    }

    pub fn value(&self) -> (r: u64)
        ensures
            r == self.0,
    {
        self.0
    }
}

/// Merge a sequence of rank-keyed overrides into the accumulator, first to
/// last.
pub(crate) fn apply_overrides(value: PermissionValue, pairs: &Vec<(i64, Override)>) -> (r:
    PermissionValue)
    ensures
        r.0 == apply_all(value.0, pairs@),
{
    let mut acc = value;
    let mut i: usize = 0;
    proof {
        assert(pairs@.skip(0) =~= pairs@);
    }
    while i < pairs.len()
        invariant
            i <= pairs@.len(),
            apply_all(value.0, pairs@) == apply_all(acc.0, pairs@.skip(i as int)),
        decreases pairs@.len() - i,
    {
        let o: (i64, Override) = pairs[i];
        proof {
            assert(pairs@.skip(i as int).drop_first() =~= pairs@.skip(i + 1));
            assert(pairs@.skip(i as int)[0] == pairs@[i as int]);
        }
        acc.apply(o.1);
        i += 1;
    }
    proof {
        assert(pairs@.skip(pairs@.len() as int) =~= Seq::<(i64, Override)>::empty());
    }
    acc
}

} // verus!
