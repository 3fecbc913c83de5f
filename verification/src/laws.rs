//! Laws of permission resolution, stated over the specification functions
//! that the calculator's contract uses.

use vstd::prelude::*;

use crate::Error;
use crate::calculator::{
    PermissionCalculator, Target, select_role_overrides, spec_calc, spec_server_permission,
};
use crate::models::channel::Channel;
use crate::models::server::{RoleModel, Server, ServerModel};
use crate::ordering::{insert_desc, sort_desc};
use crate::traits::Database;
use crate::values::{
    DEFAULT_PERMISSION_DIRECT_MESSAGE, DEFAULT_PERMISSION_SAVED_MESSAGES, GRANT_ALL_SAFE, Override,
    apply_all, apply_override,
};

verus! {

/// The owner of a server is granted everything safe at server scope,
/// regardless of the member's roles and of the server's default permissions.
pub proof fn lemma_owner_server_permission(
    sm: ServerModel,
    perspective: Seq<char>,
    member_roles: Seq<Seq<char>>,
)
    requires
        perspective == sm.owner,
    ensures
        spec_server_permission(sm, perspective, member_roles) == GRANT_ALL_SAFE,
{
}

/// A whole calculation against a server target owned by the perspective
/// returns the grant-all-safe constant, whatever the collaborator stores.
pub proof fn lemma_owner_grant_all<D: Database>(c: PermissionCalculator, db: D, s: Server)
    requires
        c.cached_permission is None,
        c.target == Target::Server(s),
        c.perspective.id@ == s@.owner,
    ensures
        spec_calc(c, db) == Ok::<u64, Error>(GRANT_ALL_SAFE),
{
}

/// No role id is ever selected out of an empty assignment set.
proof fn lemma_select_none(roles: Seq<RoleModel>)
    ensures
        select_role_overrides(roles, Seq::empty()) == Seq::<(i64, Override)>::empty(),
    decreases roles.len(),
{
    if roles.len() > 0 {
        lemma_select_none(roles.drop_first());
        assert(!Seq::<Seq<char>>::empty().contains(roles[0].id));
    }
    assert(select_role_overrides(roles, Seq::empty()) =~= Seq::<(i64, Override)>::empty());
}

/// A member with an empty role-id set gets exactly the server's default
/// permission value at server scope. (The server owner never reaches this
/// path: the owner short-circuit fires first.)
pub proof fn lemma_empty_roles_default(sm: ServerModel, perspective: Seq<char>)
    requires
        perspective != sm.owner,
    ensures
        spec_server_permission(sm, perspective, Seq::empty()) == sm.default_permissions,
{
    lemma_select_none(sm.roles);
    assert(sort_desc(Seq::<(i64, Override)>::empty()) =~= Seq::<(i64, Override)>::empty());
}

/// Two rank-keyed overrides both assigned to the member are applied in a
/// deterministic order, whichever order they are stored in: the override with
/// the larger key first, the one with the smaller key (the higher-precedence
/// role) last.
pub proof fn lemma_rank_conflict(default: u64, lo: (i64, Override), hi: (i64, Override))
    requires
        lo.0 < hi.0,
    ensures
        apply_all(default, sort_desc(seq![lo, hi])) == apply_override(
            apply_override(default, hi.1),
            lo.1,
        ),
        apply_all(default, sort_desc(seq![hi, lo])) == apply_override(
            apply_override(default, hi.1),
            lo.1,
        ),
{
    assert(sort_desc(Seq::<(i64, Override)>::empty()) =~= Seq::<(i64, Override)>::empty());
    assert(seq![lo].drop_last() =~= Seq::<(i64, Override)>::empty());
    assert(seq![hi].drop_last() =~= Seq::<(i64, Override)>::empty());
    assert(seq![lo, hi].drop_last() =~= seq![lo]);
    assert(seq![hi, lo].drop_last() =~= seq![hi]);
    assert(sort_desc(seq![lo]) =~= insert_desc(Seq::<(i64, Override)>::empty(), lo));
    assert(sort_desc(seq![lo]) =~= seq![lo]);
    assert(sort_desc(seq![hi]) =~= seq![hi]);
    assert(sort_desc(seq![lo, hi]) =~= insert_desc(seq![lo], hi));
    assert(insert_desc(seq![lo], hi) =~= seq![hi] + seq![lo]);
    assert(sort_desc(seq![hi, lo]) =~= insert_desc(seq![hi], lo));
    assert(insert_desc(Seq::<(i64, Override)>::empty(), lo) =~= seq![lo]);
    assert(seq![hi].drop_first() =~= Seq::<(i64, Override)>::empty());
    assert(insert_desc(seq![hi], lo) =~= seq![hi] + insert_desc(
        Seq::<(i64, Override)>::empty(),
        lo,
    ));
    let both = seq![hi] + seq![lo];
    assert(sort_desc(seq![lo, hi]) =~= both);
    assert(sort_desc(seq![hi, lo]) =~= both);
    assert(both.drop_first() =~= seq![lo]);
    assert(seq![lo].drop_first() =~= Seq::<(i64, Override)>::empty());
    assert(both[0] == hi);
    assert(seq![lo][0] == lo);
    assert(apply_all(default, both) == apply_all(apply_override(default, hi.1), seq![lo]));
    let after_hi = apply_override(default, hi.1);
    assert(apply_all(apply_override(after_hi, lo.1), Seq::<(i64, Override)>::empty())
        == apply_override(after_hi, lo.1));
    assert(apply_all(after_hi, seq![lo]) == apply_override(after_hi, lo.1));
}

/// The override applied last decides a permission bit it touches: a bit it
/// allows is set in the result, a bit a well-formed override denies is
/// cleared.
pub proof fn lemma_last_override_decides_bit(v: u64, o: Override, bit: u64)
    ensures
        o.allows() & bit == bit ==> apply_override(v, o) & bit == bit,
        o.wf() && o.denies() & bit == bit ==> apply_override(v, o) & bit == 0,
{
    let a: u64 = o.allows();
    let d: u64 = o.denies();
    assert(a & bit == bit ==> ((v & !d) | a) & bit == bit) by (bit_vector);
    assert((a & d == 0 && d & bit == bit) ==> ((v & !d) | a) & bit == 0) by (bit_vector);
}

/// Saved-messages and direct-message channels resolve to their fixed
/// constants for every perspective and every collaborator, regardless of any
/// stored override data.
pub proof fn lemma_fixed_channel_constants<D: Database>(c: PermissionCalculator, db: D)
    requires
        c.cached_permission is None,
    ensures
        (match c.target {
            Target::Channel(ch) => ch matches Channel::SavedMessages { .. } ==> spec_calc(c, db)
                == Ok::<u64, Error>(DEFAULT_PERMISSION_SAVED_MESSAGES),
            Target::Server(_) => true,
        }),
        (match c.target {
            Target::Channel(ch) => ch matches Channel::DirectMessage { .. } ==> spec_calc(c, db)
                == Ok::<u64, Error>(DEFAULT_PERMISSION_DIRECT_MESSAGE),
            Target::Server(_) => true,
        }),
{
}

/// Memoized idempotence: once a value is cached, every later calculation
/// returns that value, whatever collaborator is supplied.
pub proof fn lemma_cached_idempotent<D: Database>(c: PermissionCalculator, db: D, v: u64)
    requires
        c.cached_permission == Some(v),
    ensures
        spec_calc(c, db) == Ok::<u64, Error>(v),
{
}

} // verus!
