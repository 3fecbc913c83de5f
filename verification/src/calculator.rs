//! The permission calculator: resolves the effective permission bitmask an
//! acting identity holds against a server or a channel.
//!
//! A calculator is built for one perspective and exactly one target, lives
//! for one calculation, and memoizes its result. Server resolution
//! short-circuits for the owner, otherwise starts from the server's default
//! permissions and applies the overrides of the member's roles in descending
//! rank-key order, so the lowest-ranked role settles conflicts. Channel
//! resolution first resolves the owning server (for the kinds that have one)
//! and layers channel overrides on top; the owner bypass propagates from
//! server to channel, so an owner's identity is never diluted by
//! channel-level restrictions.

use vstd::prelude::*;
use vstd::pervasive::unreached;

use crate::Error;
use crate::models::channel::{Channel, channel_server_id};
use crate::models::server::{Member, Role, RoleModel, Server, ServerModel, User, roles_view};
use crate::ordering::{sort_desc, sort_overrides};
use crate::traits::Database;
use crate::values::{
    DEFAULT_PERMISSION_DIRECT_MESSAGE, DEFAULT_PERMISSION_SAVED_MESSAGES, GRANT_ALL_SAFE, Override,
    PermissionValue, apply_all, apply_override, apply_overrides,
};

verus! {

/// The one target of a calculation: a server or a channel, never both and
/// never neither.
pub enum Target {
    Server(Server),
    Channel(Channel),
}

/// Per-calculation context: the perspective, the target, lazily resolved
/// slots for the target's server and the perspective's member record, and the
/// memoized result.
pub struct PermissionCalculator {
    pub perspective: User,
    pub target: Target,
    pub server: Option<Server>,
    pub member: Option<Member>,
    pub cached_permission: Option<u64>,
}

/// Role ids assigned to a member; a member without the optional set has none.
pub open spec fn member_roles_or_empty(roles: Option<Seq<Seq<char>>>) -> Seq<Seq<char>> {
    match roles {
        Some(rs) => rs,
        None => Seq::empty(),
    }
}

/// The overrides of the server roles assigned to the member, each keyed by
/// the owning role's rank, in storage order.
pub open spec fn select_role_overrides(roles: Seq<RoleModel>, member_roles: Seq<Seq<char>>) -> Seq<
    (i64, Override),
>
    decreases roles.len(),
{
    if roles.len() == 0 {
        Seq::empty()
    } else {
        let rest = select_role_overrides(roles.drop_first(), member_roles);
        if member_roles.contains(roles[0].id) {
            seq![(roles[0].rank, roles[0].permissions)] + rest
        } else {
            rest
        }
    }
}

/// Rank of the first role with the given id, if any.
pub open spec fn find_rank(roles: Seq<RoleModel>, id: Seq<char>) -> Option<i64>
    decreases roles.len(),
{
    if roles.len() == 0 {
        None
    } else if roles[0].id == id {
        Some(roles[0].rank)
    } else {
        find_rank(roles.drop_first(), id)
    }
}

/// The channel overrides whose role id is assigned to the member, each keyed
/// by the rank of that role on the owning server, in storage order.
pub open spec fn select_channel_overrides(
    rp: Seq<(String, Override)>,
    server_roles: Seq<RoleModel>,
    member_roles: Seq<Seq<char>>,
) -> Seq<(i64, Override)>
    decreases rp.len(),
{
    if rp.len() == 0 {
        Seq::empty()
    } else {
        let rest = select_channel_overrides(rp.drop_first(), server_roles, member_roles);
        if member_roles.contains(rp[0].0@) {
            let k = match find_rank(server_roles, rp[0].0@) {
                Some(k) => k,
                None => 0,
            };
            seq![(k, rp[0].1)] + rest
        } else {
            rest
        }
    }
}

/// Apply a channel's own default override, when it has one.
pub open spec fn apply_default(base: u64, dp: Option<Override>) -> u64 {
    match dp {
        Some(o) => apply_override(base, o),
        None => base,
    }
}

/// Server-scope resolution: the owner is granted everything safe; anyone
/// else starts from the server's default permissions, to which the overrides
/// of the member's roles are applied in descending rank-key order.
pub open spec fn spec_server_permission(
    sm: ServerModel,
    perspective: Seq<char>,
    member_roles: Seq<Seq<char>>,
) -> u64 {
    if perspective == sm.owner {
        GRANT_ALL_SAFE
    } else {
        apply_all(sm.default_permissions, sort_desc(select_role_overrides(sm.roles, member_roles)))
    }
}

/// Channel-scope resolution for a server-bound channel, once the server-scope
/// base value is known: the channel's default override is applied first, then
/// the member's channel role overrides in descending rank-key order.
pub open spec fn spec_text_voice_permission(
    base: u64,
    dp: Option<Override>,
    rp: Seq<(String, Override)>,
    server_roles: Seq<RoleModel>,
    member_roles: Seq<Seq<char>>,
) -> u64 {
    apply_all(
        apply_default(base, dp),
        sort_desc(select_channel_overrides(rp, server_roles, member_roles)),
    )
}

/// Every role id keyed in a channel's per-role overrides that the member
/// actually holds names a role of the owning server. Overrides for role ids
/// the member does not hold are never looked up and may dangle.
pub open spec fn channel_roles_on_server(
    rp: Seq<(String, Override)>,
    server_roles: Seq<RoleModel>,
    member_roles: Seq<Seq<char>>,
) -> bool {
    forall|j: int|
        0 <= j < rp.len() && member_roles.contains(rp[j].0@) ==> (#[trigger] find_rank(
            server_roles,
            rp[j].0@,
        )) is Some
}

/// The server a channel calculation works against: the pre-resolved slot if
/// one is set, otherwise whatever the collaborator stores under the channel's
/// server id.
pub open spec fn effective_server<D: Database>(
    c: PermissionCalculator,
    db: D,
    sid: Seq<char>,
) -> Option<ServerModel> {
    match c.server {
        Some(s) => Some(s@),
        None => db.server_model(sid),
    }
}

/// The member record a calculation works against: the pre-resolved slot if
/// one is set, otherwise whatever the collaborator stores for the perspective
/// on the given server.
pub open spec fn spec_member_lookup<D: Database>(
    c: PermissionCalculator,
    db: D,
    sm: ServerModel,
) -> Option<crate::models::server::MemberModel> {
    match c.member {
        Some(m) => Some(m@),
        None => db.member_model(sm.id, c.perspective.id@),
    }
}

/// The member whose channel role overrides a server-bound channel
/// calculation applies: for a non-owner the looked-up member, for the owner
/// only a pre-resolved member slot (the owner short-circuit never fetches
/// one).
pub open spec fn channel_member<D: Database>(
    c: PermissionCalculator,
    db: D,
    sm: ServerModel,
) -> Option<crate::models::server::MemberModel> {
    if c.perspective.id@ == sm.owner {
        match c.member {
            Some(m) => Some(m@),
            None => None,
        }
    } else {
        spec_member_lookup(c, db, sm)
    }
}

/// Precondition of a calculation for one server-bound channel target: every
/// channel role override that would be applied (its role id held by the
/// member whose overrides count) resolves to a role of the effective server.
/// The collaborator is responsible for this referential integrity; the
/// calculator relies on it.
pub open spec fn channel_target_requires<D: Database>(
    c: PermissionCalculator,
    db: D,
    sid: Seq<char>,
    rp: Seq<(String, Override)>,
) -> bool {
    match effective_server(c, db, sid) {
        Some(sm) => match channel_member(c, db, sm) {
            Some(mm) => channel_roles_on_server(rp, sm.roles, member_roles_or_empty(mm.roles)),
            None => true,
        },
        None => true,
    }
}

/// Precondition of a calculation: referential integrity of the channel role
/// overrides that will actually be applied. Trivial for server targets and
/// for channels without an owning server.
pub open spec fn calc_requires<D: Database>(c: PermissionCalculator, db: D) -> bool {
    match c.target {
        Target::Channel(ch) => match ch {
            Channel::TextChannel { server, role_permissions, .. } => channel_target_requires(
                c,
                db,
                server@,
                role_permissions@,
            ),
            Channel::VoiceChannel { server, role_permissions, .. } => channel_target_requires(
                c,
                db,
                server@,
                role_permissions@,
            ),
            _ => true,
        },
        Target::Server(_) => true,
    }
}

/// How a server-target calculation leaves the lazily resolved slots: the
/// server slot is untouched; the member slot stays as it was for the owner
/// (the short-circuit never fetches) and, on success, holds the looked-up
/// member for anyone else.
pub open spec fn server_slots_after<D: Database>(
    pre: PermissionCalculator,
    post: PermissionCalculator,
    db: D,
    sm: ServerModel,
    ok: bool,
) -> bool {
    &&& post.server == pre.server
    &&& (pre.perspective.id@ == sm.owner ==> post.member == pre.member)
    &&& (pre.perspective.id@ != sm.owner ==> match spec_member_lookup(pre, db, sm) {
        Some(mm) => ok ==> (post.member matches Some(m) && m@ == mm),
        None => post.member == pre.member,
    })
}

/// How a calculation against a server-bound channel leaves the lazily
/// resolved slots: on success the server slot holds the effective server; the
/// member slot stays as it was for the owner, and holds the looked-up member
/// for anyone else; on failure neither slot gains a member, and the server
/// slot is either untouched or already holds the effective server.
pub open spec fn channel_slots_after<D: Database>(
    pre: PermissionCalculator,
    post: PermissionCalculator,
    db: D,
    sid: Seq<char>,
    ok: bool,
) -> bool {
    match effective_server(pre, db, sid) {
        None => post.server == pre.server && post.member == pre.member,
        Some(sm) => {
            &&& (ok ==> (post.server matches Some(s) && s@ == sm))
            &&& (!ok ==> post.server == pre.server || (post.server matches Some(s) && s@ == sm))
            &&& (pre.perspective.id@ == sm.owner ==> post.member == pre.member)
            &&& (ok && pre.perspective.id@ != sm.owner ==> (post.member matches Some(m) && Some(
                m@,
            ) == spec_member_lookup(pre, db, sm)))
            &&& (!ok ==> post.member == pre.member)
        },
    }
}

/// Result of a server-target calculation.
pub open spec fn spec_calc_server<D: Database>(
    c: PermissionCalculator,
    db: D,
    sm: ServerModel,
) -> Result<u64, Error> {
    if c.perspective.id@ == sm.owner {
        Ok(GRANT_ALL_SAFE)
    } else {
        match spec_member_lookup(c, db, sm) {
            Some(mm) => Ok(
                spec_server_permission(sm, c.perspective.id@, member_roles_or_empty(mm.roles)),
            ),
            None => Err(Error::NotFound),
        }
    }
}

/// Result of a calculation against a server-bound channel.
pub open spec fn spec_calc_text_voice<D: Database>(
    c: PermissionCalculator,
    db: D,
    sid: Seq<char>,
    dp: Option<Override>,
    rp: Seq<(String, Override)>,
) -> Result<u64, Error> {
    match effective_server(c, db, sid) {
        None => Err(Error::NotFound),
        Some(sm) => {
            if c.perspective.id@ == sm.owner {
                match c.member {
                    None => Ok(GRANT_ALL_SAFE),
                    Some(m) => Ok(
                        spec_text_voice_permission(
                            GRANT_ALL_SAFE,
                            dp,
                            rp,
                            sm.roles,
                            member_roles_or_empty(m@.roles),
                        ),
                    ),
                }
            } else {
                match spec_member_lookup(c, db, sm) {
                    None => Err(Error::NotFound),
                    Some(mm) => Ok(
                        spec_text_voice_permission(
                            spec_server_permission(
                                sm,
                                c.perspective.id@,
                                member_roles_or_empty(mm.roles),
                            ),
                            dp,
                            rp,
                            sm.roles,
                            member_roles_or_empty(mm.roles),
                        ),
                    ),
                }
            }
        },
    }
}

/// Result of a channel-target calculation.
pub open spec fn spec_calc_channel<D: Database>(
    c: PermissionCalculator,
    db: D,
    ch: Channel,
) -> Result<u64, Error> {
    match ch {
        Channel::SavedMessages { .. } => Ok(DEFAULT_PERMISSION_SAVED_MESSAGES),
        Channel::DirectMessage { .. } => Ok(DEFAULT_PERMISSION_DIRECT_MESSAGE),
        Channel::Group { owner, permissions, .. } => Ok(
            if c.perspective.id@ == owner@ {
                GRANT_ALL_SAFE
            } else {
                match permissions {
                    Some(p) => p,
                    None => DEFAULT_PERMISSION_DIRECT_MESSAGE,
                }
            },
        ),
        Channel::TextChannel { server, default_permissions, role_permissions, .. } => spec_calc_text_voice(
            c,
            db,
            server@,
            default_permissions,
            role_permissions@,
        ),
        Channel::VoiceChannel { server, default_permissions, role_permissions, .. } => spec_calc_text_voice(
            c,
            db,
            server@,
            default_permissions,
            role_permissions@,
        ),
    }
}

/// Result of one full calculation: the memoized value when one is cached,
/// otherwise the resolution of the single target.
pub open spec fn spec_calc<D: Database>(c: PermissionCalculator, db: D) -> Result<u64, Error> {
    match c.cached_permission {
        Some(v) => Ok(v),
        None => match c.target {
            Target::Server(s) => spec_calc_server(c, db, s@),
            Target::Channel(ch) => spec_calc_channel(c, db, ch),
        },
    }
}

/// Wrap a raw resolution result in the produced value type.
pub open spec fn lift(r: Result<u64, Error>) -> Result<PermissionValue, Error> {
    match r {
        Ok(v) => Ok(PermissionValue(v)),
        Err(e) => Err(e),
    }
}

/// A server to resolve against is at hand: the target itself, or the
/// pre-resolved slot for a channel target.
pub open spec fn server_available(c: PermissionCalculator) -> bool {
    match c.target {
        Target::Server(_) => true,
        Target::Channel(_) => c.server is Some,
    }
}

/// The server a server-scope resolution reads, under `server_available`.
pub open spec fn current_server_model(c: PermissionCalculator) -> ServerModel {
    match c.target {
        Target::Server(s) => s@,
        Target::Channel(_) => match c.server {
            Some(s) => s@,
            None => vstd::pervasive::arbitrary(),
        },
    }
}

/// The perspective, target and memo slot are untouched.
pub open spec fn preserves_context(pre: PermissionCalculator, post: PermissionCalculator) -> bool {
    &&& post.perspective == pre.perspective
    &&& post.target == pre.target
    &&& post.cached_permission == pre.cached_permission
}

/// Does the member hold this role id?
fn has_role(roles: &Option<Vec<String>>, id: &String) -> (b: bool)
    ensures
        b == member_roles_or_empty(roles.deep_view()).contains(id@),
{
    match roles {
        Some(v) => {
            let ghost rs = member_roles_or_empty(roles.deep_view());
            proof {
                assert(rs == v.deep_view());
                assert forall|k: int| 0 <= k < v@.len() implies #[trigger] rs[k] == v@[k]@ by {
                    assert(rs[k] == v@[k].deep_view());
                }
            }
            let mut i: usize = 0;
            while i < v.len()
                invariant
                    i <= v@.len(),
                    rs == member_roles_or_empty(roles.deep_view()),
                    rs.len() == v@.len(),
                    forall|k: int| 0 <= k < v@.len() ==> #[trigger] rs[k] == v@[k]@,
                    forall|k: int| 0 <= k < i ==> rs[k] != id@,
                decreases v@.len() - i,
            {
                if v[i] == *id {
                    proof {
                        assert(rs[i as int] == v@[i as int]@);
                    }
                    return true;
                }
                i += 1;
            }
            proof {
                assert forall|k: int| 0 <= k < rs.len() implies rs[k] != id@ by {
                    assert(rs[k] == v@[k]@);
                }
            }
            false
        },
        None => false,
    }
}

/// Rank of the first server role with the given id, if any.
fn find_role_rank(roles: &Vec<Role>, id: &String) -> (r: Option<i64>)
    ensures
        r == find_rank(roles_view(roles@), id@),
{
    let ghost rv = roles_view(roles@);
    let mut i: usize = 0;
    proof {
        assert(rv.skip(0) =~= rv);
    }
    while i < roles.len()
        invariant
            i <= roles@.len(),
            rv == roles_view(roles@),
            find_rank(rv, id@) == find_rank(rv.skip(i as int), id@),
        decreases roles@.len() - i,
    {
        proof {
            assert(rv.skip(i as int)[0] == rv[i as int]);
            assert(rv.skip(i as int).drop_first() =~= rv.skip(i + 1));
        }
        if roles[i].id == *id {
            return Some(roles[i].rank);
        }
        i += 1;
    }
    proof {
        assert(rv.skip(roles@.len() as int) =~= Seq::<RoleModel>::empty());
    }
    None
}

/// Collect the overrides of the server roles assigned to the member, keyed by
/// role rank, in storage order.
fn collect_server_overrides(roles: &Vec<Role>, member_roles: &Option<Vec<String>>) -> (r: Vec<
    (i64, Override),
>)
    ensures
        r@ == select_role_overrides(
            roles_view(roles@),
            member_roles_or_empty(member_roles.deep_view()),
        ),
{
    let ghost rv = roles_view(roles@);
    let ghost mrs = member_roles_or_empty(member_roles.deep_view());
    let mut out: Vec<(i64, Override)> = Vec::new();
    let mut i: usize = 0;
    proof {
        assert(rv.skip(0) =~= rv);
    }
    while i < roles.len()
        invariant
            i <= roles@.len(),
            rv == roles_view(roles@),
            mrs == member_roles_or_empty(member_roles.deep_view()),
            select_role_overrides(rv, mrs) == out@ + select_role_overrides(
                rv.skip(i as int),
                mrs,
            ),
        decreases roles@.len() - i,
    {
        proof {
            assert(rv.skip(i as int)[0] == rv[i as int]);
            assert(rv.skip(i as int).drop_first() =~= rv.skip(i + 1));
        }
        let ghost out_pre = out@;
        let role = &roles[i];
        if has_role(member_roles, &role.id) {
            let key: i64 = role.permissions.rank(role.rank);
            out.push((key, role.permissions));
        }
        proof {
            assert(out@ + select_role_overrides(rv.skip(i + 1), mrs) =~= out_pre
                + select_role_overrides(rv.skip(i as int), mrs));
        }
        i += 1;
    }
    proof {
        assert(rv.skip(roles@.len() as int) =~= Seq::<RoleModel>::empty());
        assert(out@ =~= out@ + select_role_overrides(Seq::empty(), mrs));
    }
    out
}

/// Collect the channel overrides whose role id is assigned to the member,
/// keyed by the rank of that role on the owning server, in storage order.
fn collect_channel_overrides(
    rp: &Vec<(String, Override)>,
    server_roles: &Vec<Role>,
    member_roles: &Option<Vec<String>>,
) -> (r: Vec<(i64, Override)>)
    requires
        channel_roles_on_server(
            rp@,
            roles_view(server_roles@),
            member_roles_or_empty(member_roles.deep_view()),
        ),
    ensures
        r@ == select_channel_overrides(
            rp@,
            roles_view(server_roles@),
            member_roles_or_empty(member_roles.deep_view()),
        ),
{
    let ghost srv = roles_view(server_roles@);
    let ghost mrs = member_roles_or_empty(member_roles.deep_view());
    let mut out: Vec<(i64, Override)> = Vec::new();
    let mut i: usize = 0;
    proof {
        assert(rp@.skip(0) =~= rp@);
    }
    while i < rp.len()
        invariant
            i <= rp@.len(),
            srv == roles_view(server_roles@),
            mrs == member_roles_or_empty(member_roles.deep_view()),
            channel_roles_on_server(rp@, srv, mrs),
            select_channel_overrides(rp@, srv, mrs) == out@ + select_channel_overrides(
                rp@.skip(i as int),
                srv,
                mrs,
            ),
        decreases rp@.len() - i,
    {
        proof {
            assert(rp@.skip(i as int)[0] == rp@[i as int]);
            assert(rp@.skip(i as int).drop_first() =~= rp@.skip(i + 1));
        }
        let ghost out_pre = out@;
        let pair = &rp[i];
        if has_role(member_roles, &pair.0) {
            proof {
                assert(find_rank(srv, rp@[i as int].0@) is Some);
            }
            match find_role_rank(server_roles, &pair.0) {
                Some(k) => {
                    out.push((k, pair.1));
                },
                None => {
                    unreached()
                },
            }
        }
        proof {
            assert(out@ + select_channel_overrides(rp@.skip(i + 1), srv, mrs) =~= out_pre
                + select_channel_overrides(rp@.skip(i as int), srv, mrs));
        }
        i += 1;
    }
    proof {
        assert(rp@.skip(rp@.len() as int) =~= Seq::<(String, Override)>::empty());
        assert(out@ =~= out@ + select_channel_overrides(Seq::empty(), srv, mrs));
    }
    out
}

/// Server-scope resolution against the target server or the pre-resolved
/// server slot. May populate the member slot as a side effect; an owner
/// short-circuit never does.
fn calculate_server_permission<D: Database>(data: &mut PermissionCalculator, db: &D) -> (r: Result<
    PermissionValue,
    Error,
>)
    requires
        server_available(*old(data)),
    ensures
        preserves_context(*old(data), *final(data)),
        final(data).server == old(data).server,
        ({
            let sm = current_server_model(*old(data));
            if old(data).perspective.id@ == sm.owner {
                &&& r == Ok::<PermissionValue, Error>(PermissionValue(GRANT_ALL_SAFE))
                &&& final(data).member == old(data).member
            } else {
                match spec_member_lookup(*old(data), *db, sm) {
                    Some(mm) => {
                        &&& r == Ok::<PermissionValue, Error>(
                            PermissionValue(
                                spec_server_permission(
                                    sm,
                                    old(data).perspective.id@,
                                    member_roles_or_empty(mm.roles),
                                ),
                            ),
                        )
                        &&& final(data).member matches Some(m) && m@ == mm
                    },
                    None => {
                        &&& r == Err::<PermissionValue, Error>(Error::NotFound)
                        &&& final(data).member == old(data).member
                    },
                }
            }
        }),
{
    let (owner, default): (String, u64) = match &data.target {
        Target::Server(s) => (s.owner.clone(), s.default_permissions),
        Target::Channel(_) => match &data.server {
            Some(s) => (s.owner.clone(), s.default_permissions),
            None => unreached(),
        },
    };
    if data.perspective.id == owner {
        return Ok(PermissionValue(GRANT_ALL_SAFE));
    }
    if data.member.is_none() {
        let sid: String = match &data.target {
            Target::Server(s) => s.id.clone(),
            Target::Channel(_) => match &data.server {
                Some(s) => s.id.clone(),
                None => unreached(),
            },
        };
        match db.fetch_member(&sid, &data.perspective.id) {
            Ok(m) => {
                data.member = Some(m);
            },
            Err(e) => {
                return Err(e);
            },
        }
    }
    let pairs: Vec<(i64, Override)> = match (&data.target, &data.server, &data.member) {
        (Target::Server(s), _, Some(m)) => collect_server_overrides(&s.roles, &m.roles),
        (Target::Channel(_), Some(s), Some(m)) => collect_server_overrides(&s.roles, &m.roles),
        _ => unreached(),
    };
    let sorted = sort_overrides(&pairs);
    let value = apply_overrides(PermissionValue(default), &sorted);
    Ok(value)
}

/// Channel-scope resolution for a channel target.
fn calculate_channel_permission<D: Database>(data: &mut PermissionCalculator, db: &D) -> (r: Result<
    PermissionValue,
    Error,
>)
    requires
        old(data).target matches Target::Channel(_),
        calc_requires(*old(data), *db),
    ensures
        preserves_context(*old(data), *final(data)),
        (match old(data).target {
            Target::Channel(ch) => {
                &&& r == lift(spec_calc_channel(*old(data), *db, ch))
                &&& (channel_server_id(ch) is None ==> final(data).server == old(data).server
                    && final(data).member == old(data).member)
                &&& (match channel_server_id(ch) {
                    Some(sid) => channel_slots_after(*old(data), *final(data), *db, sid, r is Ok),
                    None => true,
                })
            },
            Target::Server(_) => false,
        }),
{
    let sid_opt: Option<String> = match &data.target {
        Target::Channel(ch) => match ch {
            Channel::TextChannel { server, .. } => Some(server.clone()),
            Channel::VoiceChannel { server, .. } => Some(server.clone()),
            _ => None,
        },
        Target::Server(_) => unreached(),
    };
    let mut base = PermissionValue(0);
    if let Some(sid) = &sid_opt {
        if data.server.is_none() {
            match db.fetch_server(sid) {
                Ok(s) => {
                    data.server = Some(s);
                },
                Err(e) => {
                    return Err(e);
                },
            }
        }
        match calculate_server_permission(data, db) {
            Ok(p) => {
                base = p;
            },
            Err(e) => {
                return Err(e);
            },
        }
    }
    match &data.target {
        Target::Channel(ch) => match ch {
            Channel::SavedMessages { .. } => Ok(PermissionValue(DEFAULT_PERMISSION_SAVED_MESSAGES)),
            Channel::DirectMessage { .. } => Ok(PermissionValue(DEFAULT_PERMISSION_DIRECT_MESSAGE)),
            Channel::Group { owner, permissions, .. } => {
                if data.perspective.id == *owner {
                    Ok(PermissionValue(GRANT_ALL_SAFE))
                } else {
                    match permissions {
                        Some(p) => Ok(PermissionValue(*p)),
                        None => Ok(PermissionValue(DEFAULT_PERMISSION_DIRECT_MESSAGE)),
                    }
                }
            },
            Channel::TextChannel { default_permissions, role_permissions, .. } => {
                match (&data.server, &data.member) {
                    (Some(server), Some(member)) => Ok(
                        resolve_text_voice(base, default_permissions, role_permissions, server, member),
                    ),
                    (_, None) => Ok(PermissionValue(GRANT_ALL_SAFE)),
                    (None, Some(_)) => unreached(),
                }
            },
            Channel::VoiceChannel { default_permissions, role_permissions, .. } => {
                match (&data.server, &data.member) {
                    (Some(server), Some(member)) => Ok(
                        resolve_text_voice(base, default_permissions, role_permissions, server, member),
                    ),
                    (_, None) => Ok(PermissionValue(GRANT_ALL_SAFE)),
                    (None, Some(_)) => unreached(),
                }
            },
        },
        Target::Server(_) => unreached(),
    }
}

/// Layer a server-bound channel's own overrides on top of the server-scope
/// base value.
fn resolve_text_voice(
    base: PermissionValue,
    default_permissions: &Option<Override>,
    role_permissions: &Vec<(String, Override)>,
    server: &Server,
    member: &Member,
) -> (r: PermissionValue)
    requires
        channel_roles_on_server(
            role_permissions@,
            roles_view(server.roles@),
            member_roles_or_empty(member.roles.deep_view()),
        ),
    ensures
        r.0 == spec_text_voice_permission(
            base.0,
            *default_permissions,
            role_permissions@,
            roles_view(server.roles@),
            member_roles_or_empty(member.roles.deep_view()),
        ),
{
    let mut permissions = base;
    if let Some(dp) = default_permissions {
        permissions.apply(*dp);
    }
    let pairs = collect_channel_overrides(role_permissions, &server.roles, &member.roles);
    let sorted = sort_overrides(&pairs);
    apply_overrides(permissions, &sorted)
}

impl PermissionCalculator {
    /// Calculator for a server target.
    pub fn for_server(perspective: User, server: Server) -> (c: PermissionCalculator)
        ensures
            c.perspective == perspective,
            c.target == Target::Server(server),
            c.server is None,
            c.member is None,
            c.cached_permission is None,
    {
        PermissionCalculator {
            perspective,
            target: Target::Server(server),
            server: None,
            member: None,
            cached_permission: None,
        }
    }

    /// Calculator for a channel target.
    pub fn for_channel(perspective: User, channel: Channel) -> (c: PermissionCalculator)
        ensures
            c.perspective == perspective,
            c.target == Target::Channel(channel),
            c.server is None,
            c.member is None,
            c.cached_permission is None,
    {
        PermissionCalculator {
            perspective,
            target: Target::Channel(channel),
            server: None,
            member: None,
            cached_permission: None,
        }
    }

    /// Pre-resolve the server slot, so a channel calculation does not fetch.
    pub fn with_server(self, server: Server) -> (c: PermissionCalculator)
        ensures
            c.perspective == self.perspective,
            c.target == self.target,
            c.server == Some(server),
            c.member == self.member,
            c.cached_permission == self.cached_permission,
    {
        PermissionCalculator { server: Some(server), ..self }
    }

    /// Pre-resolve the member slot, so no calculation fetches the member.
    pub fn with_member(self, member: Member) -> (c: PermissionCalculator)
        ensures
            c.perspective == self.perspective,
            c.target == self.target,
            c.server == self.server,
            c.member == Some(member),
            c.cached_permission == self.cached_permission,
    {
        PermissionCalculator { member: Some(member), ..self }
    }

    /// Calculate the permissions of the perspective against the target.
    ///
    /// The first successful calculation memoizes its value; a later call
    /// observes the memo and neither fetches nor recomputes. An owner
    /// short-circuit never fetches the member record.
    pub fn calc<D: Database>(&mut self, db: &D) -> (r: Result<PermissionValue, Error>)
        requires
            old(self).cached_permission is None ==> calc_requires(*old(self), *db),
        ensures
            r == lift(spec_calc(*old(self), *db)),
            final(self).perspective == old(self).perspective,
            final(self).target == old(self).target,
            r matches Ok(v) ==> final(self).cached_permission == Some(v.0),
            r matches Err(_) ==> final(self).cached_permission == old(self).cached_permission,
            old(self).cached_permission matches Some(_) ==> *final(self) == *old(self),
            old(self).cached_permission is None ==> (match old(self).target {
                Target::Server(s) => server_slots_after(
                    *old(self),
                    *final(self),
                    *db,
                    s@,
                    r is Ok,
                ),
                Target::Channel(ch) => match channel_server_id(ch) {
                    Some(sid) => channel_slots_after(*old(self), *final(self), *db, sid, r is Ok),
                    None => final(self).member == old(self).member && final(self).server == old(
                        self,
                    ).server,
                },
            }),
    {
        if let Some(v) = self.cached_permission {
            return Ok(PermissionValue(v));
        }
        let is_channel: bool = match &self.target {
            Target::Channel(_) => true,
            Target::Server(_) => false,
        };
        let value = if is_channel {
            calculate_channel_permission(self, db)
        } else {
            calculate_server_permission(self, db)
        };
        match value {
            Ok(pv) => {
                self.cached_permission = Some(pv.value());
                Ok(pv)
            },
            Err(e) => Err(e),
        }
    }
}

} // verus!
