//! Servers, roles and server members, with their mathematical models.

use vstd::prelude::*;

use crate::values::Override;

verus! {

/// The acting identity a permission value is computed for.
#[derive(Debug)]
pub struct User {
    pub id: String,
}

/// Named permission grant assignable to members. The rank totally orders
/// roles for conflict resolution: the lower the rank, the higher the role's
/// precedence.
#[derive(Debug)]
pub struct Role {
    pub id: String,
    pub permissions: Override,
    pub rank: i64,
}

/// Mathematical model of a role.
#[verifier::ext_equal]
pub ghost struct RoleModel {
    pub id: Seq<char>,
    pub permissions: Override,
    pub rank: i64,
}

impl View for Role {
    type V = RoleModel;

    open spec fn view(&self) -> RoleModel {
        RoleModel { id: self.id@, permissions: self.permissions, rank: self.rank }
    }
}

/// Model of a stored sequence of roles.
pub open spec fn roles_view(roles: Seq<Role>) -> Seq<RoleModel> {
    roles.map_values(|r: Role| r@)
}

/// Top-level community: an owner, a default permission value, and a set of
/// roles.
///
/// `roles` stands for a mapping keyed by role id, so ids are expected to be
/// unique. The calculator does not require uniqueness: should two entries
/// share an id, selection by a member's role ids applies each entry, and a
/// rank lookup takes the first entry (the first-match rule of `find_rank`).
#[derive(Debug)]
pub struct Server {
    pub id: String,
    pub owner: String,
    pub default_permissions: u64,
    pub roles: Vec<Role>,
}

/// Mathematical model of a server.
#[verifier::ext_equal]
pub ghost struct ServerModel {
    pub id: Seq<char>,
    pub owner: Seq<char>,
    pub default_permissions: u64,
    pub roles: Seq<RoleModel>,
}

impl View for Server {
    type V = ServerModel;

    open spec fn view(&self) -> ServerModel {
        ServerModel {
            id: self.id@,
            owner: self.owner@,
            default_permissions: self.default_permissions,
            roles: roles_view(self.roles@),
        }
    }
}

/// Composite key binding a user to a server.
#[derive(Debug)]
pub struct MemberCompositeKey {
    pub server: String,
    pub user: String,
}

/// Mathematical model of a member's composite key.
#[verifier::ext_equal]
pub ghost struct MemberKeyModel {
    pub server: Seq<char>,
    pub user: Seq<char>,
}

impl View for MemberCompositeKey {
    type V = MemberKeyModel;

    open spec fn view(&self) -> MemberKeyModel {
        MemberKeyModel { server: self.server@, user: self.user@ }
    }
}

/// Binding of a user to a server, with the ids of the roles assigned to them.
/// A member without assigned roles is not an error.
#[derive(Debug)]
pub struct Member {
    pub id: MemberCompositeKey,
    pub nickname: Option<String>,
    pub avatar: Option<String>,
    pub roles: Option<Vec<String>>,
}

/// Mathematical model of a member.
#[verifier::ext_equal]
pub ghost struct MemberModel {
    pub id: MemberKeyModel,
    pub nickname: Option<Seq<char>>,
    pub avatar: Option<Seq<char>>,
    pub roles: Option<Seq<Seq<char>>>,
}

impl View for Member {
    type V = MemberModel;

    open spec fn view(&self) -> MemberModel {
        MemberModel {
            id: self.id@,
            nickname: self.nickname.deep_view(),
            avatar: self.avatar.deep_view(),
            roles: self.roles.deep_view(),
        }
    }
}

/// Partial member record used by update operations of the collaborator.
#[derive(Debug)]
pub struct PartialMember {
    pub nickname: Option<String>,
    pub avatar: Option<String>,
    pub roles: Option<Vec<String>>,
}

/// Fields that an update operation may remove from a member record.
#[derive(Debug)]
pub enum FieldsMember {
    Nickname,
    Avatar,
    Roles,
}

impl Clone for MemberCompositeKey {
    fn clone(&self) -> (r: Self)
        ensures
            r == *self,
    {
        MemberCompositeKey { server: self.server.clone(), user: self.user.clone() }
    }
}

impl Clone for Role {
    fn clone(&self) -> (r: Self)
        ensures
            r == *self,
    {
        Role { id: self.id.clone(), permissions: self.permissions, rank: self.rank }
    }
}

/// Copy a vector of role ids; the copy has the very same ids.
pub(crate) fn clone_ids(v: &Vec<String>) -> (r: Vec<String>)
    ensures
        r@ == v@,
{
    let mut r: Vec<String> = Vec::new();
    let mut i: usize = 0;
    while i < v.len()
        invariant
            i <= v@.len(),
            r@.len() == i,
            forall|k: int| 0 <= k < i ==> r@[k] == v@[k],
        decreases v@.len() - i,
    {
        r.push(v[i].clone());
        i += 1;
    }
    proof {
        assert(r@ =~= v@);
    }
    r
}

/// Copy a vector of roles; the copy has the very same roles.
pub(crate) fn clone_roles(v: &Vec<Role>) -> (r: Vec<Role>)
    ensures
        r@ == v@,
{
    let mut r: Vec<Role> = Vec::new();
    let mut i: usize = 0;
    while i < v.len()
        invariant
            i <= v@.len(),
            r@.len() == i,
            forall|k: int| 0 <= k < i ==> r@[k] == v@[k],
        decreases v@.len() - i,
    {
        r.push(v[i].clone());
        i += 1;
    }
    proof {
        assert(r@ =~= v@);
    }
    r
}

impl Clone for Member {
    fn clone(&self) -> (r: Self)
        ensures
            r@ == self@,
    {
        let roles: Option<Vec<String>> = match &self.roles {
            Some(v) => Some(clone_ids(v)),
            None => None,
        };
        let r = Member {
            id: self.id.clone(),
            nickname: match &self.nickname {
                Some(n) => Some(n.clone()),
                None => None,
            },
            avatar: match &self.avatar {
                Some(a) => Some(a.clone()),
                None => None,
            },
            roles,
        };
        proof {
            assert(r@.roles =~~= self@.roles);
            assert(r@ =~~= self@);
        }
        r
    }
}

impl Clone for Server {
    fn clone(&self) -> (r: Self)
        ensures
            r@ == self@,
    {
        let r = Server {
            id: self.id.clone(),
            owner: self.owner.clone(),
            default_permissions: self.default_permissions,
            roles: clone_roles(&self.roles),
        };
        proof {
            assert(r@ =~~= self@);
        }
        r
    }
}

} // verus!
