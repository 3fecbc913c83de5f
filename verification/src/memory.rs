//! In-memory reference implementation of the database collaborator.

use vstd::prelude::*;

use crate::Error;
use crate::models::server::{Member, MemberModel, Server, ServerModel};
use crate::traits::Database;

verus! {

/// The first server with the given id, if any.
pub open spec fn find_server(servers: Seq<Server>, id: Seq<char>) -> Option<ServerModel>
    decreases servers.len(),
{
    if servers.len() == 0 {
        None
    } else if servers[0].id@ == id {
        Some(servers[0]@)
    } else {
        find_server(servers.drop_first(), id)
    }
}

/// The first member with the given composite key, if any.
pub open spec fn find_member(members: Seq<Member>, server: Seq<char>, user: Seq<char>) -> Option<
    MemberModel,
>
    decreases members.len(),
{
    if members.len() == 0 {
        None
    } else if members[0].id.server@ == server && members[0].id.user@ == user {
        Some(members[0]@)
    } else {
        find_member(members.drop_first(), server, user)
    }
}

/// A database collaborator that keeps every entity in memory. Adding an
/// entity shadows any earlier entity stored under the same key.
pub struct MemoryDb {
    pub servers: Vec<Server>,
    pub members: Vec<Member>,
}

impl Database for MemoryDb {
    open spec fn server_model(&self, id: Seq<char>) -> Option<ServerModel> {
        find_server(self.servers@, id)
    }

    open spec fn member_model(&self, server: Seq<char>, user: Seq<char>) -> Option<MemberModel> {
        find_member(self.members@, server, user)
    }

    fn fetch_server(&self, id: &String) -> (r: Result<Server, Error>) {
        let mut i: usize = 0;
        proof {
            assert(self.servers@.skip(0) =~= self.servers@);
        }
        while i < self.servers.len()
            invariant
                i <= self.servers@.len(),
                find_server(self.servers@, id@) == find_server(
                    self.servers@.skip(i as int),
                    id@,
                ),
            decreases self.servers@.len() - i,
        {
            proof {
                assert(self.servers@.skip(i as int)[0] == self.servers@[i as int]);
                assert(self.servers@.skip(i as int).drop_first() =~= self.servers@.skip(i + 1));
            }
            if self.servers[i].id == *id {
                return Ok(self.servers[i].clone());
            }
            i += 1;
        }
        proof {
            assert(self.servers@.skip(self.servers@.len() as int) =~= Seq::<Server>::empty());
        }
        Err(Error::NotFound)
    }

    fn fetch_member(&self, server: &String, user: &String) -> (r: Result<Member, Error>) {
        let mut i: usize = 0;
        proof {
            assert(self.members@.skip(0) =~= self.members@);
        }
        while i < self.members.len()
            invariant
                i <= self.members@.len(),
                find_member(self.members@, server@, user@) == find_member(
                    self.members@.skip(i as int),
                    server@,
                    user@,
                ),
            decreases self.members@.len() - i,
        {
            proof {
                assert(self.members@.skip(i as int)[0] == self.members@[i as int]);
                assert(self.members@.skip(i as int).drop_first() =~= self.members@.skip(i + 1));
            }
            if self.members[i].id.server == *server && self.members[i].id.user == *user {
                return Ok(self.members[i].clone());
            }
            i += 1;
        }
        proof {
            assert(self.members@.skip(self.members@.len() as int) =~= Seq::<Member>::empty());
        }
        Err(Error::NotFound)
    }
}

impl MemoryDb {
    /// An empty database: every fetch fails with not-found.
    pub fn new() -> (db: MemoryDb)
        ensures
            forall|id: Seq<char>| #[trigger] db.server_model(id) is None,
            forall|s: Seq<char>, u: Seq<char>| #[trigger] db.member_model(s, u) is None,
    {
        MemoryDb { servers: Vec::new(), members: Vec::new() }
    }

    /// Store a server, shadowing any earlier server with the same id.
    pub fn add_server(&mut self, server: Server)
        ensures
            final(self).server_model(server.id@) == Some(server@),
            forall|id: Seq<char>|
                id != server.id@ ==> #[trigger] final(self).server_model(id) == old(
                    self).server_model(id),
            forall|s: Seq<char>, u: Seq<char>| #[trigger]
                final(self).member_model(s, u) == old(self).member_model(s, u),
    {
        let ghost old_servers = self.servers@;
        self.servers.insert(0, server);
        proof {
            assert(self.servers@.drop_first() =~= old_servers);
        }
    }

    /// Store a member, shadowing any earlier member with the same key.
    pub fn add_member(&mut self, member: Member)
        ensures
            final(self).member_model(member.id.server@, member.id.user@) == Some(member@),
            forall|s: Seq<char>, u: Seq<char>|
                !(s == member.id.server@ && u == member.id.user@) ==> #[trigger] final(
                    self).member_model(s, u) == old(self).member_model(s, u),
            forall|id: Seq<char>| #[trigger]
                final(self).server_model(id) == old(self).server_model(id),
    {
        let ghost old_members = self.members@;
        self.members.insert(0, member);
        proof {
            assert(self.members@.drop_first() =~= old_members);
        }
    }
}

} // verus!
