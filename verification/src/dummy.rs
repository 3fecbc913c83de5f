//! Stand-in storage adapters: they answer every read with a fixed record and
//! accept every write without keeping it.

use vstd::prelude::*;
use vstd::string::StringExecFns;

use crate::Error;
use crate::models::server::{
    FieldsMember, Member, MemberCompositeKey, MemberKeyModel, MemberModel, PartialMember,
};
use crate::models::simple::SimpleModel;
use crate::traits::{AbstractServerMember, AbstractSimpleModel};

verus! {

/// Stand-in adapter for the simple administrative record.
pub struct DummyDb;

impl AbstractSimpleModel for DummyDb {
    fn fetch_simple(&self) -> (r: Result<SimpleModel, Error>)
        ensures
            r matches Ok(m) && m.number == 74 && m.value@ == "Whoa!"@,
    {
        Ok(SimpleModel { number: 74, value: String::from_str("Whoa!") })
    }

    fn insert_simple(&self, model: &SimpleModel) -> (r: Result<(), Error>)
        ensures
            r == Ok::<(), Error>(()),
    {
        Ok(())
    }
}

/// Stand-in adapter for server members: every (server, user) pair resolves to
/// a bare member without roles.
pub struct DummyDB;

impl AbstractServerMember for DummyDB {
    open spec fn member_model(&self, server: Seq<char>, user: Seq<char>) -> Option<MemberModel> {
        Some(
            MemberModel {
                id: MemberKeyModel { server, user },
                nickname: None,
                avatar: None,
                roles: None,
            },
        )
    }

    fn fetch_member(&self, server: &String, user: &String) -> (r: Result<Member, Error>) {
        Ok(
            Member {
                id: MemberCompositeKey { server: server.clone(), user: user.clone() },
                nickname: None,
                avatar: None,
                roles: None,
            },
        )
    }

    fn insert_member(&self, server: &String, user: &String) -> (r: Result<(), Error>)
        ensures
            r == Ok::<(), Error>(()),
    {
        Ok(())
    }

    fn update_member(
        &self,
        id: &String,
        member: &PartialMember,
        remove: Vec<FieldsMember>,
    ) -> (r: Result<(), Error>)
        ensures
            r == Ok::<(), Error>(()),
    {
        Ok(())
    }

    fn delete_member(&self, server: &String, user: &String) -> (r: Result<(), Error>)
        ensures
            r == Ok::<(), Error>(()),
    {
        Ok(())
    }

    fn fetch_members(&self, server: &String, ids: &[String]) -> (r: Result<Vec<Member>, Error>)
        ensures
            r matches Ok(ms) && ms@.len() == ids@.len() && forall|i: int|
                0 <= i < ids@.len() ==> #[trigger] ms@[i]@ == (MemberModel {
                    id: MemberKeyModel { server: server@, user: ids@[i]@ },
                    nickname: None,
                    avatar: None,
                    roles: None,
                }),
    {
        let mut out: Vec<Member> = Vec::new();
        let mut i: usize = 0;
        while i < ids.len()
            invariant
                i <= ids@.len(),
                out@.len() == i,
                forall|k: int|
                    0 <= k < i ==> #[trigger] out@[k]@ == (MemberModel {
                        id: MemberKeyModel { server: server@, user: ids@[k]@ },
                        nickname: None,
                        avatar: None,
                        roles: None,
                    }),
            decreases ids@.len() - i,
        {
            out.push(
                Member {
                    id: MemberCompositeKey { server: server.clone(), user: ids[i].clone() },
                    nickname: None,
                    avatar: None,
                    roles: None,
                },
            );
            i += 1;
        }
        Ok(out)
    }

    fn fetch_member_count(&self, server: &String) -> (r: Result<usize, Error>)
        ensures
            r == Ok::<usize, Error>(0),
    {
        Ok(0)
    }
}

} // verus!
