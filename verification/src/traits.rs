//! Interfaces of the persistence collaborators. The permission core consumes
//! exactly two read operations, gathered in [`Database`]; the remaining
//! traits are the wider persistence interfaces the surrounding system
//! implements.

use vstd::prelude::*;

use crate::Error;
use crate::models::message::{FieldsMessage, Message, MessageSort, PartialMessage};
use crate::models::server::{FieldsMember, Member, MemberModel, PartialMember, Server, ServerModel};
use crate::models::simple::SimpleModel;

verus! {

/// The database collaborator contract the permission core depends on but
/// does not implement: fetching a server by id and fetching a member by
/// (server id, user id). Each fetch fails with [`Error::NotFound`] exactly
/// when the entity does not exist.
pub trait Database {
    /// The server stored under `id`, if any.
    spec fn server_model(&self, id: Seq<char>) -> Option<ServerModel>;

    /// The member stored under `(server, user)`, if any.
    spec fn member_model(&self, server: Seq<char>, user: Seq<char>) -> Option<MemberModel>;

    /// Fetch a server by its id.
    fn fetch_server(&self, id: &String) -> (r: Result<Server, Error>)
        ensures
            match self.server_model(id@) {
                Some(sm) => r matches Ok(s) && s@ == sm,
                None => r matches Err(e) && e == Error::NotFound,
            },
    ;

    /// Fetch a server member by server id and user id.
    fn fetch_member(&self, server: &String, user: &String) -> (r: Result<Member, Error>)
        ensures
            match self.member_model(server@, user@) {
                Some(mm) => r matches Ok(m) && m@ == mm,
                None => r matches Err(e) && e == Error::NotFound,
            },
    ;
}

/// Persistence interface for server members.
pub trait AbstractServerMember {
    /// The member stored under `(server, user)`, if any.
    spec fn member_model(&self, server: Seq<char>, user: Seq<char>) -> Option<MemberModel>;

    /// Fetch a server member by their id.
    fn fetch_member(&self, server: &String, user: &String) -> (r: Result<Member, Error>)
        ensures
            match self.member_model(server@, user@) {
                Some(mm) => r matches Ok(m) && m@ == mm,
                None => r matches Err(e) && e == Error::NotFound,
            },
    ;

    /// Insert a new server member into the database.
    fn insert_member(&self, server: &String, user: &String) -> Result<(), Error>;

    /// Update information for a server member.
    fn update_member(&self, id: &String, member: &PartialMember, remove: Vec<FieldsMember>) -> Result<
        (),
        Error,
    >;

    /// Delete a server member by their id.
    fn delete_member(&self, server: &String, user: &String) -> Result<(), Error>;

    /// Fetch multiple members by their ids.
    fn fetch_members(&self, server: &String, ids: &[String]) -> Result<Vec<Member>, Error>;

    /// Fetch the member count of a server.
    fn fetch_member_count(&self, server: &String) -> Result<usize, Error>;
}

/// Persistence interface for messages.
pub trait AbstractMessage {
    /// Fetch a message by its id.
    fn fetch_message(&self, id: &String) -> Result<Message, Error>;

    /// Insert a new message into the database.
    fn insert_message(&self, message: &Message) -> Result<(), Error>;

    /// Update a given message with new information.
    fn update_message(&self, id: &String, message: &PartialMessage, remove: Vec<FieldsMessage>) -> Result<
        (),
        Error,
    >;

    /// Delete a message from the database by its id.
    fn delete_message(&self, id: &String) -> Result<(), Error>;

    /// Fetch multiple messages of a channel.
    fn fetch_messages(
        &self,
        channel: &String,
        limit: Option<i64>,
        before: Option<String>,
        after: Option<String>,
        sort: Option<MessageSort>,
        nearby: Option<String>,
    ) -> Result<Vec<Message>, Error>;

    /// Search for messages in a channel.
    fn search_messages(
        &self,
        channel: &String,
        query: &String,
        limit: Option<i64>,
        before: Option<String>,
        after: Option<String>,
        sort: MessageSort,
    ) -> Result<Vec<Message>, Error>;
}

/// Persistence interface for the simple administrative record.
pub trait AbstractSimpleModel {
    /// Fetch the simple record.
    fn fetch_simple(&self) -> Result<SimpleModel, Error>;

    /// Insert a simple record into the database.
    fn insert_simple(&self, model: &SimpleModel) -> Result<(), Error>;
}

} // verus!
