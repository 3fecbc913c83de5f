//! Messages and their auxiliary records. These are serialization models of
//! the surrounding system; the permission core never reads them.

use vstd::prelude::*;
use vstd::string::StrSliceExecFns;

verus! {

/// Point in time, in milliseconds since the Unix epoch.
#[derive(Clone, Copy, PartialEq, Eq, Structural, Debug)]
pub struct Timestamp(pub i64);

/// Representation of a system event message.
pub enum SystemMessage {
    Text { content: String },
    UserAdded { id: String, by: String },
    UserRemove { id: String, by: String },
    UserJoined { id: String },
    UserLeft { id: String },
    UserKicked { id: String },
    UserBanned { id: String },
    ChannelRenamed { name: String, by: String },
    ChannelDescriptionChanged { by: String },
    ChannelIconChanged { by: String },
}

/// Message content: either plain text or a system event.
pub enum Content {
    /// Message contains text content.
    Text(String),
    /// Message is a system event.
    SystemMessage(SystemMessage),
}

/// Name and / or avatar override information shown on one message. A
/// masquerade is valid when the replacement name has 1 to 32 characters and
/// the avatar locator 1 to 128.
pub struct Masquerade {
    name: Option<String>,
    avatar: Option<String>,
}

impl Masquerade {
    /// Replacement display name, if any.
    pub closed spec fn name_view(&self) -> Option<Seq<char>> {
        match self.name {
            Some(ref n) => Some(n@),
            None => None,
        }
    }

    /// Replacement avatar locator, if any.
    pub closed spec fn avatar_view(&self) -> Option<Seq<char>> {
        match self.avatar {
            Some(ref a) => Some(a@),
            None => None,
        }
    }

    /// Exactly when this masquerade passes validation.
    pub open spec fn wf(&self) -> bool {
        &&& match self.name_view() {
            Some(n) => 1 <= n.len() <= 32,
            None => true,
        }
        &&& match self.avatar_view() {
            Some(a) => 1 <= a.len() <= 128,
            None => true,
        }
    }

    pub fn new(name: Option<String>, avatar: Option<String>) -> (m: Masquerade)
        ensures
            m.name_view() == name.deep_view(),
            m.avatar_view() == avatar.deep_view(),
    {
        Masquerade { name, avatar }
    }

    /// Replacement display name, if any.
    pub fn name(&self) -> (r: &Option<String>)
        ensures
            r.deep_view() == self.name_view(),
    {
        &self.name
    }

    /// Replacement avatar locator, if any.
    pub fn avatar(&self) -> (r: &Option<String>)
        ensures
            r.deep_view() == self.avatar_view(),
    {
        &self.avatar
    }

    /// Check the length constraints on the replacement name and avatar.
    pub fn validate(&self) -> (ok: bool)
        ensures
            ok == self.wf(),
    {
        let name_ok: bool = match &self.name {
            Some(n) => {
                let l: usize = n.as_str().unicode_len();
                1 <= l && l <= 32
            },
            None => true,
        };
        let avatar_ok: bool = match &self.avatar {
            Some(a) => {
                let l: usize = a.as_str().unicode_len();
                1 <= l && l <= 128
            },
            None => true,
        };
        name_ok && avatar_ok
    }
}

/// Representation of a message sent in a channel.
pub struct Message {
    /// Unique id.
    pub id: String,
    /// Unique value generated by the client sending this message.
    pub nonce: Option<String>,
    /// Id of the channel this message was sent in.
    pub channel: String,
    /// Id of the user that sent this message.
    pub author: String,
    /// Message content.
    pub content: Content,
    /// Time at which this message was last edited.
    pub edited: Option<Timestamp>,
    /// Ids of the users mentioned in this message.
    pub mentions: Option<Vec<String>>,
    /// Ids of the messages this message is replying to.
    pub replies: Option<Vec<String>>,
    /// Name and / or avatar overrides for this message.
    pub masquerade: Option<Masquerade>,
}

/// Partial message record used by update operations of the collaborator.
pub struct PartialMessage {
    pub content: Option<Content>,
    pub edited: Option<Timestamp>,
    pub mentions: Option<Vec<String>>,
    pub replies: Option<Vec<String>>,
    pub masquerade: Option<Masquerade>,
}

/// Fields that an update operation may remove from a message record.
pub enum FieldsMessage {
    Edited,
    Mentions,
    Replies,
    Masquerade,
}

/// Orderings a message query may ask for.
pub enum MessageSort {
    Relevance,
    Latest,
    Oldest,
}

} // verus!
