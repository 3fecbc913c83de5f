//! Message-bearing scopes. A channel is a closed tagged union with one case
//! per kind, each carrying only the fields that matter for permission
//! resolution of that kind.

use vstd::prelude::*;

use crate::values::Override;

verus! {

/// The five channel kinds.
///
/// `TextChannel` and `VoiceChannel` always reference a valid server id; their
/// per-role overrides are keyed by role ids of that server.
#[derive(Debug)]
pub enum Channel {
    /// A user's private notes-to-self channel.
    SavedMessages { id: String, user: String },
    /// A direct conversation between two users.
    DirectMessage { id: String },
    /// A group conversation owned by one user, with an optional explicit flat
    /// permission value for the other participants.
    Group { id: String, owner: String, permissions: Option<u64> },
    /// A text channel inside a server.
    TextChannel {
        id: String,
        server: String,
        default_permissions: Option<Override>,
        role_permissions: Vec<(String, Override)>,
    },
    /// A voice channel inside a server.
    VoiceChannel {
        id: String,
        server: String,
        default_permissions: Option<Override>,
        role_permissions: Vec<(String, Override)>,
    },
}

/// The owning server of a channel, for the kinds that have one.
pub open spec fn channel_server_id(ch: Channel) -> Option<Seq<char>> {
    match ch {
        Channel::TextChannel { server, .. } => Some(server@),
        Channel::VoiceChannel { server, .. } => Some(server@),
        _ => None,
    }
}

} // verus!
