//! The values that travel over the gateway.

pub mod component_type;
pub mod intent;
pub mod interaction_type;
pub mod op;

use vstd::prelude::*;
use vstd::string::StringExecFns;

verus! {

/// One frame of the gateway: a control code, and with a dispatch the
/// payload, the sequence number and the name of the event.
#[derive(Debug, Clone)]
pub struct GatewayPayload {
    pub op: u8,
    pub d: Option<serde_json::Value>,
    pub s: Option<u64>,
    pub t: Option<String>,
}

/// A user of the platform.
#[derive(Debug, Clone)]
pub struct User {
    pub id: String,
    pub username: String,
    pub discriminator: Option<String>,
    pub avatar: Option<String>,
    pub bot: bool,
}

/// Where the picture of a user with the id `id` is found: under the hash of
/// the user's own picture, or the platform's stock picture where the user
/// has none.
pub open spec fn avatar_location(id: Seq<char>, avatar: Option<Seq<char>>) -> Seq<char> {
    match avatar {
        Some(hash) => "https://cdn.discordapp.com/avatars/"@ + id + "/"@ + hash + ".png"@,
        None => "https://cdn.discordapp.com/embed/avatars/0.png"@,
    }
}

impl User {
    /// The user's picture hash, as characters.
    pub open spec fn avatar_hash(&self) -> Option<Seq<char>> {
        match self.avatar {
            Some(hash) => Some(hash@),
            None => None,
        }
    }

    /// The address of the user's picture.
    pub fn avatar_url(&self) -> (url: String)
        ensures
            url@ == avatar_location(self.id@, self.avatar_hash()),
    {
        match &self.avatar {
            Some(hash) => {
                let mut url = String::from_str("https://cdn.discordapp.com/avatars/");
                url.append(self.id.as_str());
                url.append("/");
                url.append(hash.as_str());
                url.append(".png");
                url
            },
            None => String::from_str("https://cdn.discordapp.com/embed/avatars/0.png"),
        }
    }
}

/// A message, as the gateway announces its creation.
#[derive(Debug, Clone)]
pub struct Message {
    pub id: String,
    pub guild_id: Option<String>,
    pub channel_id: String,
    pub author: User,
    pub content: String,
}

/// The payload of the server's hello.
#[derive(Debug)]
pub struct HelloData {
    pub heartbeat_interval: u64,
}

/// The payload of the event that declares a session ready.
#[derive(Debug)]
pub struct ReadyData {
    pub session_id: String,
    pub resume_gateway_url: String,
    pub version: u8,
    pub user: User,
}

/// A member's use of a component or of a command.
#[derive(Debug)]
pub struct Interaction {
    pub id: String,
    pub application_id: String,
    pub kind: u8,
    pub data: Option<InteractionData>,
    pub guild_id: Option<String>,
    pub channel_id: Option<String>,
    pub message: Option<Message>,
    pub member: Option<Member>,
    pub user: Option<User>,
    pub token: String,
}

/// A user as a member of a community.
#[derive(Debug)]
pub struct Member {
    pub user: Option<User>,
    pub nick: Option<String>,
}

/// What an interaction says of the component that was used.
#[derive(Debug)]
pub struct InteractionData {
    pub custom_id: Option<String>,
    pub component_type: Option<u8>,
    pub values: Option<Vec<String>>,
}

} // verus!
