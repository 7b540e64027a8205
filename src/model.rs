//! The events the engine evaluates: a message or a reaction, as plain values.

use vstd::prelude::*;

verus! {

/// A file attached to a message.
#[derive(Debug, PartialEq, Eq)]
pub struct Attachment {
    /// The declared MIME type, when the platform reported one.
    pub content_type: Option<String>,
}

/// A sticker sent with a message.
#[derive(Debug, PartialEq, Eq)]
pub struct Sticker {
    pub id: u64,
    pub name: String,
}

/// The emoji of a reaction.
#[derive(Debug, PartialEq, Eq)]
pub enum ReactionType {
    /// A custom emoji of a community.
    Custom { animated: bool, id: u64, name: Option<String> },
    /// A standard Unicode emoji.
    Unicode { name: String },
}

/// The parts of a reaction that the rules read.
pub enum ReactionView {
    Custom { animated: bool, id: u64, name: Option<Seq<char>> },
    Unicode { name: Seq<char> },
}

impl View for ReactionType {
    type V = ReactionView;

    open spec fn view(&self) -> ReactionView {
        match self {
            ReactionType::Custom { animated, id, name } => ReactionView::Custom {
                animated: *animated,
                id: *id,
                name: match name {
                    Some(n) => Some(n@),
                    None => None,
                },
            },
            ReactionType::Unicode { name } => ReactionView::Unicode { name: name@ },
        }
    }
}

impl ReactionType {
    /// A copy of this reaction.
    pub fn duplicate(&self) -> (r: ReactionType)
        ensures
            r@ == self@,
    {
        match self {
            ReactionType::Custom { animated, id, name } => ReactionType::Custom {
                animated: *animated,
                id: *id,
                name: match name {
                    Some(n) => Some(n.clone()),
                    None => None,
                },
            },
            ReactionType::Unicode { name } => ReactionType::Unicode { name: name.clone() },
        }
    }
}

/// A message as the engine sees it.
#[derive(Debug, PartialEq, Eq)]
pub struct MessageInfo {
    pub author_is_bot: bool,
    pub id: u64,
    pub author_id: u64,
    pub channel_id: u64,
    pub guild_id: Option<u64>,
    pub author_roles: Vec<u64>,
    pub content: String,
    /// When the message was sent, in microseconds since the Unix epoch.
    pub timestamp: i64,
    pub attachments: Vec<Attachment>,
    pub stickers: Vec<Sticker>,
}

/// A reaction as the engine sees it.
#[derive(Debug, PartialEq, Eq)]
pub struct ReactionInfo {
    pub author_is_bot: bool,
    pub author_roles: Vec<u64>,
    pub author_id: u64,
    pub message_id: u64,
    pub channel_id: u64,
    pub guild_id: Option<u64>,
    pub reaction: ReactionType,
}

/// A user mentioned in a message.
#[derive(Debug, PartialEq, Eq)]
pub struct Mention {
    pub id: u64,
    /// The user's name.
    pub name: String,
    /// The user's nickname in the community, when it has one.
    pub nick: Option<String>,
}

} // verus!
