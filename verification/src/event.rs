//! The event model: the normalized shape a bus payload is decoded into, and
//! the mathematical view of each of its types.

use vstd::prelude::*;

verus! {

/// The network an event originated on. The tag set is closed: a payload whose
/// platform tag is neither of these fails to decode.
#[derive(Clone, Copy, PartialEq, Eq, Structural, Debug)]
pub enum Platform {
    /// The bus's own network; its events carry the originating instance's
    /// identifier, used for echo suppression.
    Eludris,
    /// The bridged network.
    Discord,
}

/// A referenced message inside a message-create payload.
#[derive(Debug, PartialEq, Eq, Clone)]
pub struct Reply {
    pub author: String,
    pub content: String,
}

/// Mathematical view of a [`Reply`].
pub struct SpecReply {
    pub author: Seq<char>,
    pub content: Seq<char>,
}

impl View for Reply {
    type V = SpecReply;

    open spec fn view(&self) -> SpecReply {
        SpecReply { author: self.author@, content: self.content@ }
    }
}

/// The payload of a message-creation event: the only event kind the engine
/// transforms and forwards.
#[derive(Debug, PartialEq, Eq, Clone)]
pub struct MessagePayload {
    pub author: String,
    pub content: String,
    pub replies: Vec<Reply>,
    pub attachments: Vec<String>,
}

/// Mathematical view of a [`MessagePayload`].
pub struct SpecMessagePayload {
    pub author: Seq<char>,
    pub content: Seq<char>,
    pub replies: Seq<SpecReply>,
    pub attachments: Seq<Seq<char>>,
}

impl View for MessagePayload {
    type V = SpecMessagePayload;

    open spec fn view(&self) -> SpecMessagePayload {
        SpecMessagePayload {
            author: self.author@,
            content: self.content@,
            replies: self.replies@.map_values(|r: Reply| r@),
            attachments: self.attachments@.map_values(|a: String| a@),
        }
    }
}

/// The event kinds the engine recognizes. Only [`EventData::MessageCreate`]
/// carries content that is acted on; the remaining recognized kinds are
/// decoded and deliberately ignored, and a kind tag outside this set decodes
/// to [`EventData::Unhandled`] rather than failing, so the schema can grow.
#[derive(Debug, PartialEq, Eq, Clone)]
pub enum EventData {
    MessageCreate(MessagePayload),
    ChannelPinsUpdate,
    ChannelUpdate,
    GuildEmojisUpdate,
    GuildStickersUpdate,
    MessageDelete,
    MessageDeleteBulk,
    MessageUpdate,
    ReactionAdd,
    ReactionRemove,
    ReactionRemoveAll,
    ReactionRemoveEmoji,
    Unhandled,
}

/// Mathematical view of [`EventData`].
pub enum SpecEventData {
    MessageCreate(SpecMessagePayload),
    ChannelPinsUpdate,
    ChannelUpdate,
    GuildEmojisUpdate,
    GuildStickersUpdate,
    MessageDelete,
    MessageDeleteBulk,
    MessageUpdate,
    ReactionAdd,
    ReactionRemove,
    ReactionRemoveAll,
    ReactionRemoveEmoji,
    Unhandled,
}

impl View for EventData {
    type V = SpecEventData;

    open spec fn view(&self) -> SpecEventData {
        match self {
            EventData::MessageCreate(m) => SpecEventData::MessageCreate(m@),
            EventData::ChannelPinsUpdate => SpecEventData::ChannelPinsUpdate,
            EventData::ChannelUpdate => SpecEventData::ChannelUpdate,
            EventData::GuildEmojisUpdate => SpecEventData::GuildEmojisUpdate,
            EventData::GuildStickersUpdate => SpecEventData::GuildStickersUpdate,
            EventData::MessageDelete => SpecEventData::MessageDelete,
            EventData::MessageDeleteBulk => SpecEventData::MessageDeleteBulk,
            EventData::MessageUpdate => SpecEventData::MessageUpdate,
            EventData::ReactionAdd => SpecEventData::ReactionAdd,
            EventData::ReactionRemove => SpecEventData::ReactionRemove,
            EventData::ReactionRemoveAll => SpecEventData::ReactionRemoveAll,
            EventData::ReactionRemoveEmoji => SpecEventData::ReactionRemoveEmoji,
            EventData::Unhandled => SpecEventData::Unhandled,
        }
    }
}

/// One decoded bus event.
#[derive(Debug, PartialEq, Eq, Clone)]
pub struct Event {
    /// Which network the event originated on.
    pub platform: Platform,
    /// The originating instance; empty when the payload named none. Meaningful
    /// chiefly when [`Self::platform`] is the bus's own network.
    pub identifier: String,
    /// The decoded payload variant.
    pub data: EventData,
}

/// Mathematical view of an [`Event`].
pub struct SpecEvent {
    pub platform: Platform,
    pub identifier: Seq<char>,
    pub data: SpecEventData,
}

impl View for Event {
    type V = SpecEvent;

    open spec fn view(&self) -> SpecEvent {
        SpecEvent { platform: self.platform, identifier: self.identifier@, data: self.data@ }
    }
}

/// Why a raw payload failed to decode.
#[derive(Clone, Copy, PartialEq, Eq, Structural, Debug)]
pub enum DecodeError {
    /// The raw payload is not valid UTF-8 text.
    Encoding,
    /// The text is not a well-formed tagged-union document of the event shape.
    Schema,
}

} // verus!
