//! Events shared between servers over Redis publish/subscribe, and the channel
//! each kind of event travels on.
use vstd::prelude::*;

verus! {

/// The channel of channel events: updates, members joining and leaving.
pub const CHANNEL_EVENTS: &'static str = "openchat:events:channels";

/// The channel of new messages.
pub const MESSAGE_EVENTS: &'static str = "openchat:events:messages";

/// The channel of presence changes.
pub const PRESENCE_EVENTS: &'static str = "openchat:events:presence";

/// The channel of pins.
pub const PIN_EVENTS: &'static str = "openchat:events:pins";

/// The channel of bookmarks.
pub const BOOKMARK_EVENTS: &'static str = "openchat:events:bookmarks";

/// An event published to the other servers.
#[allow(inconsistent_fields)]
pub enum PubSubEvent {
    MessageCreated { channel_id: Option<u128>, dm_id: Option<u128>, message_id: u128, user_id: u128 },
    MessagePinned { channel_id: u128, message_id: u128, user_id: u128 },
    MessageUnpinned { channel_id: u128, message_id: u128, user_id: u128 },
    BookmarkAdded { user_id: u128, message_id: u128 },
    BookmarkRemoved { user_id: u128, message_id: u128 },
    ChannelUpdated { channel_id: u128, org_id: u128 },
    MemberJoined { channel_id: u128, user_id: u128, org_id: u128 },
    MemberLeft { channel_id: u128, user_id: u128, org_id: u128 },
    PresenceChanged { user_id: u128, org_id: u128, status: String },
}

/// The channel an event travels on.
pub open spec fn channel_of(e: PubSubEvent) -> Seq<char> {
    match e {
        PubSubEvent::MessageCreated { .. } => "openchat:events:messages"@,
        PubSubEvent::MessagePinned { .. } | PubSubEvent::MessageUnpinned { .. } => "openchat:events:pins"@,
        PubSubEvent::BookmarkAdded { .. } | PubSubEvent::BookmarkRemoved { .. } => "openchat:events:bookmarks"@,
        PubSubEvent::ChannelUpdated { .. } | PubSubEvent::MemberJoined { .. }
        | PubSubEvent::MemberLeft { .. } => "openchat:events:channels"@,
        PubSubEvent::PresenceChanged { .. } => "openchat:events:presence"@,
    }
}

impl PubSubEvent {
    /// The channel this event travels on.
    pub fn channel(&self) -> (c: &'static str)
        ensures
            c@ == channel_of(*self),
    {
        match self {
            PubSubEvent::MessageCreated { .. } => MESSAGE_EVENTS,
            PubSubEvent::MessagePinned { .. } | PubSubEvent::MessageUnpinned { .. } => PIN_EVENTS,
            PubSubEvent::BookmarkAdded { .. } | PubSubEvent::BookmarkRemoved { .. } => BOOKMARK_EVENTS,
            PubSubEvent::ChannelUpdated { .. } | PubSubEvent::MemberJoined { .. }
            | PubSubEvent::MemberLeft { .. } => CHANNEL_EVENTS,
            PubSubEvent::PresenceChanged { .. } => PRESENCE_EVENTS,
        }
    }
}

/// The channels a server subscribes to, to hear every event.
pub fn all_event_channels() -> (v: Vec<&'static str>)
    ensures
        v@.len() == 5,
        v@[0]@ == "openchat:events:messages"@,
        v@[1]@ == "openchat:events:presence"@,
        v@[2]@ == "openchat:events:pins"@,
        v@[3]@ == "openchat:events:bookmarks"@,
        v@[4]@ == "openchat:events:channels"@,
{
    vec![MESSAGE_EVENTS, PRESENCE_EVENTS, PIN_EVENTS, BOOKMARK_EVENTS, CHANNEL_EVENTS]
}

/// Every event travels on one of the channels a server subscribes to.
pub proof fn law_every_event_is_heard(e: PubSubEvent)
    ensures
        channel_of(e) == "openchat:events:messages"@ || channel_of(e) == "openchat:events:presence"@
            || channel_of(e) == "openchat:events:pins"@ || channel_of(e)
            == "openchat:events:bookmarks"@ || channel_of(e) == "openchat:events:channels"@,
{
}

} // verus!
