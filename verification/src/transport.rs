//! What the library takes from the transport and hands back to it.
//!
//! The transport parses the wire and owns the connection. It hands the
//! library one `RawMessage` per inbound event, and sends the `Outbound`
//! values that the library prepares.

use vstd::prelude::*;

verus! {

/// One entry of an inbound event's metadata: a key, and a value where the
/// key carries one.
pub struct Tag {
    pub key: String,
    pub value: Option<String>,
}

/// What an inbound event asks for. Only a message to a channel bears
/// content; every other kind of event is `Other`.
pub enum RawCommand {
    Privmsg { channel: String, text: String },
    Other,
}

/// One inbound event as the transport parsed it.
pub struct RawMessage {
    pub tags: Option<Vec<Tag>>,
    pub source_nickname: Option<String>,
    pub command: RawCommand,
}

/// The next thing the transport has for a session.
pub enum TransportEvent {
    /// An inbound event.
    Message(RawMessage),
    /// The stream of events has ended.
    Closed,
    /// The transport failed and delivers no more events.
    Failed(String),
}

/// The key of the tag that holds an event's identifier.
pub open spec fn id_key() -> Seq<char> {
    "id"@
}

/// The first tag of `tags` at or after the place `from` whose key is `key`.
pub open spec fn first_tag_from(tags: Seq<Tag>, key: Seq<char>, from: int) -> Option<Tag>
    decreases tags.len() - from,
{
    if from < 0 || from >= tags.len() {
        None
    } else if tags[from].key@ == key {
        Some(tags[from])
    } else {
        first_tag_from(tags, key, from + 1)
    }
}

/// The first tag of `tags` whose key is `key`.
pub open spec fn first_tag(tags: Seq<Tag>, key: Seq<char>) -> Option<Tag> {
    first_tag_from(tags, key, 0)
}

/// Finds the first tag of `tags` whose key is `key`.
pub fn find_tag<'a>(tags: &'a Vec<Tag>, key: &str) -> (found: Option<&'a Tag>)
    ensures
        match found {
            Some(tag) => first_tag(tags@, key@) == Some(*tag),
            None => first_tag(tags@, key@) is None,
        },
{
    let wanted = key.to_owned();
    let mut i: usize = 0;
    while i < tags.len()
        invariant
            i <= tags.len(),
            wanted@ == key@,
            first_tag(tags@, key@) == first_tag_from(tags@, key@, i as int),
        decreases tags.len() - i,
    {
        if tags[i].key == wanted {
            return Some(&tags[i]);
        }
        i += 1;
    }
    None
}

/// A message for the transport to send: the channel it goes to, its text,
/// and the identifier of the message it answers, if it answers one.
pub struct Outbound {
    pub channel: String,
    pub text: String,
    pub reply_to: Option<String>,
}

/// What an outbound message holds, each field as a sequence of characters.
pub struct OutboundView {
    pub channel: Seq<char>,
    pub text: Seq<char>,
    pub reply_to: Option<Seq<char>>,
}

impl View for Outbound {
    type V = OutboundView;

    open spec fn view(&self) -> OutboundView {
        OutboundView {
            channel: self.channel@,
            text: self.text@,
            reply_to: match self.reply_to {
                Some(id) => Some(id@),
                None => None,
            },
        }
    }
}

/// The transport could not send a message.
pub struct SendFailure {
    /// The message that was not sent.
    pub message: Outbound,
}

impl Outbound {
    /// A message to `channel` that answers nothing.
    pub fn message(channel: String, text: String) -> (out: Outbound)
        ensures
            out@ == (OutboundView { channel: channel@, text: text@, reply_to: None }),
    {
        Outbound { channel, text, reply_to: None }
    }

    /// A message to `channel` that answers the message `reply_id`.
    pub fn reply(channel: String, reply_id: String, text: String) -> (out: Outbound)
        ensures
            out@ == (OutboundView { channel: channel@, text: text@, reply_to: Some(reply_id@) }),
    {
        Outbound { channel, text, reply_to: Some(reply_id) }
    }

    /// What the sender of this message is told once the transport has
    /// reported on it: success where it was delivered, and otherwise a
    /// failure that holds the message.
    pub fn outcome(self, delivered: bool) -> (r: Result<(), SendFailure>)
        ensures
            delivered ==> r is Ok,
            !delivered ==> r == Err::<(), SendFailure>(SendFailure { message: self }),
    {
        if delivered {
            Ok(())
        } else {
            Err(SendFailure { message: self })
        }
    }
}

} // verus!
