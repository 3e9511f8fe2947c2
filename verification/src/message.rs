//! The normalized form of one inbound chat event.

use vstd::prelude::*;
use crate::transport::{find_tag, first_tag, id_key, Outbound, OutboundView, RawCommand, RawMessage};

verus! {

/// One chat message: the identifier replies are scoped to, the channel it
/// was sent to, who sent it, and its text as it came.
pub struct Message {
    pub message_id: String,
    pub channel: String,
    pub username: String,
    pub text: String,
}

/// What a message holds, each field as a sequence of characters.
pub struct MessageView {
    pub message_id: Seq<char>,
    pub channel: Seq<char>,
    pub username: Seq<char>,
    pub text: Seq<char>,
}

impl View for Message {
    type V = MessageView;

    open spec fn view(&self) -> MessageView {
        MessageView {
            message_id: self.message_id@,
            channel: self.channel@,
            username: self.username@,
            text: self.text@,
        }
    }
}

impl Clone for Message {
    fn clone(&self) -> (r: Self)
        ensures
            r == *self,
    {
        Message {
            message_id: self.message_id.clone(),
            channel: self.channel.clone(),
            username: self.username.clone(),
            text: self.text.clone(),
        }
    }
}

/// The identifier that `raw` carries: the value of its first `id` tag,
/// where it has tags, one of them is keyed `id`, and the first such tag has
/// a value that is not empty.
pub open spec fn event_id(raw: &RawMessage) -> Option<Seq<char>> {
    match raw.tags {
        Some(tags) => match first_tag(tags@, id_key()) {
            Some(tag) => match tag.value {
                Some(id) => if id@.len() > 0 {
                    Some(id@)
                } else {
                    None
                },
                None => None,
            },
            None => None,
        },
        None => None,
    }
}

/// The message that `raw` gives: one exists only where `raw` bears content
/// and carries an identifier, a sender, a channel and a text.
pub open spec fn construct(raw: &RawMessage) -> Option<MessageView> {
    match (raw.source_nickname, event_id(raw), raw.command) {
        (Some(username), Some(message_id), RawCommand::Privmsg { channel, text }) => Some(
            MessageView { message_id, channel: channel@, username: username@, text: text@ },
        ),
        _ => None,
    }
}

impl MessageView {
    /// A message can be answered only if it has an identifier.
    pub open spec fn well_formed(self) -> bool {
        self.message_id.len() > 0
    }
}

impl Message {
    /// The message with these four fields.
    pub fn new(message_id: String, channel: String, username: String, text: String) -> (r: Self)
        ensures
            r == (Message { message_id, channel, username, text }),
    {
        Message { message_id, channel, username, text }
    }

    /// Builds the message that `raw` gives, or nothing where `raw` is not
    /// a content event or lacks one of the four fields.
    pub fn from_raw(raw: &RawMessage) -> (r: Option<Self>)
        ensures
            match r {
                Some(m) => construct(raw) == Some(m@) && m@.well_formed(),
                None => construct(raw) is None,
            },
    {
        let username = match &raw.source_nickname {
            Some(name) => name.clone(),
            None => { return None; },
        };
        let tags = match &raw.tags {
            Some(tags) => tags,
            None => { return None; },
        };
        let tag = match find_tag(tags, "id") {
            Some(tag) => tag,
            None => { return None; },
        };
        let message_id = match &tag.value {
            Some(id) => id.clone(),
            None => { return None; },
        };
        if message_id.as_str().is_empty() {
            return None;
        }
        match &raw.command {
            RawCommand::Privmsg { channel, text } => Some(
                Message::new(message_id, channel.clone(), username, text.clone()),
            ),
            RawCommand::Other => None,
        }
    }

    /// The answer to this message that says `message`: it goes to the
    /// channel this message came from and names this message as the one it
    /// answers.
    pub fn reply(&self, message: String) -> (out: Outbound)
        ensures
            out@ == (OutboundView {
                channel: self.channel@,
                text: message@,
                reply_to: Some(self.message_id@),
            }),
    {
        Outbound::reply(self.channel.clone(), self.message_id.clone(), message)
    }

    /// What `to_string` returns for a message with these fields.
    pub open spec fn display(m: MessageView) -> Seq<char> {
        seq!['['] + m.channel + seq![']', ' '] + m.username + seq![':', ' '] + m.text
    }

    /// The message as a line for a reader: `[channel] username: text`.
    pub fn to_string(&self) -> (line: String)
        ensures
            line@ == Self::display(self@),
    {
        proof {
            reveal_strlit("[");
            reveal_strlit("] ");
            reveal_strlit(": ");
        }
        let mut line = "[".to_owned();
        line.append(self.channel.as_str());
        line.append("] ");
        line.append(self.username.as_str());
        line.append(": ");
        line.append(self.text.as_str());
        line
    }

    /// What `debug_string` returns for a message with these fields.
    pub open spec fn debug(m: MessageView) -> Seq<char> {
        m.message_id + seq![' '] + m.channel + seq![' ', '|', ' '] + m.username + seq![':', ' ']
            + m.text
    }

    /// The message as a line for a log, identifier first:
    /// `id channel | username: text`.
    pub fn debug_string(&self) -> (line: String)
        ensures
            line@ == Self::debug(self@),
    {
        proof {
            reveal_strlit(" ");
            reveal_strlit(" | ");
            reveal_strlit(": ");
        }
        let mut line = self.message_id.clone();
        line.append(" ");
        line.append(self.channel.as_str());
        line.append(" | ");
        line.append(self.username.as_str());
        line.append(": ");
        line.append(self.text.as_str());
        line
    }
}

} // verus!
