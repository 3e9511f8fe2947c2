//! Routing of inbound chat events to registered handlers.
//!
//! A session holds a registry of handlers. Each inbound event is read as a
//! message, the message as a command where its text holds one, and the
//! handlers that the event goes to are run in the order in which they were
//! registered. The transport that delivers events and sends messages is not
//! part of this library: events come in as `transport::RawMessage`, and what
//! is to be sent goes out as `transport::Outbound`.

use vstd::prelude::*;

pub mod command;
pub mod dispatch;
pub mod events;
pub mod message;
pub mod text;
pub mod transport;

use crate::command::Command;
use crate::dispatch::{dispatched, Dispatch, Step, Stopped};
use crate::events::{accepts_all, EventHandler, Registry};
use crate::message::Message;
use crate::transport::{Outbound, OutboundView, RawMessage, TransportEvent};

verus! {

/// What a session needs to sign in: who it is, its credential, and the
/// channels it joins.
pub struct ChatConfig {
    pub nickname: String,
    pub token: String,
    pub channels: Vec<String>,
}

/// A chat session: its configuration and its handlers.
#[verifier::reject_recursive_types(MR)]
#[verifier::reject_recursive_types(CR)]
#[verifier::reject_recursive_types(MF)]
#[verifier::reject_recursive_types(CF)]
pub struct ChatClient<MR, CR, MF: Fn(&Message) -> MR, CF: Fn(&Command) -> CR> {
    config: ChatConfig,
    events: EventHandler<MR, CR, MF, CF>,
}

impl<MR, CR, MF: Fn(&Message) -> MR, CF: Fn(&Command) -> CR> View for ChatClient<MR, CR, MF, CF> {
    type V = Registry<MF, CF>;

    /// The handlers of the session.
    closed spec fn view(&self) -> Registry<MF, CF> {
        self.events@
    }
}

impl<MR, CR, MF: Fn(&Message) -> MR, CF: Fn(&Command) -> CR> ChatClient<MR, CR, MF, CF> {
    /// The configuration the session was made with.
    pub closed spec fn configuration(&self) -> ChatConfig {
        self.config
    }

    /// The configuration the session was made with.
    pub fn config(&self) -> (config: &ChatConfig)
        ensures
            *config == self.configuration(),
    {
        &self.config
    }

    /// A session for `nickname` that holds no handler yet.
    pub fn new(nickname: String, token: String, channels: Vec<String>) -> (client: Self)
        ensures
            client.configuration() == (ChatConfig { nickname, token, channels }),
            client@ == Registry::<MF, CF>::empty(),
    {
        ChatClient { config: ChatConfig { nickname, token, channels }, events: EventHandler::new() }
    }

    /// A session with the configuration `config` that holds no handler
    /// yet.
    pub fn from_config(config: ChatConfig) -> (client: Self)
        ensures
            client.configuration() == config,
            client@ == Registry::<MF, CF>::empty(),
    {
        Self::new(config.nickname, config.token, config.channels)
    }

    /// Registers `cb` for plain messages.
    pub fn on_message(&mut self, cb: MF)
        requires
            accepts_all::<Message, MR, MF>(cb),
        ensures
            final(self)@ == old(self)@.register_message(cb),
            final(self).configuration() == old(self).configuration(),
    {
        self.events.on_message(cb)
    }

    /// Registers `cb` for the command `command`.
    pub fn add_command(&mut self, command: &str, cb: CF)
        requires
            accepts_all::<Command, CR, CF>(cb),
        ensures
            final(self)@ == old(self)@.register_command(command@, cb),
            final(self).configuration() == old(self).configuration(),
    {
        self.events.on_command(command.to_owned(), cb)
    }

    /// Handles one inbound event: reads it as a message, the message as a
    /// command where it holds one, and runs the handlers it goes to.
    pub fn handle_irc_message(&self, message: &RawMessage) -> (outcome: Dispatch<MR, CR>)
        ensures
            dispatched(self@, message, outcome),
    {
        let chat_message = match Message::from_raw(message) {
            Some(chat_message) => chat_message,
            None => { return Dispatch::Dropped; },
        };
        match Command::from_message(chat_message.clone()) {
            Some(command) => {
                if self.events.has_command(&command.name) {
                    let results = self.events.execute_command(&command);
                    Dispatch::Command { command, results }
                } else {
                    let given = chat_message.clone();
                    let results = self.events.execute_message(chat_message);
                    Dispatch::Message { message: given, results }
                }
            },
            None => {
                let given = chat_message.clone();
                let results = self.events.execute_message(chat_message);
                Dispatch::Message { message: given, results }
            },
        }
    }

    /// Takes the next thing from the transport: an inbound event is
    /// handled and the session goes on; the end of the stream and a failure
    /// of the transport stop it.
    pub fn step(&self, event: TransportEvent) -> (next: Step<MR, CR>)
        ensures
            match event {
                TransportEvent::Message(raw) => next matches Step::Continue(outcome) && dispatched(
                    self@,
                    &raw,
                    outcome,
                ),
                TransportEvent::Closed => next == Step::<MR, CR>::Stop(Stopped::Closed),
                TransportEvent::Failed(reason) => next == Step::<MR, CR>::Stop(
                    Stopped::Failed(reason),
                ),
            },
    {
        match event {
            TransportEvent::Message(raw) => Step::Continue(self.handle_irc_message(&raw)),
            TransportEvent::Closed => Step::Stop(Stopped::Closed),
            TransportEvent::Failed(reason) => Step::Stop(Stopped::Failed(reason)),
        }
    }

    /// The message that answers the message `reply_id` on `channel` with
    /// the text `message`.
    pub fn send_reply(&self, channel: String, reply_id: String, message: String) -> (out: Outbound)
        ensures
            out@ == (OutboundView { channel: channel@, text: message@, reply_to: Some(reply_id@) }),
    {
        Outbound::reply(channel, reply_id, message)
    }

    /// The message that says `message` on `channel`.
    pub fn send_message(&self, channel: String, message: String) -> (out: Outbound)
        ensures
            out@ == (OutboundView { channel: channel@, text: message@, reply_to: None }),
    {
        Outbound::message(channel, message)
    }
}

} // verus!
