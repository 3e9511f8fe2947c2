//! Which handlers an inbound event goes to.
//!
//! An event that gives no message is dropped. A message that holds a
//! command with at least one registered handler goes to the handlers of that
//! command, and to no others. Every other message goes to the handlers for
//! plain messages, as it came.

use vstd::prelude::*;
use crate::command::{parse_command, Command, CommandView};
use crate::events::{answered, Registry};
use crate::message::{construct, Message, MessageView};
use crate::transport::{RawCommand, RawMessage};

verus! {

/// Where an inbound event goes.
pub enum Route {
    /// Nowhere: the event gives no message.
    Dropped,
    /// To the handlers for plain messages, with this message.
    Generic(MessageView),
    /// To the handlers registered for this command's name, with this
    /// command.
    Command(CommandView),
}

/// Where the event `raw` goes in a session that holds `registry`.
pub open spec fn route<MF, CF>(registry: Registry<MF, CF>, raw: &RawMessage) -> Route {
    match construct(raw) {
        None => Route::Dropped,
        Some(m) => match parse_command(m) {
            Some(c) => if registry.has_command(c.name) {
                Route::Command(c)
            } else {
                Route::Generic(m)
            },
            None => Route::Generic(m),
        },
    }
}

/// What was done with one inbound event: the message or command it was
/// read as, and the answers of the handlers it went to, in their order.
#[allow(inconsistent_fields)]
pub enum Dispatch<MR, CR> {
    Dropped,
    Message { message: Message, results: Vec<MR> },
    Command { command: Command, results: Vec<CR> },
}

/// Why a session stopped.
pub enum Stopped {
    Closed,
    Failed(String),
}

/// What a session does after one thing from the transport.
pub enum Step<MR, CR> {
    /// The event was handled, and the session takes the next one.
    Continue(Dispatch<MR, CR>),
    /// The session is over.
    Stop(Stopped),
}

/// `outcome` is what handling `raw` gives in a session that holds
/// `registry`: it follows the route of `raw`, and its answers are those of
/// the handlers on that route, one for each in the order of registration.
pub open spec fn dispatched<MR, CR, MF: Fn(&Message) -> MR, CF: Fn(&Command) -> CR>(
    registry: Registry<MF, CF>,
    raw: &RawMessage,
    outcome: Dispatch<MR, CR>,
) -> bool {
    match outcome {
        Dispatch::Dropped => route(registry, raw) == Route::Dropped,
        Dispatch::Message { message, results } => {
            &&& route(registry, raw) == Route::Generic(message@)
            &&& answered(registry.generic, &message, results@)
        },
        Dispatch::Command { command, results } => {
            &&& route(registry, raw) == Route::Command(command@)
            &&& answered(registry.handlers_for(command@.name), &command, results@)
        },
    }
}

/// A command with at least one registered handler goes to the handlers of
/// its name and not to the handlers for plain messages, however many
/// handlers the name has.
pub proof fn lemma_command_takes_priority<MF, CF>(
    registry: Registry<MF, CF>,
    raw: &RawMessage,
    m: MessageView,
    c: CommandView,
)
    requires
        construct(raw) == Some(m),
        parse_command(m) == Some(c),
        registry.handlers_for(c.name).len() >= 1,
    ensures
        route(registry, raw) == Route::Command(c),
        route(registry, raw) != Route::Generic(m),
{
}

/// A command without a registered handler goes to the handlers for plain
/// messages, as the message it was read from: the text is the event's own,
/// marker included.
pub proof fn lemma_unregistered_command_falls_back<MF, CF>(
    registry: Registry<MF, CF>,
    raw: &RawMessage,
    m: MessageView,
    c: CommandView,
)
    requires
        construct(raw) == Some(m),
        parse_command(m) == Some(c),
        registry.handlers_for(c.name).len() == 0,
    ensures
        route(registry, raw) == Route::Generic(m),
        raw.command matches RawCommand::Privmsg { text, .. } && m.text == text@,
{
}

/// A message that holds no command goes to the handlers for plain
/// messages.
pub proof fn lemma_plain_message_is_generic<MF, CF>(
    registry: Registry<MF, CF>,
    raw: &RawMessage,
    m: MessageView,
)
    requires
        construct(raw) == Some(m),
        parse_command(m) is None,
    ensures
        route(registry, raw) == Route::Generic(m),
{
}

} // verus!
