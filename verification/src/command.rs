//! Commands: chat messages whose text starts with a marked word.
//!
//! The first word of a command starts with `!`; what follows the marker is
//! the command's name, and the words after it are its arguments.

use vstd::prelude::*;
use crate::message::{Message, MessageView};
use crate::text::{
    all_words, is_word, lemma_words_after_whitespace, lemma_words_after_word,
    lemma_words_are_words, split_whitespace, words,
};
use crate::transport::{Outbound, OutboundView};

verus! {

/// The character that marks a word as a command.
pub const MARKER: char = '!';

/// The name of the command that `text` holds: its first word without the
/// marker, where the text has a first word, that word starts with the
/// marker, and more than the marker is left of it.
pub open spec fn parse_name(text: Seq<char>) -> Option<Seq<char>> {
    let ws = words(text);
    if ws.len() > 0 && ws[0].len() > 1 && ws[0][0] == MARKER {
        Some(ws[0].skip(1))
    } else {
        None
    }
}

/// The arguments that `text` holds: every word after the first, in order.
pub open spec fn parse_args(text: Seq<char>) -> Seq<Seq<char>> {
    let ws = words(text);
    if ws.len() > 0 {
        ws.skip(1)
    } else {
        Seq::empty()
    }
}

/// Reads the name of the command that `text` holds, if it holds one.
pub fn get_command_name_from_text(text: &String) -> (name: Option<String>)
    ensures
        match name {
            Some(n) => parse_name(text@) == Some(n@),
            None => parse_name(text@) is None,
        },
{
    let tokens = split_whitespace(text.as_str());
    if tokens.len() == 0 {
        return None;
    }
    let first = tokens[0].as_str();
    let len = first.unicode_len();
    if len > 1 && first.get_char(0) == MARKER {
        Some(first.substring_char(1, len).to_owned())
    } else {
        None
    }
}

/// Reads the arguments that `text` holds.
pub fn get_command_args(text: &String) -> (args: Vec<String>)
    ensures
        args.deep_view() == parse_args(text@),
{
    let mut parts = split_whitespace(text.as_str());
    if parts.len() > 0 {
        parts.remove(0);
    }
    parts
}

/// A message read as a directive: the name of the command and its
/// arguments, with the channel, the sender and the identifier of the message
/// it was read from.
pub struct Command {
    pub channel: String,
    pub username: String,
    pub name: String,
    pub args: Vec<String>,
    pub message_id: String,
}

/// What a command holds, each field as a sequence of characters and the
/// arguments as a sequence of such.
pub struct CommandView {
    pub channel: Seq<char>,
    pub username: Seq<char>,
    pub name: Seq<char>,
    pub args: Seq<Seq<char>>,
    pub message_id: Seq<char>,
}

impl View for Command {
    type V = CommandView;

    open spec fn view(&self) -> CommandView {
        CommandView {
            channel: self.channel@,
            username: self.username@,
            name: self.name@,
            args: self.args.deep_view(),
            message_id: self.message_id@,
        }
    }
}

/// The command that the message `m` holds, if its text holds one.
pub open spec fn parse_command(m: MessageView) -> Option<CommandView> {
    match parse_name(m.text) {
        Some(name) => Some(
            CommandView {
                channel: m.channel,
                username: m.username,
                name,
                args: parse_args(m.text),
                message_id: m.message_id,
            },
        ),
        None => None,
    }
}

/// The arguments `args` as they stand in a text, each after one space.
pub open spec fn joined(args: Seq<Seq<char>>) -> Seq<char>
    decreases args.len(),
{
    if args.len() == 0 {
        Seq::empty()
    } else {
        seq![' '] + args[0] + joined(args.drop_first())
    }
}

/// The text of the command `name` with the arguments `args`:
/// `!name arg1 arg2 ...`.
pub open spec fn canonical_text(name: Seq<char>, args: Seq<Seq<char>>) -> Seq<char> {
    seq![MARKER] + name + joined(args)
}

/// The message that carries the command `c` as text.
pub open spec fn message_of(c: CommandView) -> MessageView {
    MessageView {
        message_id: c.message_id,
        channel: c.channel,
        username: c.username,
        text: canonical_text(c.name, c.args),
    }
}

impl CommandView {
    /// A name and arguments are those of a command only if each is a
    /// word.
    pub open spec fn well_formed(self) -> bool {
        &&& is_word(self.name)
        &&& all_words(self.args)
    }
}

/// One more argument stands at the end of the text, after one space.
pub proof fn lemma_joined_push(args: Seq<Seq<char>>, arg: Seq<char>)
    ensures
        joined(args.push(arg)) == joined(args) + seq![' '] + arg,
    decreases args.len(),
{
    let all = args.push(arg);
    if args.len() == 0 {
        assert(joined(all.drop_first()) =~= Seq::<char>::empty());
    } else {
        assert(all.drop_first() =~= args.drop_first().push(arg));
        lemma_joined_push(args.drop_first(), arg);
    }
}

/// The words of a word followed by arguments, each after one space, are
/// that word and the arguments.
pub proof fn lemma_words_of_joined(first: Seq<char>, args: Seq<Seq<char>>)
    requires
        is_word(first),
        all_words(args),
    ensures
        words(first + joined(args)) == seq![first] + args,
    decreases args.len(),
{
    if args.len() == 0 {
        lemma_words_after_word(first, Seq::empty());
    } else {
        let rest = args.drop_first();
        let tail = args[0] + joined(rest);
        assert(all_words(rest));
        lemma_words_of_joined(args[0], rest);
        lemma_words_after_whitespace(' ', tail);
        lemma_words_after_word(first, seq![' '] + tail);
        assert(first + joined(args) =~= first + (seq![' '] + tail));
    }
}

/// A text whose first word starts with the marker and is longer than the
/// marker holds a command: its name is that word without the marker, and
/// its arguments are the remaining words in their order.
pub proof fn lemma_marked_first_word(text: Seq<char>)
    requires
        words(text).len() > 0,
        words(text)[0].len() > 1,
        words(text)[0][0] == MARKER,
    ensures
        parse_name(text) == Some(words(text)[0].skip(1)),
        parse_args(text) == words(text).skip(1),
        seq![seq![MARKER] + parse_name(text).unwrap()] + parse_args(text) == words(text),
        is_word(parse_name(text).unwrap()),
        all_words(parse_args(text)),
{
    let ws = words(text);
    lemma_words_are_words(text);
    assert(is_word(ws[0].skip(1)));
    assert(all_words(ws.skip(1)));
    assert(seq![MARKER] + ws[0].skip(1) =~= ws[0]);
}

/// A message holds no command where its text has no word, where its
/// first word does not start with the marker, and where its first word is
/// the marker alone.
pub proof fn lemma_unmarked_is_no_command(m: MessageView)
    requires
        words(m.text).len() == 0 || words(m.text)[0][0] != MARKER || words(m.text)[0] == seq![
            MARKER,
        ],
    ensures
        parse_command(m) is None,
{
}

/// A command whose name and arguments are words is read back from its own
/// text: the message that carries it holds exactly that command.
pub proof fn lemma_round_trip(c: CommandView)
    requires
        c.well_formed(),
    ensures
        parse_command(message_of(c)) == Some(c),
{
    let marked = seq![MARKER] + c.name;
    assert(is_word(marked));
    lemma_words_of_joined(marked, c.args);
    let ws = words(canonical_text(c.name, c.args));
    assert(ws[0].skip(1) =~= c.name);
    assert(ws.skip(1) =~= c.args);
}

/// The text of a command read from a message has the words of that
/// message's text, whatever whitespace stood between them: only the runs
/// of whitespace are lost on the way from text to command and back.
pub proof fn lemma_canonical_text_keeps_words(m: MessageView, c: CommandView)
    requires
        parse_command(m) == Some(c),
    ensures
        c.well_formed(),
        words(message_of(c).text) == words(m.text),
        parse_command(message_of(c)) == Some(c),
{
    lemma_marked_first_word(m.text);
    lemma_round_trip(c);
    let marked = seq![MARKER] + c.name;
    assert(is_word(marked));
    lemma_words_of_joined(marked, c.args);
}

impl Command {
    /// Reads `message` as a command, or gives nothing where its text
    /// holds none.
    pub fn from_message(message: Message) -> (r: Option<Self>)
        ensures
            match r {
                Some(c) => parse_command(message@) == Some(c@) && c@.well_formed(),
                None => parse_command(message@) is None,
            },
    {
        let name = match get_command_name_from_text(&message.text) {
            Some(name) => name,
            None => { return None; },
        };
        let args = get_command_args(&message.text);
        proof {
            lemma_marked_first_word(message.text@);
        }
        Some(
            Command {
                channel: message.channel,
                username: message.username,
                name,
                args,
                message_id: message.message_id,
            },
        )
    }

    /// The command as text: `!name arg1 arg2 ...`.
    pub fn as_text(&self) -> (text: String)
        ensures
            text@ == canonical_text(self@.name, self@.args),
    {
        proof {
            reveal_strlit("!");
        }
        let mut text = "!".to_owned();
        text.append(self.name.as_str());
        let mut i: usize = 0;
        while i < self.args.len()
            invariant
                i <= self.args.len(),
                text@ == canonical_text(self@.name, self@.args.take(i as int)),
            decreases self.args.len() - i,
        {
            proof {
                reveal_strlit(" ");
                lemma_joined_push(self@.args.take(i as int), self.args[i as int]@);
                assert(self@.args.take(i as int + 1) =~= self@.args.take(i as int).push(
                    self.args[i as int]@,
                ));
            }
            text.append(" ");
            text.append(self.args[i].as_str());
            i += 1;
        }
        proof {
            assert(self@.args.take(i as int) =~= self@.args);
        }
        text
    }

    /// The message that carries this command as text, with the channel,
    /// the sender and the identifier it was read with.
    pub fn to_message(self) -> (m: Message)
        ensures
            m@ == message_of(self@),
    {
        let text = self.as_text();
        Message {
            message_id: self.message_id,
            channel: self.channel,
            username: self.username,
            text,
        }
    }

    /// The answer to this command that says `message`: it goes to the
    /// channel the command came from and names the message the command was
    /// read from as the one it answers.
    pub fn reply(&self, message: String) -> (out: Outbound)
        ensures
            out@ == (OutboundView {
                channel: self@.channel,
                text: message@,
                reply_to: Some(self@.message_id),
            }),
    {
        Outbound::reply(self.channel.clone(), self.message_id.clone(), message)
    }
}

} // verus!
