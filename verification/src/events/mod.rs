//! The registry of handlers, and running them.
//!
//! Handlers are callable values that take an event by reference and give an
//! answer. They are kept in the order in which they were registered, and run
//! in that order, one answer per handler.

use core::marker::PhantomData;
use vstd::hash_map::StringHashMap;
use vstd::prelude::*;
use crate::command::Command;
use crate::message::Message;

verus! {

/// The handler `callback` can be called on every event.
pub open spec fn accepts_all<T, R, F: Fn(&T) -> R>(callback: F) -> bool {
    forall|event: &T| call_requires(callback, (event,))
}

/// `results` are the answers of `handlers` to `event`: one for each
/// handler, in the order of the handlers.
pub open spec fn answered<T, R, F: Fn(&T) -> R>(
    handlers: Seq<F>,
    event: &T,
    results: Seq<R>,
) -> bool {
    &&& results.len() == handlers.len()
    &&& forall|i: int|
        0 <= i < handlers.len() ==> call_ensures(handlers[i], (event,), #[trigger] results[i])
}

/// An ordered list of handlers for events of type `T`.
#[verifier::reject_recursive_types(T)]
#[verifier::reject_recursive_types(R)]
#[verifier::reject_recursive_types(F)]
pub struct EventCallbacksHandler<T, R, F: Fn(&T) -> R> {
    callbacks: Vec<F>,
    marker: PhantomData<(T, R)>,
}

impl<T, R, F: Fn(&T) -> R> View for EventCallbacksHandler<T, R, F> {
    type V = Seq<F>;

    /// The handlers, in the order in which they were added.
    closed spec fn view(&self) -> Seq<F> {
        self.callbacks@
    }
}

impl<T, R, F: Fn(&T) -> R> EventCallbacksHandler<T, R, F> {
    /// Every handler in the list can be called on every event.
    #[verifier::type_invariant]
    spec fn every_handler_accepts_all(&self) -> bool {
        forall|i: int|
            0 <= i < self.callbacks@.len() ==> accepts_all::<T, R, F>(#[trigger] self.callbacks@[i])
    }

    /// A list without handlers.
    pub fn new() -> (handlers: Self)
        ensures
            handlers@ == Seq::<F>::empty(),
    {
        EventCallbacksHandler { callbacks: Vec::new(), marker: PhantomData }
    }

    /// Adds `callback` after the handlers that are already there.
    pub fn add(&mut self, callback: F)
        requires
            accepts_all::<T, R, F>(callback),
        ensures
            final(self)@ == old(self)@.push(callback),
    {
        proof {
            use_type_invariant(&*self);
        }
        // The list is taken out, extended and put back, so that the handlers
        // in `self` accept every event at each step.
        let mut callbacks: Vec<F> = Vec::new();
        core::mem::swap(&mut self.callbacks, &mut callbacks);
        callbacks.push(callback);
        core::mem::swap(&mut self.callbacks, &mut callbacks);
    }

    /// Calls every handler on `args`, in the order in which they were
    /// added, and gives their answers in that order.
    pub fn execute(&self, args: &T) -> (results: Vec<R>)
        ensures
            answered(self@, args, results@),
    {
        proof {
            use_type_invariant(self);
        }
        let mut results: Vec<R> = Vec::new();
        let mut i: usize = 0;
        while i < self.callbacks.len()
            invariant
                i <= self.callbacks.len(),
                forall|j: int|
                    0 <= j < self.callbacks@.len() ==> accepts_all::<T, R, F>(
                        #[trigger] self.callbacks@[j],
                    ),
                answered(self.callbacks@.take(i as int), args, results@),
            decreases self.callbacks.len() - i,
        {
            let callback = &self.callbacks[i];
            let result = callback(args);
            results.push(result);
            i += 1;
        }
        results
    }
}

/// What a registry holds: the handlers for plain messages, and for each
/// command name that has any the handlers for that command, both in the
/// order of registration.
pub struct Registry<MF, CF> {
    pub generic: Seq<MF>,
    pub commands: Map<Seq<char>, Seq<CF>>,
}

impl<MF, CF> Registry<MF, CF> {
    /// The registry without any handler.
    pub open spec fn empty() -> Self {
        Registry { generic: Seq::empty(), commands: Map::empty() }
    }

    /// The handlers registered for the command `name`, in the order of
    /// registration; none where the name was never registered.
    pub open spec fn handlers_for(self, name: Seq<char>) -> Seq<CF> {
        if self.commands.contains_key(name) {
            self.commands[name]
        } else {
            Seq::empty()
        }
    }

    /// Whether at least one handler is registered for the command `name`.
    pub open spec fn has_command(self, name: Seq<char>) -> bool {
        self.handlers_for(name).len() > 0
    }

    /// A name has an entry only once a handler was registered for it: no
    /// entry is empty.
    pub open spec fn well_formed(self) -> bool {
        forall|name: Seq<char>|
            self.commands.contains_key(name) ==> (#[trigger] self.commands[name]).len() > 0
    }

    /// The registry after `callback` was registered for plain messages.
    pub open spec fn register_message(self, callback: MF) -> Self {
        Registry { generic: self.generic.push(callback), commands: self.commands }
    }

    /// The registry after `callback` was registered for the command `name`.
    pub open spec fn register_command(self, name: Seq<char>, callback: CF) -> Self {
        Registry {
            generic: self.generic,
            commands: self.commands.insert(name, self.handlers_for(name).push(callback)),
        }
    }

    /// The registry after each of `callbacks` was registered for the
    /// command `name`, one after another.
    pub open spec fn register_commands(self, name: Seq<char>, callbacks: Seq<CF>) -> Self
        decreases callbacks.len(),
    {
        if callbacks.len() == 0 {
            self
        } else {
            self.register_commands(name, callbacks.drop_last()).register_command(
                name,
                callbacks.last(),
            )
        }
    }
}

/// Handlers registered one after another for one name stand, in the order
/// in which they were registered, behind the handlers the name already had.
/// The handlers of other names and those for plain messages stay as they
/// were.
pub proof fn lemma_registration_order<MF, CF>(
    registry: Registry<MF, CF>,
    name: Seq<char>,
    callbacks: Seq<CF>,
)
    ensures
        registry.register_commands(name, callbacks).handlers_for(name) == registry.handlers_for(
            name,
        ) + callbacks,
        registry.register_commands(name, callbacks).generic == registry.generic,
        forall|other: Seq<char>|
            other != name ==> #[trigger] registry.register_commands(name, callbacks).handlers_for(
                other,
            ) == registry.handlers_for(other),
    decreases callbacks.len(),
{
    if callbacks.len() > 0 {
        let before = registry.register_commands(name, callbacks.drop_last());
        lemma_registration_order(registry, name, callbacks.drop_last());
        let after = before.register_command(name, callbacks.last());
        assert(after.handlers_for(name) =~= registry.handlers_for(name) + callbacks);
        assert forall|other: Seq<char>| other != name implies #[trigger] after.handlers_for(other)
            == registry.handlers_for(other) by {
            assert(after.handlers_for(other) == before.handlers_for(other));
        }
    }
}

/// Three handlers registered for one name, in the order `first`, `second`,
/// `third`, stand in that order behind the handlers the name already had.
pub proof fn lemma_three_in_order<MF, CF>(
    registry: Registry<MF, CF>,
    name: Seq<char>,
    first: CF,
    second: CF,
    third: CF,
)
    ensures
        registry.register_command(name, first).register_command(name, second).register_command(
            name,
            third,
        ).handlers_for(name) == registry.handlers_for(name) + seq![first, second, third],
{
    let one = registry.register_command(name, first);
    let two = one.register_command(name, second);
    let three = two.register_command(name, third);
    assert(one.handlers_for(name) == registry.handlers_for(name).push(first));
    assert(two.handlers_for(name) == one.handlers_for(name).push(second));
    assert(three.handlers_for(name) == two.handlers_for(name).push(third));
}

/// No registration removes a handler: what a name had, and what plain
/// messages had, stays in front of what was added. A registry without
/// handlers has no empty entry, and no registration makes one.
pub proof fn lemma_registration_removes_nothing<MF, CF>(
    registry: Registry<MF, CF>,
    name: Seq<char>,
    callback: CF,
    generic: MF,
    other: Seq<char>,
)
    ensures
        registry.handlers_for(other).is_prefix_of(
            registry.register_command(name, callback).handlers_for(other),
        ),
        registry.generic.is_prefix_of(registry.register_message(generic).generic),
        Registry::<MF, CF>::empty().well_formed(),
        registry.well_formed() ==> registry.register_command(name, callback).well_formed(),
        registry.well_formed() ==> registry.register_message(generic).well_formed(),
{
    let after = registry.register_command(name, callback);
    if other == name {
        assert(registry.handlers_for(name) =~= after.handlers_for(name).subrange(
            0,
            registry.handlers_for(name).len() as int,
        ));
    }
    if registry.well_formed() {
        assert forall|key: Seq<char>| after.commands.contains_key(key) implies (
        #[trigger] after.commands[key]).len() > 0 by {
            if key != name {
                assert(registry.commands.contains_key(key));
            }
        }
    }
}

/// Registering a handler for a command changes the handlers of no other
/// name and not those for plain messages; registering a handler for plain
/// messages changes the handlers of no command.
pub proof fn lemma_registration_is_local<MF, CF>(
    registry: Registry<MF, CF>,
    name: Seq<char>,
    callback: CF,
    generic: MF,
    other: Seq<char>,
)
    ensures
        other != name ==> registry.register_command(name, callback).handlers_for(other)
            == registry.handlers_for(other),
        registry.register_command(name, callback).generic == registry.generic,
        registry.register_message(generic).handlers_for(other) == registry.handlers_for(other),
        registry.register_message(generic).generic == registry.generic.push(generic),
{
}

/// The handlers of a session: those for plain messages, and those for
/// commands by the command's name.
#[verifier::reject_recursive_types(MR)]
#[verifier::reject_recursive_types(CR)]
#[verifier::reject_recursive_types(MF)]
#[verifier::reject_recursive_types(CF)]
pub struct EventHandler<MR, CR, MF: Fn(&Message) -> MR, CF: Fn(&Command) -> CR> {
    message: EventCallbacksHandler<Message, MR, MF>,
    /// For each registered command name, the place of its handlers in
    /// `commands`.
    index: StringHashMap<usize>,
    commands: Vec<EventCallbacksHandler<Command, CR, CF>>,
}

impl<MR, CR, MF: Fn(&Message) -> MR, CF: Fn(&Command) -> CR> View for EventHandler<
    MR,
    CR,
    MF,
    CF,
> {
    type V = Registry<MF, CF>;

    closed spec fn view(&self) -> Registry<MF, CF> {
        Registry {
            generic: self.message@,
            commands: Map::new(
                |name: Seq<char>| self.index@.contains_key(name),
                |name: Seq<char>| self.commands@[self.index@[name] as int]@,
            ),
        }
    }
}

impl<MR, CR, MF: Fn(&Message) -> MR, CF: Fn(&Command) -> CR> EventHandler<MR, CR, MF, CF> {
    /// Every registered name has a place of its own in `commands`, and at
    /// least one handler there.
    #[verifier::type_invariant]
    spec fn index_is_sound(&self) -> bool {
        &&& forall|name: Seq<char>|
            self.index@.contains_key(name) ==> (#[trigger] self.index@[name])
                < self.commands@.len()
        &&& forall|name: Seq<char>|
            self.index@.contains_key(name) ==> self.commands@[(#[trigger] self.index@[name]) as int]@.len()
                > 0
        &&& forall|a: Seq<char>, b: Seq<char>|
            self.index@.contains_key(a) && self.index@.contains_key(b) && a != b
                ==> (#[trigger] self.index@[a]) != (#[trigger] self.index@[b])
    }

    /// A registry without handlers.
    pub fn new() -> (registry: Self)
        ensures
            registry@ == Registry::<MF, CF>::empty(),
            registry@.well_formed(),
    {
        let registry = EventHandler {
            message: EventCallbacksHandler::new(),
            index: StringHashMap::new(),
            commands: Vec::new(),
        };
        assert(registry@.commands =~= Map::empty());
        registry
    }

    /// Registers `cb` for plain messages, after the handlers that are
    /// already registered for them.
    pub fn on_message(&mut self, cb: MF)
        requires
            accepts_all::<Message, MR, MF>(cb),
        ensures
            final(self)@ == old(self)@.register_message(cb),
            final(self)@.well_formed(),
    {
        proof {
            use_type_invariant(&*self);
        }
        let mut message = EventCallbacksHandler::new();
        core::mem::swap(&mut self.message, &mut message);
        message.add(cb);
        core::mem::swap(&mut self.message, &mut message);
    }

    /// Registers `cb` for the command `command`, after the handlers that
    /// are already registered for that name.
    pub fn on_command(&mut self, command: String, cb: CF)
        requires
            accepts_all::<Command, CR, CF>(cb),
        ensures
            final(self)@ == old(self)@.register_command(command@, cb),
            final(self)@.well_formed(),
    {
        proof {
            use_type_invariant(&*self);
        }
        // The index and the lists are taken out, changed and put back, the
        // index last, so that the index in `self` is sound at each step.
        let mut index: StringHashMap<usize> = StringHashMap::new();
        core::mem::swap(&mut self.index, &mut index);
        let mut commands: Vec<EventCallbacksHandler<Command, CR, CF>> = Vec::new();
        core::mem::swap(&mut self.commands, &mut commands);
        let place = match index.get(command.as_str()) {
            Some(place) => Some(*place),
            None => None,
        };
        match place {
            Some(place) => {
                commands[place].add(cb);
            },
            None => {
                let mut handlers = EventCallbacksHandler::new();
                handlers.add(cb);
                let place = commands.len();
                commands.push(handlers);
                index.insert(command, place);
            },
        }
        core::mem::swap(&mut self.commands, &mut commands);
        core::mem::swap(&mut self.index, &mut index);
        assert(self@.commands =~= old(self)@.register_command(command@, cb).commands);
    }

    /// Whether at least one handler is registered for the command
    /// `command`.
    pub fn has_command(&self, command: &String) -> (registered: bool)
        ensures
            registered == self@.has_command(command@),
            registered == self@.commands.contains_key(command@),
            self@.well_formed(),
    {
        proof {
            use_type_invariant(self);
        }
        self.index.contains_key(command.as_str())
    }

    /// Calls every handler for plain messages on `message`, in the order
    /// of registration.
    pub fn execute_message(&self, message: Message) -> (results: Vec<MR>)
        ensures
            answered(self@.generic, &message, results@),
    {
        self.message.execute(&message)
    }

    /// Calls every handler registered for the name of `command` on it, in
    /// the order of registration.
    pub fn execute_command(&self, command: &Command) -> (results: Vec<CR>)
        requires
            self@.has_command(command@.name),
        ensures
            answered(self@.handlers_for(command@.name), command, results@),
    {
        proof {
            use_type_invariant(self);
        }
        let place = *self.index.get(command.name.as_str()).unwrap();
        self.commands[place].execute(command)
    }
}

} // verus!
