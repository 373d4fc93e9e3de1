use vstd::prelude::*;

use crate::klh_core::messaging::{MessageError, MessageType};

verus! {

/// The routes that a list of registrations gives, later registrations
/// replacing earlier ones for the same message type.
pub open spec fn routes_of(entries: Seq<(MessageType, usize)>) -> Map<MessageType, usize>
    decreases entries.len(),
{
    if entries.len() == 0 {
        Map::empty()
    } else {
        routes_of(entries.drop_last()).insert(entries.last().0, entries.last().1)
    }
}

/// The plugins subscribed to the event `event`, in the order they
/// subscribed.
pub open spec fn subscribers_of(entries: Seq<(MessageType, usize)>, event: MessageType) -> Seq<usize>
    decreases entries.len(),
{
    if entries.len() == 0 {
        Seq::empty()
    } else if entries.last().0 == event {
        subscribers_of(entries.drop_last(), event).push(entries.last().1)
    } else {
        subscribers_of(entries.drop_last(), event)
    }
}

/// The registrations that `plugin` makes for the commands and queries among
/// `types`, in order.
pub open spec fn command_entries_for(types: Seq<MessageType>, plugin: usize) -> Seq<
    (MessageType, usize),
>
    decreases types.len(),
{
    if types.len() == 0 {
        Seq::empty()
    } else if types.last() is Event {
        command_entries_for(types.drop_last(), plugin)
    } else {
        command_entries_for(types.drop_last(), plugin).push((types.last(), plugin))
    }
}

/// The subscriptions that `plugin` makes for the events among `types`, in
/// order.
pub open spec fn event_entries_for(types: Seq<MessageType>, plugin: usize) -> Seq<
    (MessageType, usize),
>
    decreases types.len(),
{
    if types.len() == 0 {
        Seq::empty()
    } else if types.last() is Event {
        event_entries_for(types.drop_last(), plugin).push((types.last(), plugin))
    } else {
        event_entries_for(types.drop_last(), plugin)
    }
}

/// The table of which plugin handles which message type. Plugins are named
/// by their number, in the order the session holds them. Commands and
/// queries go to the one plugin registered last for them; events go to
/// every plugin that subscribed to them.
#[derive(Clone)]
pub struct PluginRegistrar {
    command_entries: Vec<(MessageType, usize)>,
    event_entries: Vec<(MessageType, usize)>,
}

impl PluginRegistrar {
    /// The registrations for commands and queries, in order.
    pub closed spec fn command_entries_view(&self) -> Seq<(MessageType, usize)> {
        self.command_entries@
    }

    /// The subscriptions to events, in order.
    pub closed spec fn event_entries_view(&self) -> Seq<(MessageType, usize)> {
        self.event_entries@
    }

    /// Which plugin each command or query goes to.
    pub open spec fn routes(&self) -> Map<MessageType, usize> {
        routes_of(self.command_entries_view())
    }

    /// A table with no plugin in it.
    pub fn new() -> (r: PluginRegistrar)
        ensures
            r.command_entries_view() == Seq::<(MessageType, usize)>::empty(),
            r.event_entries_view() == Seq::<(MessageType, usize)>::empty(),
    {
        PluginRegistrar { command_entries: Vec::new(), event_entries: Vec::new() }
    }

    /// Registers `plugin` for each of `message_types`: as the handler of
    /// each command and query, replacing any earlier one, and as a
    /// subscriber of each event.
    pub fn register_message_types_for_plugin(
        &mut self,
        message_types: &Vec<MessageType>,
        plugin: usize,
    )
        ensures
            final(self).command_entries_view() == old(self).command_entries_view()
                + command_entries_for(message_types@, plugin),
            final(self).event_entries_view() == old(self).event_entries_view() + event_entries_for(
                message_types@,
                plugin,
            ),
    {
        let ghost cmd0 = self.command_entries@;
        let ghost ev0 = self.event_entries@;
        let mut i: usize = 0;
        while i < message_types.len()
            invariant
                i <= message_types@.len(),
                self.command_entries@ == cmd0 + command_entries_for(
                    message_types@.take(i as int),
                    plugin,
                ),
                self.event_entries@ == ev0 + event_entries_for(message_types@.take(i as int), plugin),
            decreases message_types@.len() - i,
        {
            let message_type = message_types[i];
            assert(message_types@.take(i + 1).drop_last() =~= message_types@.take(i as int));
            match message_type {
                MessageType::Command(_) => {
                    self.command_entries.push((message_type, plugin));
                },
                MessageType::Query(_) => {
                    self.command_entries.push((message_type, plugin));
                },
                MessageType::Event(_) => {
                    self.event_entries.push((message_type, plugin));
                },
            }
            assert(self.command_entries@ =~= cmd0 + command_entries_for(
                message_types@.take(i + 1),
                plugin,
            ));
            assert(self.event_entries@ =~= ev0 + event_entries_for(
                message_types@.take(i + 1),
                plugin,
            ));
            i = i + 1;
        }
        assert(message_types@.take(i as int) =~= message_types@);
    }

    /// The plugin that a message of this type goes to.
    /// # Errors
    /// `MessageTypeNotFound` when no plugin is registered for the type; the
    /// sender of the message is answered with this error.
    pub fn plugin_for(&self, message_type: &MessageType) -> (r: Result<usize, MessageError>)
        ensures
            self.routes().contains_key(*message_type) ==> r == Ok::<usize, MessageError>(
                self.routes()[*message_type],
            ),
            !self.routes().contains_key(*message_type) ==> r matches Err(
                MessageError::MessageTypeNotFound,
            ),
    {
        let mut i: usize = self.command_entries.len();
        assert(self.command_entries@.take(i as int) =~= self.command_entries@);
        while i > 0
            invariant
                i <= self.command_entries@.len(),
                forall|j: int|
                    i <= j < self.command_entries@.len() ==> #[trigger] self.command_entries@[j].0
                        != *message_type,
                routes_of(self.command_entries@).contains_key(*message_type) == routes_of(
                    self.command_entries@.take(i as int),
                ).contains_key(*message_type),
                routes_of(self.command_entries@).contains_key(*message_type) ==> routes_of(
                    self.command_entries@,
                )[*message_type] == routes_of(self.command_entries@.take(i as int))[*message_type],
            decreases i,
        {
            let entry = self.command_entries[i - 1];
            let ghost prefix = self.command_entries@.take(i as int);
            assert(prefix.drop_last() =~= self.command_entries@.take(i - 1));
            if same_message_type(&entry.0, message_type) {
                return Ok(entry.1);
            }
            i = i - 1;
        }
        Err(MessageError::MessageTypeNotFound)
    }

    /// The plugins subscribed to this event, in the order they subscribed.
    pub fn subscribers(&self, event: &MessageType) -> (r: Vec<usize>)
        ensures
            r@ == subscribers_of(self.event_entries_view(), *event),
    {
        let mut r: Vec<usize> = Vec::new();
        let mut i: usize = 0;
        while i < self.event_entries.len()
            invariant
                i <= self.event_entries@.len(),
                r@ == subscribers_of(self.event_entries@.take(i as int), *event),
            decreases self.event_entries@.len() - i,
        {
            let entry = self.event_entries[i];
            assert(self.event_entries@.take(i + 1).drop_last() =~= self.event_entries@.take(
                i as int,
            ));
            if same_message_type(&entry.0, event) {
                r.push(entry.1);
            }
            i = i + 1;
        }
        assert(self.event_entries@.take(i as int) =~= self.event_entries@);
        r
    }
}

/// Once a plugin registers for a list of message types, every command and
/// query among them goes to that plugin, whatever was registered before.
pub proof fn law_registered_types_route_to_plugin(
    entries: Seq<(MessageType, usize)>,
    types: Seq<MessageType>,
    plugin: usize,
    t: MessageType,
)
    requires
        types.contains(t),
        !(t is Event),
    ensures
        routes_of(entries + command_entries_for(types, plugin)).contains_key(t),
        routes_of(entries + command_entries_for(types, plugin))[t] == plugin,
    decreases types.len(),
{
    let rest = types.drop_last();
    let prefix = entries + command_entries_for(rest, plugin);
    if types.last() is Event {
        assert(types.last() != t);
        let k = choose|k: int| 0 <= k < types.len() && types[k] == t;
        assert(rest[k] == t);
        law_registered_types_route_to_plugin(entries, rest, plugin, t);
    } else {
        assert(entries + command_entries_for(types, plugin) =~= prefix.push(
            (types.last(), plugin),
        ));
        assert(prefix.push((types.last(), plugin)).drop_last() =~= prefix);
        if types.last() != t {
            let k = choose|k: int| 0 <= k < types.len() && types[k] == t;
            assert(rest[k] == t);
            law_registered_types_route_to_plugin(entries, rest, plugin, t);
        }
    }
}

/// Registering a plugin leaves the route of every message type that it
/// does not list as it was.
pub proof fn law_registration_keeps_other_routes(
    entries: Seq<(MessageType, usize)>,
    types: Seq<MessageType>,
    plugin: usize,
    t: MessageType,
)
    requires
        !types.contains(t),
    ensures
        routes_of(entries + command_entries_for(types, plugin)).contains_key(t) == routes_of(
            entries,
        ).contains_key(t),
        routes_of(entries).contains_key(t) ==> routes_of(entries + command_entries_for(types, plugin))[t]
            == routes_of(entries)[t],
    decreases types.len(),
{
    if types.len() == 0 {
        assert(entries + command_entries_for(types, plugin) =~= entries);
    } else {
        let rest = types.drop_last();
        assert(!rest.contains(t)) by {
            if rest.contains(t) {
                let k = choose|k: int| 0 <= k < rest.len() && rest[k] == t;
                assert(types[k] == t);
            }
        }
        assert(types[types.len() - 1] == types.last());
        assert(types.last() != t);
        law_registration_keeps_other_routes(entries, rest, plugin, t);
        let prefix = entries + command_entries_for(rest, plugin);
        if !(types.last() is Event) {
            assert(entries + command_entries_for(types, plugin) =~= prefix.push(
                (types.last(), plugin),
            ));
            assert(prefix.push((types.last(), plugin)).drop_last() =~= prefix);
        }
    }
}

/// The subscribers of an event over two lists of subscriptions: those of
/// the first list, then those of the second.
proof fn lemma_subscribers_concat(
    a: Seq<(MessageType, usize)>,
    b: Seq<(MessageType, usize)>,
    event: MessageType,
)
    ensures
        subscribers_of(a + b, event) == subscribers_of(a, event) + subscribers_of(b, event),
    decreases b.len(),
{
    if b.len() == 0 {
        assert(a + b =~= a);
        assert(subscribers_of(a, event) + subscribers_of(b, event) =~= subscribers_of(a, event));
    } else {
        assert((a + b).drop_last() =~= a + b.drop_last());
        lemma_subscribers_concat(a, b.drop_last(), event);
        assert((a + b).last() == b.last());
        if b.last().0 == event {
            assert(subscribers_of(a + b, event) =~= subscribers_of(a, event) + subscribers_of(
                b,
                event,
            ));
        }
    }
}

/// A plugin that lists an event among its types is among the subscribers
/// its registration makes for that event.
proof fn lemma_event_entries_subscribe(types: Seq<MessageType>, plugin: usize, event: MessageType)
    requires
        types.contains(event),
        event is Event,
    ensures
        subscribers_of(event_entries_for(types, plugin), event).contains(plugin),
    decreases types.len(),
{
    let rest = types.drop_last();
    let entries = event_entries_for(types, plugin);
    if types.last() == event {
        assert(entries == event_entries_for(rest, plugin).push((event, plugin)));
        assert(entries.drop_last() =~= event_entries_for(rest, plugin));
        let subs = subscribers_of(entries, event);
        assert(subs == subscribers_of(event_entries_for(rest, plugin), event).push(plugin));
        assert(subs[subs.len() - 1] == plugin);
    } else {
        let k = choose|k: int| 0 <= k < types.len() && types[k] == event;
        assert(k < types.len() - 1);
        assert(rest[k] == event);
        lemma_event_entries_subscribe(rest, plugin, event);
        if types.last() is Event {
            assert(entries.drop_last() =~= event_entries_for(rest, plugin));
            let inner = subscribers_of(event_entries_for(rest, plugin), event);
            let j = choose|j: int| 0 <= j < inner.len() && inner[j] == plugin;
            assert(subscribers_of(entries, event)[j] == plugin);
        }
    }
}

/// Once a plugin subscribes to an event, it is among the event's
/// subscribers, and the plugins that subscribed before keep their places
/// ahead of it.
pub proof fn law_subscribed_plugin_receives_event(
    entries: Seq<(MessageType, usize)>,
    types: Seq<MessageType>,
    plugin: usize,
    event: MessageType,
)
    requires
        types.contains(event),
        event is Event,
    ensures
        subscribers_of(entries + event_entries_for(types, plugin), event).contains(plugin),
        subscribers_of(entries + event_entries_for(types, plugin), event).take(
            subscribers_of(entries, event).len() as int,
        ) == subscribers_of(entries, event),
{
    lemma_subscribers_concat(entries, event_entries_for(types, plugin), event);
    lemma_event_entries_subscribe(types, plugin, event);
    let before = subscribers_of(entries, event);
    let added = subscribers_of(event_entries_for(types, plugin), event);
    assert((before + added).take(before.len() as int) =~= before);
    let j = choose|j: int| 0 <= j < added.len() && added[j] == plugin;
    assert((before + added)[before.len() + j] == plugin);
}

/// Whether two message types are the same.
pub fn same_message_type(a: &MessageType, b: &MessageType) -> (r: bool)
    ensures
        r == (*a == *b),
{
    let r = *a == *b;
    proof {
        match (*a, *b) {
            (MessageType::Command(x), MessageType::Command(y)) => {
                if r {
                    assert(x =~= y);
                }
            },
            (MessageType::Query(x), MessageType::Query(y)) => {
                if r {
                    assert(x =~= y);
                }
            },
            (MessageType::Event(x), MessageType::Event(y)) => {
                if r {
                    assert(x =~= y);
                }
            },
            _ => {},
        }
    }
    r
}

} // verus!
