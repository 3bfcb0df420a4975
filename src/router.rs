//! What becomes of each line that an actor writes on its output.
use vstd::prelude::*;

use crate::ids::ActorId;
use crate::registry::Registry;
use crate::wire::{Data, Props};

verus! {

/// One decoded output line of an actor.
pub enum Inbound {
    /// A payload message for another actor.
    Data(Data),
    /// A request to spawn a new actor.
    Spawn(Props),
    /// A line that is neither.
    Unknown,
}

/// The decision taken on one output line.
pub enum Route {
    /// Forward the message to the destination's sink.
    Deliver(Data),
    /// The destination is not registered: the message is dropped.
    Missed(Data),
    /// Queue a spawn request on behalf of `requester`.
    Spawn { requester: ActorId, props: Props },
    /// The line is dropped with an "unknown message" diagnostic.
    Unknown,
}

/// Decoding order on an actor's output: a line that reads as a payload
/// message is one, whatever else it might also read as.
pub open spec fn classified(data: Option<Data>, props: Option<Props>) -> Inbound {
    match data {
        Some(d) => Inbound::Data(d),
        None => match props {
            Some(p) => Inbound::Spawn(p),
            None => Inbound::Unknown,
        },
    }
}

/// Combines the two ways of reading a line: as a payload message and as a
/// spawn request.
pub fn classify(data: Option<Data>, props: Option<Props>) -> (r: Inbound)
    ensures
        r == classified(data, props),
{
    match data {
        Some(d) => Inbound::Data(d),
        None => match props {
            Some(p) => Inbound::Spawn(p),
            None => Inbound::Unknown,
        },
    }
}

/// `d` with its origin set to `sender`: what a child claims as origin is
/// never trusted.
pub open spec fn stamped(sender: ActorId, d: Data) -> Data {
    Data { from: Some(sender), to: d.to, payload: d.payload }
}

/// The decision on one line from `sender`, given the registered actors.
pub open spec fn routed<S>(registry: Map<u128, S>, sender: ActorId, inbound: Inbound) -> Route {
    match inbound {
        Inbound::Data(d) => if registry.contains_key(d.to.0) {
            Route::Deliver(stamped(sender, d))
        } else {
            Route::Missed(stamped(sender, d))
        },
        Inbound::Spawn(p) => Route::Spawn { requester: sender, props: p },
        Inbound::Unknown => Route::Unknown,
    }
}

/// The decisions on a sequence of lines from `sender`, one per line, in order.
pub open spec fn routed_lines<S>(registry: Map<u128, S>, sender: ActorId, lines: Seq<Inbound>) -> Seq<Route> {
    Seq::new(lines.len(), |i: int| routed(registry, sender, lines[i]))
}

/// Decides what becomes of one line from `sender`. The registry is only read.
pub fn route<S>(registry: &Registry<S>, sender: ActorId, inbound: Inbound) -> (r: Route)
    ensures
        r == routed(registry@, sender, inbound),
{
    match inbound {
        Inbound::Data(d) => {
            let to = d.to;
            let e = Data { from: Some(sender), to: d.to, payload: d.payload };
            if registry.contains(to) {
                Route::Deliver(e)
            } else {
                Route::Missed(e)
            }
        },
        Inbound::Spawn(p) => Route::Spawn { requester: sender, props: p },
        Inbound::Unknown => Route::Unknown,
    }
}

/// A payload message for a registered actor is delivered once, to that actor,
/// and a sequence of them from one sender is delivered in the order sent.
pub proof fn lemma_registered_destination_delivered<S>(
    registry: Map<u128, S>,
    sender: ActorId,
    lines: Seq<Inbound>,
)
    ensures
        routed_lines(registry, sender, lines).len() == lines.len(),
        forall|i: int|
            0 <= i < lines.len() && (#[trigger] lines[i] matches Inbound::Data(d)
                && registry.contains_key(d.to.0)) ==> routed_lines(registry, sender, lines)[i]
                == Route::Deliver(stamped(sender, lines[i]->Data_0)),
{
}

/// A payload message for an unregistered actor is not delivered: it is
/// dropped, and the registry is left as it was.
pub proof fn lemma_unregistered_destination_dropped<S>(
    registry: Map<u128, S>,
    sender: ActorId,
    d: Data,
)
    requires
        !registry.contains_key(d.to.0),
    ensures
        routed(registry, sender, Inbound::Data(d)) == Route::Missed(stamped(sender, d)),
        !(routed(registry, sender, Inbound::Data(d)) is Deliver),
{
}

/// Whatever origin a payload message carries when its sender writes it, it is
/// forwarded with the sender's id as origin, destination and payload unchanged.
pub proof fn lemma_origin_stamped<S>(registry: Map<u128, S>, sender: ActorId, d: Data)
    ensures
        match routed(registry, sender, Inbound::Data(d)) {
            Route::Deliver(e) => e.from == Some(sender) && e.to == d.to && e.payload == d.payload,
            Route::Missed(e) => e.from == Some(sender) && e.to == d.to && e.payload == d.payload,
            _ => false,
        },
{
}

/// Two identical payload lines for a registered actor are two deliveries:
/// nothing is merged.
pub proof fn lemma_identical_lines_both_delivered<S>(
    registry: Map<u128, S>,
    sender: ActorId,
    d: Data,
)
    requires
        registry.contains_key(d.to.0),
    ensures
        routed_lines(registry, sender, seq![Inbound::Data(d), Inbound::Data(d)])
            == seq![Route::Deliver(stamped(sender, d)), Route::Deliver(stamped(sender, d))],
{
    let lines = seq![Inbound::Data(d), Inbound::Data(d)];
    assert(routed_lines(registry, sender, lines) =~= seq![
        Route::Deliver(stamped(sender, d)),
        Route::Deliver(stamped(sender, d)),
    ]);
}

} // verus!
