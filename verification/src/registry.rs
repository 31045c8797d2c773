//! The subscriber registry: the channels that pointer events are published to.
//!
//! A subscription is the sending half of a channel and, in ghost state, the
//! list of every send that was attempted on it. The registry's view is the
//! sequence of its subscriptions in insertion order, and the contracts of this
//! module say how publishing makes those lists grow. To publish an event to a
//! subscriber is to hand it to `Sender::send`; what the channel and its
//! receiver do with it is theirs.

use crate::event::Event;
use std::sync::mpsc::Sender;
use vstd::prelude::*;

verus! {

/// `std::sync::mpsc::Sender`, the sending half of a channel. Nothing inside it
/// is visible to a proof.
#[verifier::external_type_specification]
#[verifier::external_body]
#[verifier::reject_recursive_types(T)]
pub struct ExSender<T>(std::sync::mpsc::Sender<T>);

/// One attempted send: the event that was handed to the channel, and whether
/// the channel took it.
pub struct Offer {
    pub event: Event,
    pub accepted: bool,
}

/// What a proof sees of one subscription.
pub struct Subscriber {
    /// The channel that the subscription sends on.
    pub sender: Sender<Event>,
    /// Every send attempted on it so far, oldest first.
    pub offers: Seq<Offer>,
}

/// The events of a list of offers, in the same order.
pub open spec fn events_of(offers: Seq<Offer>) -> Seq<Event> {
    offers.map_values(|offer: Offer| offer.event)
}

impl Subscriber {
    /// A subscription on which nothing has been sent yet.
    pub open spec fn fresh(sender: Sender<Event>) -> Subscriber {
        Subscriber { sender, offers: Seq::empty() }
    }

    /// Every event that was handed to this subscription, oldest first.
    pub open spec fn events(self) -> Seq<Event> {
        events_of(self.offers)
    }

    /// `later` is this subscription after exactly `events` were handed to it,
    /// one send each and in that order, whatever became of each send.
    pub open spec fn offered(self, events: Seq<Event>, later: Subscriber) -> bool {
        &&& later.sender == self.sender
        &&& self.offers.is_prefix_of(later.offers)
        &&& events_of(later.offers.skip(self.offers.len() as int)) == events
    }
}

/// `after` is the registry `before` once `events` have been published: the
/// same subscriptions in the same order, each of them handed every event of
/// `events` once, in order. No send is skipped because an earlier one failed,
/// and no subscription is dropped or added.
pub open spec fn published(
    before: Seq<Subscriber>,
    after: Seq<Subscriber>,
    events: Seq<Event>,
) -> bool {
    &&& after.len() == before.len()
    &&& forall|i: int| 0 <= i < before.len() ==> before[i].offered(events, #[trigger] after[i])
}

/// The registry `before` after one subscription for each of `senders`, in order.
pub open spec fn subscribed(before: Seq<Subscriber>, senders: Seq<Sender<Event>>) -> Seq<
    Subscriber,
> {
    before + senders.map_values(|sender: Sender<Event>| Subscriber::fresh(sender))
}

/// One subscription of the registry.
struct Endpoint {
    sender: Sender<Event>,
    offers: Ghost<Seq<Offer>>,
}

impl View for Endpoint {
    type V = Subscriber;

    closed spec fn view(&self) -> Subscriber {
        Subscriber { sender: self.sender, offers: self.offers@ }
    }
}

/// Calls `Sender::send` and reports whether it returned `Ok`. The call does
/// not block. Whether it succeeds depends on whether the receiving half is
/// still alive, which is not a property of the arguments, so the contract
/// claims nothing of the answer.
#[verifier::external_body]
fn try_send(sender: &Sender<Event>, event: Event) -> (accepted: bool) {
    sender.send(event).is_ok()
}

impl Endpoint {
    fn new(sender: Sender<Event>) -> (endpoint: Endpoint)
        ensures
            endpoint@ == Subscriber::fresh(sender),
    {
        Endpoint { sender, offers: Ghost(Seq::empty()) }
    }

    /// Hands `event` to the channel and records the attempt.
    fn offer(&mut self, event: Event) -> (accepted: bool)
        ensures
            final(self)@.sender == old(self)@.sender,
            final(self)@.offers == old(self)@.offers.push(Offer { event, accepted }),
    {
        let accepted = try_send(&self.sender, event);
        proof {
            self.offers@ = self.offers@.push(Offer { event, accepted });
        }
        accepted
    }
}

/// The subscriber registry. The embedding code keeps it behind the lock that
/// the user thread and the poll thread share, and calls in here while holding
/// that lock.
pub struct Context {
    endpoints: Vec<Endpoint>,
}

impl View for Context {
    type V = Seq<Subscriber>;

    closed spec fn view(&self) -> Seq<Subscriber> {
        self.endpoints@.map_values(|endpoint: Endpoint| endpoint@)
    }
}

impl Context {
    /// A registry without subscriptions.
    pub fn new() -> (context: Context)
        ensures
            context@ == Seq::<Subscriber>::empty(),
    {
        let context = Context { endpoints: Vec::new() };
        assert(context@ =~= Seq::<Subscriber>::empty());
        context
    }

    /// The number of subscriptions, counting a channel once for each time it
    /// was subscribed.
    pub fn len(&self) -> (n: usize)
        ensures
            n == self@.len(),
    {
        self.endpoints.len()
    }
}

/// Adds a sender where events will be sent to. The new subscription comes
/// after all earlier ones; a channel that is already subscribed is subscribed
/// once more.
pub fn add_sender(context: &mut Context, sender: Sender<Event>)
    ensures
        final(context)@ == old(context)@.push(Subscriber::fresh(sender)),
{
    let endpoint = Endpoint::new(sender);
    context.endpoints.push(endpoint);
    assert(context@ =~= old(context)@.push(Subscriber::fresh(sender)));
}

/// Publishes `event`: hands it to every subscription, in insertion order. A
/// channel whose receiver is gone refuses the event; the refusal is recorded
/// and otherwise ignored, and the subscriptions after it are served all the
/// same.
pub fn send_event(context: &mut Context, event: Event)
    ensures
        published(old(context)@, final(context)@, seq![event]),
{
    let ghost initial = context.endpoints@;
    let n: usize = context.endpoints.len();
    let mut i: usize = 0;
    while i < n
        invariant
            i <= n,
            initial.len() == n,
            context.endpoints@.len() == n,
            forall|j: int|
                0 <= j < i ==> initial[j]@.offered(seq![event], #[trigger] context.endpoints@[j]@),
            forall|j: int| i <= j < n ==> #[trigger] context.endpoints@[j] == initial[j],
        decreases n - i,
    {
        let ghost earlier = context.endpoints@[i as int]@;
        let endpoint = &mut context.endpoints[i];
        let accepted = endpoint.offer(event);
        proof {
            lemma_offered_once(earlier, context.endpoints@[i as int]@, event, accepted);
        }
        i = i + 1;
    }
    assert forall|j: int| 0 <= j < n implies old(context)@[j].offered(
        seq![event],
        #[trigger] context@[j],
    ) by {
        assert(initial[j]@.offered(seq![event], context.endpoints@[j]@));
    }
}

/// One more send is one more event offered.
proof fn lemma_offered_once(earlier: Subscriber, later: Subscriber, event: Event, accepted: bool)
    requires
        later.sender == earlier.sender,
        later.offers == earlier.offers.push(Offer { event, accepted }),
    ensures
        earlier.offered(seq![event], later),
{
    assert(events_of(later.offers.skip(earlier.offers.len() as int)) =~= seq![event]);
}

/// Subscribing one channel more is one more `add_sender`: the registry after
/// `senders` and then `sender` is the registry after `senders`, with a fresh
/// subscription for `sender` at its end.
pub proof fn lemma_subscribed_one_more(
    before: Seq<Subscriber>,
    senders: Seq<Sender<Event>>,
    sender: Sender<Event>,
)
    ensures
        subscribed(before, Seq::empty()) == before,
        subscribed(before, senders.push(sender)) == subscribed(before, senders).push(
            Subscriber::fresh(sender),
        ),
{
    assert(subscribed(before, Seq::empty()) =~= before);
    assert(subscribed(before, senders.push(sender)) =~= subscribed(before, senders).push(
        Subscriber::fresh(sender),
    ));
}

/// After any number of subscriptions and one publication, every channel that
/// was subscribed has been handed exactly one copy of the event, and nothing
/// else. Channels that were subscribed before have been handed one more event,
/// the published one.
pub proof fn lemma_each_subscriber_gets_one_copy(
    before: Seq<Subscriber>,
    senders: Seq<Sender<Event>>,
    event: Event,
    after: Seq<Subscriber>,
)
    requires
        published(subscribed(before, senders), after, seq![event]),
    ensures
        after.len() == before.len() + senders.len(),
        forall|i: int|
            0 <= i < senders.len() ==> (#[trigger] after[before.len() + i]).sender == senders[i]
                && after[before.len() + i].events() == seq![event],
        forall|i: int|
            0 <= i < before.len() ==> (#[trigger] after[i]).sender == before[i].sender
                && after[i].events() == before[i].events().push(event),
{
    let joined = subscribed(before, senders);
    assert forall|i: int| 0 <= i < before.len() implies (#[trigger] after[i]).sender
        == before[i].sender && after[i].events() == before[i].events().push(event) by {
        assert(joined[i].offered(seq![event], after[i]));
        lemma_offered_events(joined[i], seq![event], after[i]);
        assert(before[i].events() + seq![event] =~= before[i].events().push(event));
    }
    assert forall|i: int| 0 <= i < senders.len() implies (#[trigger] after[before.len()
        + i]).sender == senders[i] && after[before.len() + i].events() == seq![event] by {
        let k = before.len() + i;
        assert(joined[k].offered(seq![event], after[k]));
        assert(joined[k] == Subscriber::fresh(senders[i]));
        assert(after[k].offers.skip(0) =~= after[k].offers);
    }
}

/// What was handed to a subscription is what it had before, followed by the
/// events that were published since.
pub proof fn lemma_offered_events(earlier: Subscriber, events: Seq<Event>, later: Subscriber)
    requires
        earlier.offered(events, later),
    ensures
        later.events() == earlier.events() + events,
{
    let n = earlier.offers.len() as int;
    assert(later.events() =~= earlier.events() + events) by {
        assert(later.events().len() == n + events.len());
        assert forall|k: int| 0 <= k < later.offers.len() implies later.events()[k] == (
        earlier.events() + events)[k] by {
            if k < n {
                assert(later.offers[k] == earlier.offers[k]);
            } else {
                assert(later.offers.skip(n)[k - n] == later.offers[k]);
                assert(events_of(later.offers.skip(n))[k - n] == events[k - n]);
            }
        }
    }
}

/// Publishing `first` and then `second` is publishing `first + second`.
pub proof fn lemma_published_in_turn(
    before: Seq<Subscriber>,
    between: Seq<Subscriber>,
    after: Seq<Subscriber>,
    first: Seq<Event>,
    second: Seq<Event>,
)
    requires
        published(before, between, first),
        published(between, after, second),
    ensures
        published(before, after, first + second),
{
    assert forall|i: int| 0 <= i < before.len() implies before[i].offered(
        first + second,
        #[trigger] after[i],
    ) by {
        let a = before[i];
        let b = between[i];
        let c = after[i];
        assert(a.offered(first, b));
        assert(b.offered(second, c));
        let n = a.offers.len() as int;
        let m = b.offers.len() as int;
        assert(b.offers.skip(n).len() == first.len());
        assert(c.offers.skip(m).len() == second.len());
        assert(events_of(c.offers.skip(n)) =~= first + second) by {
            assert forall|k: int| 0 <= k < c.offers.len() - n implies events_of(
                c.offers.skip(n),
            )[k] == (first + second)[k] by {
                if k < m - n {
                    assert(c.offers[n + k] == b.offers[n + k]);
                    assert(b.offers.skip(n)[k] == b.offers[n + k]);
                    assert(events_of(b.offers.skip(n))[k] == first[k]);
                } else {
                    assert(c.offers.skip(m)[k - (m - n)] == c.offers[n + k]);
                    assert(events_of(c.offers.skip(m))[k - (m - n)] == second[k - (m - n)]);
                }
            }
        }
    }
}

/// A channel that refuses an event does not keep the event from the channels
/// that were subscribed after it: each of them is still handed the event once.
pub proof fn lemma_refusal_does_not_stop_publication(
    before: Seq<Subscriber>,
    after: Seq<Subscriber>,
    event: Event,
    refusing: int,
    next: int,
)
    requires
        published(before, after, seq![event]),
        0 <= refusing < next < before.len(),
        !after[refusing].offers.last().accepted,
    ensures
        after[next].offers.len() == before[next].offers.len() + 1,
        after[next].offers.last().event == event,
        after[next].events() == before[next].events().push(event),
{
    assert(before[next].offered(seq![event], after[next]));
    lemma_offered_events(before[next], seq![event], after[next]);
    let n = before[next].offers.len() as int;
    assert(after[next].offers.skip(n).len() == 1);
    assert(events_of(after[next].offers.skip(n))[0] == event);
    assert(after[next].offers.skip(n)[0] == after[next].offers[n]);
    assert(before[next].events() + seq![event] =~= before[next].events().push(event));
}

} // verus!
