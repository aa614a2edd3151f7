//! The bounded mailbox that carries deliveries into one actor.

use crate::delivery::Delivery;
use tokio::sync::mpsc;
use tokio::sync::mpsc::error::TrySendError;
use vstd::prelude::*;

verus! {

/// The sending half of `tokio`'s bounded channel.
#[verifier::external_type_specification]
#[verifier::external_body]
#[verifier::reject_recursive_types(T)]
pub struct ExSender<T>(tokio::sync::mpsc::Sender<T>);

/// A sending half that does not keep the channel open.
#[verifier::external_type_specification]
#[verifier::external_body]
#[verifier::reject_recursive_types(T)]
pub struct ExWeakSender<T>(tokio::sync::mpsc::WeakSender<T>);

/// The receiving half of `tokio`'s bounded channel.
#[verifier::external_type_specification]
#[verifier::external_body]
#[verifier::reject_recursive_types(T)]
pub struct ExReceiver<T>(tokio::sync::mpsc::Receiver<T>);

/// A channel: which one it is, and how many deliveries it was made to buffer.
pub struct Channel {
    pub id: int,
    pub bound: usize,
}

/// The channel a sender sends into.
pub uninterp spec fn sender_channel(tx: mpsc::Sender<Delivery>) -> Channel;

/// The channel a weak sender belongs to.
pub uninterp spec fn weak_sender_channel(tx: mpsc::WeakSender<Delivery>) -> Channel;

/// The channel a receiver receives from.
pub uninterp spec fn receiver_channel(rx: mpsc::Receiver<Delivery>) -> Channel;

/// Whether asking a receiver once for a delivery already there took it from
/// `before` to `after` and gave this answer.
pub uninterp spec fn polled(
    before: mpsc::Receiver<Delivery>,
    after: mpsc::Receiver<Delivery>,
    answer: Option<Delivery>,
) -> bool;

/// The largest bound a channel can have.
pub open spec fn largest_capacity() -> usize {
    (usize::MAX / 8) as usize
}

/// Opens a channel by `mpsc::channel`: both halves belong to the same channel,
/// which buffers up to `capacity` deliveries. The call panics on a capacity of 0 and
/// on one past the largest number of permits a semaphore can hold.
#[verifier::external_body]
fn open_channel(capacity: usize) -> (halves: (mpsc::Sender<Delivery>, mpsc::Receiver<Delivery>))
    requires
        0 < capacity <= largest_capacity(),
    ensures
        sender_channel(halves.0).bound == capacity,
        receiver_channel(halves.1) == sender_channel(halves.0),
{
    mpsc::channel(capacity)
}

/// What became of a delivery that was put to a mailbox without waiting.
pub enum TrySent {
    /// The mailbox took it.
    Accepted,
    /// The mailbox was full; here is the delivery.
    Full(Delivery),
    /// Nobody receives any more; here is the delivery.
    Closed(Delivery),
}

/// Puts a delivery to the channel by `mpsc::Sender::try_send`. Whether it is
/// taken depends on what the channel holds at that moment; a delivery that is
/// not taken comes back as it was.
#[verifier::external_body]
fn try_send(tx: &mpsc::Sender<Delivery>, delivery: Delivery) -> (sent: TrySent)
    ensures
        match sent {
            TrySent::Accepted => true,
            TrySent::Full(d) => d == delivery,
            TrySent::Closed(d) => d == delivery,
        },
{
    match tx.try_send(delivery) {
        Ok(()) => TrySent::Accepted,
        Err(TrySendError::Full(d)) => TrySent::Full(d),
        Err(TrySendError::Closed(d)) => TrySent::Closed(d),
    }
}

/// Another sender of the same channel, by `Clone::clone` of `mpsc::Sender`.
#[verifier::external_body]
fn clone_sender(tx: &mpsc::Sender<Delivery>) -> (other: mpsc::Sender<Delivery>)
    ensures
        sender_channel(other) == sender_channel(*tx),
{
    tx.clone()
}

/// A weak sender of the same channel, by `mpsc::Sender::downgrade`.
#[verifier::external_body]
fn downgrade_sender(tx: &mpsc::Sender<Delivery>) -> (weak: mpsc::WeakSender<Delivery>)
    ensures
        weak_sender_channel(weak) == sender_channel(*tx),
{
    tx.downgrade()
}

/// A sender of the same channel, by `mpsc::WeakSender::upgrade`. There is one
/// only while some other sender is alive.
#[verifier::external_body]
fn upgrade_sender(weak: &mpsc::WeakSender<Delivery>) -> (tx: Option<mpsc::Sender<Delivery>>)
    ensures
        tx matches Some(tx) ==> sender_channel(tx) == weak_sender_channel(*weak),
{
    weak.upgrade()
}

/// Another weak sender of the same channel, by `Clone::clone` of
/// `mpsc::WeakSender`.
#[verifier::external_body]
fn clone_weak_sender(weak: &mpsc::WeakSender<Delivery>) -> (other: mpsc::WeakSender<Delivery>)
    ensures
        weak_sender_channel(other) == weak_sender_channel(*weak),
{
    weak.clone()
}

/// Takes a delivery that is already there, by `mpsc::Receiver::try_recv`. Which
/// one, and whether there is one, depends on what the senders have put into the
/// channel by then, so nothing is said of it but that this was the answer. The
/// receiver stays with its channel.
#[verifier::external_body]
fn try_receive(rx: &mut mpsc::Receiver<Delivery>) -> (delivery: Option<Delivery>)
    ensures
        receiver_channel(*final(rx)) == receiver_channel(*old(rx)),
        polled(*old(rx), *final(rx), delivery),
{
    rx.try_recv().ok()
}

/// Result of a non-blocking [`MailboxTx::offer`].
#[derive(Debug, PartialEq, Eq, Structural)]
pub enum Offer {
    /// Buffered into the mailbox.
    Delivered,
    /// Mailbox full: the delivery was dropped.
    Shed,
    /// No receiver left.
    Closed,
}

impl Offer {
    /// What to report for each way that putting a delivery to a mailbox can go.
    pub open spec fn reported(sent: TrySent) -> Offer {
        match sent {
            TrySent::Accepted => Offer::Delivered,
            TrySent::Full(_) => Offer::Shed,
            TrySent::Closed(_) => Offer::Closed,
        }
    }

    /// What to report for each way that putting a delivery to a mailbox can go.
    /// A delivery that was not taken is dropped here, and its ack with it.
    pub fn of(sent: TrySent) -> (offer: Self)
        ensures
            offer == Offer::reported(sent),
            offer is Delivered <==> sent is Accepted,
            offer is Shed <==> sent is Full,
            offer is Closed <==> sent is Closed,
    {
        match sent {
            TrySent::Accepted => Offer::Delivered,
            TrySent::Full(_) => Offer::Shed,
            TrySent::Closed(_) => Offer::Closed,
        }
    }
}

/// Whether this delivery was put to the channel without waiting, and this is how
/// that went.
pub closed spec fn was_offered(
    tx: mpsc::Sender<Delivery>,
    delivery: Delivery,
    offer: Offer,
) -> bool {
    exists|sent: TrySent|
        offer == Offer::reported(sent) && #[trigger] call_ensures(try_send, (&tx, delivery), sent)
}

/// Whether this is what asking a weak sender for a usable one came to.
pub closed spec fn was_upgraded(
    weak: mpsc::WeakSender<Delivery>,
    tx: Option<mpsc::Sender<Delivery>>,
) -> bool {
    call_ensures(upgrade_sender, (&weak,), tx)
}

/// A delivery that was offered was put to that very channel, and the answer is what
/// came of it.
proof fn what_was_offered_was_put_to_the_channel(
    tx: mpsc::Sender<Delivery>,
    delivery: Delivery,
    offer: Offer,
)
    requires
        was_offered(tx, delivery, offer),
    ensures
        exists|sent: TrySent|
            {
                &&& #[trigger] call_ensures(try_send, (&tx, delivery), sent)
                &&& offer is Delivered <==> sent is Accepted
                &&& offer is Shed <==> sent is Full
                &&& offer is Closed <==> sent is Closed
            },
{
    let sent = choose|sent: TrySent|
        offer == Offer::reported(sent) && #[trigger] call_ensures(try_send, (&tx, delivery), sent);
    assert(call_ensures(try_send, (&tx, delivery), sent));
}

/// A sender that was got by an upgrade was got of that very weak sender.
proof fn what_was_upgraded_was_asked_of_the_weak_sender(
    weak: mpsc::WeakSender<Delivery>,
    tx: Option<mpsc::Sender<Delivery>>,
)
    requires
        was_upgraded(weak, tx),
    ensures
        call_ensures(upgrade_sender, (&weak,), tx),
{
}

/// Whether asking a receiver once per delivery took it from `before` to `after`
/// and gave these deliveries, in this order.
pub open spec fn taken_off(
    before: mpsc::Receiver<Delivery>,
    after: mpsc::Receiver<Delivery>,
    taken: Seq<Delivery>,
) -> bool
    decreases taken.len(),
{
    if taken.len() == 0 {
        before == after
    } else {
        exists|between: mpsc::Receiver<Delivery>|
            taken_off(before, between, taken.drop_last()) && #[trigger] polled(
                between,
                after,
                Some(taken.last()),
            )
    }
}

/// Whether these are all the deliveries a receiver gave, in order, until it had
/// none.
pub open spec fn drained(
    before: mpsc::Receiver<Delivery>,
    after: mpsc::Receiver<Delivery>,
    taken: Seq<Delivery>,
) -> bool {
    exists|between: mpsc::Receiver<Delivery>|
        taken_off(before, between, taken) && #[trigger] polled(between, after, None)
}

/// What is taken off a mailbox are the answers to one poll after the other, from the
/// receiver as it was to the receiver as it then is: none is passed over and none is
/// made up.
pub proof fn what_is_taken_off_is_what_was_polled(
    before: mpsc::Receiver<Delivery>,
    after: mpsc::Receiver<Delivery>,
    taken: Seq<Delivery>,
) -> (states: Seq<mpsc::Receiver<Delivery>>)
    requires
        taken_off(before, after, taken),
    ensures
        states.len() == taken.len() + 1,
        states[0] == before,
        states[taken.len() as int] == after,
        forall|i: int|
            0 <= i < taken.len() ==> polled(
                #[trigger] states[i],
                states[i + 1],
                Some(taken[i]),
            ),
    decreases taken.len(),
{
    if taken.len() == 0 {
        seq![before]
    } else {
        let earlier = taken.drop_last();
        let between = choose|between: mpsc::Receiver<Delivery>|
            taken_off(before, between, earlier) && #[trigger] polled(
                between,
                after,
                Some(taken.last()),
            );
        let states = what_is_taken_off_is_what_was_polled(before, between, earlier);
        let all = states.push(after);
        assert forall|i: int| 0 <= i < taken.len() implies polled(
            #[trigger] all[i],
            all[i + 1],
            Some(taken[i]),
        ) by {
            if i < earlier.len() {
                assert(all[i] == states[i]);
                assert(all[i + 1] == states[i + 1]);
            }
        }
        all
    }
}

/// A mailbox is drained once a poll finds nothing there, and not before.
pub proof fn a_drained_mailbox_had_nothing_left(
    before: mpsc::Receiver<Delivery>,
    after: mpsc::Receiver<Delivery>,
    taken: Seq<Delivery>,
) -> (states: Seq<mpsc::Receiver<Delivery>>)
    requires
        drained(before, after, taken),
    ensures
        states.len() == taken.len() + 1,
        states[0] == before,
        forall|i: int|
            0 <= i < taken.len() ==> polled(
                #[trigger] states[i],
                states[i + 1],
                Some(taken[i]),
            ),
        polled(states[taken.len() as int], after, None),
{
    let between = choose|between: mpsc::Receiver<Delivery>|
        taken_off(before, between, taken) && #[trigger] polled(between, after, None);
    what_is_taken_off_is_what_was_polled(before, between, taken)
}

/// A bounded mailbox carrying deliveries to one actor. The receiver is the
/// single consumer; senders may be cloned for fan-in.
pub fn mailbox(capacity: usize) -> (ends: (MailboxTx, MailboxRx))
    requires
        0 < capacity <= largest_capacity(),
    ensures
        ends.0.channel().bound == capacity,
        ends.1.channel() == ends.0.channel(),
{
    let (sender, receiver) = open_channel(capacity);
    (MailboxTx { sender }, MailboxRx { receiver })
}

/// The sending end of a mailbox.
#[derive(Debug)]
pub struct MailboxTx {
    pub sender: mpsc::Sender<Delivery>,
}

impl MailboxTx {
    /// The channel this end sends into.
    pub open spec fn channel(&self) -> Channel {
        sender_channel(self.sender)
    }

    /// Non-blocking send: the delivery is dropped if the mailbox is full. A shed
    /// delivery drops its ack, so a shed completion makes the feeder retry. Which
    /// of the three answers comes depends on what the mailbox holds at that
    /// moment.
    pub fn offer(&self, delivery: Delivery) -> (offer: Offer)
        ensures
            was_offered(self.sender, delivery, offer),
    {
        Offer::of(try_send(&self.sender, delivery))
    }

    /// A handle to this mailbox that does not keep it open.
    pub fn downgrade(&self) -> (weak: WeakMailboxTx)
        ensures
            weak.channel() == self.channel(),
    {
        WeakMailboxTx { sender: downgrade_sender(&self.sender) }
    }
}

impl Clone for MailboxTx {
    fn clone(&self) -> (other: Self)
        ensures
            other.channel() == self.channel(),
    {
        MailboxTx { sender: clone_sender(&self.sender) }
    }
}

/// A weak [`MailboxTx`], held by timers and supervisors so that they do not keep
/// a torn-down actor alive.
pub struct WeakMailboxTx {
    pub sender: mpsc::WeakSender<Delivery>,
}

impl WeakMailboxTx {
    /// The channel this end sends into.
    pub open spec fn channel(&self) -> Channel {
        weak_sender_channel(self.sender)
    }

    /// A usable sender, while the mailbox is still open on some other one.
    pub fn upgrade(&self) -> (tx: Option<MailboxTx>)
        ensures
            match tx {
                Some(tx) => tx.channel() == self.channel() && was_upgraded(
                    self.sender,
                    Some(tx.sender),
                ),
                None => was_upgraded(self.sender, None),
            },
    {
        match upgrade_sender(&self.sender) {
            Some(sender) => Some(MailboxTx { sender }),
            None => None,
        }
    }
}

impl Clone for WeakMailboxTx {
    fn clone(&self) -> (other: Self)
        ensures
            other.channel() == self.channel(),
    {
        WeakMailboxTx { sender: clone_weak_sender(&self.sender) }
    }
}

/// The ends of a mailbox belong to the channels of their own halves, and to no other.
pub proof fn an_end_belongs_to_its_own_channel(tx: MailboxTx, weak: WeakMailboxTx, rx: MailboxRx)
    ensures
        tx.channel() == sender_channel(tx.sender),
        weak.channel() == weak_sender_channel(weak.sender),
        rx.channel() == receiver_channel(rx.receiver),
        largest_capacity() == usize::MAX / 8,
{
}

/// The receiving end of a mailbox.
pub struct MailboxRx {
    pub receiver: mpsc::Receiver<Delivery>,
}

impl MailboxRx {
    /// The channel this end receives from.
    pub open spec fn channel(&self) -> Channel {
        receiver_channel(self.receiver)
    }

    /// The next delivery, if one is already waiting.
    pub fn try_recv(&mut self) -> (delivery: Option<Delivery>)
        ensures
            final(self).channel() == old(self).channel(),
            polled(old(self).receiver, final(self).receiver, delivery),
    {
        try_receive(&mut self.receiver)
    }

    /// Takes everything that is waiting, in order.
    pub fn drain(&mut self) -> (waiting: Vec<Delivery>)
        ensures
            final(self).channel() == old(self).channel(),
            drained(old(self).receiver, final(self).receiver, waiting@),
    {
        let mut waiting: Vec<Delivery> = Vec::new();
        loop
            invariant
                self.channel() == old(self).channel(),
                taken_off(old(self).receiver, self.receiver, waiting@),
            decreases usize::MAX - waiting.len(),
        {
            let ghost between = self.receiver;
            match self.try_recv() {
                Some(delivery) => {
                    let ghost earlier = waiting@;
                    waiting.push(delivery);
                    assert(waiting@.drop_last() =~= earlier);
                    assert(polled(between, self.receiver, Some(waiting@.last())));
                },
                None => {
                    return waiting;
                },
            }
        }
    }
}

} // verus!
