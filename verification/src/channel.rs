//! The queues of the library: channels of `workflow_core`, used here through
//! their non-blocking operations only. Channels of texts carry a child's
//! output to its consumers; channels of signals carry the requests to cancel
//! a task and the news of its completion.
//!
//! What the operations do is taken on trust from the channel's own source.
//! For each of the two kinds of channel it is stated over three names: what
//! waits in a channel ([`queued`], [`signals`]), whether it is closed
//! ([`closed`], [`signals_closed`]) and the limit it was made with
//! ([`capacity`], [`signals_capacity`]). [`Queue`] puts the three together.
//! Of a receiver that is handed out it is stated what waits for it
//! ([`waiting`], [`waiting_signals`]).
//! The statements hold as long as no other endpoint of the same channel is
//! used while a call is under way.
use vstd::prelude::*;
use workflow_core::channel::Channel;
use workflow_core::channel::Receiver;
use crate::error::{Error, TryRecvFailure, TrySendFailure};
use crate::text::concat;

verus! {

/// `workflow_core::channel::Channel`: a sender and a receiver of one queue.
/// Nothing of its inside is known here.
#[verifier::external_type_specification]
#[verifier::external_body]
#[verifier::reject_recursive_types(T)]
pub struct ExChannel<T>(workflow_core::channel::Channel<T>);

/// `workflow_core::channel::Receiver`: the consuming endpoint of a queue.
/// Nothing of its inside is known here.
#[verifier::external_type_specification]
#[verifier::external_body]
#[verifier::reject_recursive_types(T)]
pub struct ExReceiver<T>(workflow_core::channel::Receiver<T>);

/// The texts that wait in a channel, oldest first.
pub uninterp spec fn queued(channel: Channel<String>) -> Seq<Seq<char>>;

/// Whether a channel is closed: it takes no further message, and hands out
/// those that wait.
pub uninterp spec fn closed(channel: Channel<String>) -> bool;

/// The number of messages that a channel was made to hold at most, if it was
/// made with a limit.
pub uninterp spec fn capacity(channel: Channel<String>) -> Option<nat>;

/// The signals that wait in a channel.
pub uninterp spec fn signals(channel: Channel<()>) -> Seq<()>;

/// Whether a channel of signals is closed.
pub uninterp spec fn signals_closed(channel: Channel<()>) -> bool;

/// The number of signals that a channel was made to hold at most, if it was
/// made with a limit.
pub uninterp spec fn signals_capacity(channel: Channel<()>) -> Option<nat>;

/// The texts that wait for a receiver, oldest first: those of the queue that
/// it consumes.
pub uninterp spec fn waiting(receiver: Receiver<String>) -> Seq<Seq<char>>;

/// The signals that wait for a receiver: those of the queue that it consumes.
pub uninterp spec fn waiting_signals(receiver: Receiver<()>) -> Seq<()>;

/// A queue as a mathematical value.
#[verifier::ext_equal]
pub struct Queue<T> {
    /// The items that wait, oldest first.
    pub items: Seq<T>,
    /// The queue takes no further item.
    pub closed: bool,
    /// The number of items that may wait at a time, where there is a limit.
    pub capacity: Option<nat>,
}

impl<T> Queue<T> {
    /// A new queue without a limit: open and empty.
    pub open spec fn unbounded() -> Queue<T> {
        Queue { items: Seq::empty(), closed: false, capacity: None }
    }

    /// A new queue for one item at a time: open and empty.
    pub open spec fn oneshot() -> Queue<T> {
        Queue { items: Seq::empty(), closed: false, capacity: Some(1nat) }
    }

    /// As many items wait as the queue may hold.
    pub open spec fn full(self) -> bool {
        match self.capacity {
            Some(limit) => self.items.len() >= limit,
            None => false,
        }
    }

    /// The queue takes a further item.
    pub open spec fn accepting(self) -> bool {
        !self.closed && !self.full()
    }

    /// An attempt to put `item` into the queue: it goes behind the items
    /// that wait, unless the queue is closed or full.
    pub open spec fn send(self, item: T) -> (Queue<T>, Result<(), TrySendFailure>) {
        if self.closed {
            (self, Err(TrySendFailure::Closed))
        } else if self.full() {
            (self, Err(TrySendFailure::Full))
        } else {
            (Queue { items: self.items.push(item), ..self }, Ok(()))
        }
    }

    /// An attempt to take an item from the queue: the oldest one leaves,
    /// unless none waits.
    pub open spec fn receive(self) -> (Queue<T>, Result<T, TryRecvFailure>) {
        if self.items.len() > 0 {
            (Queue { items: self.items.drop_first(), ..self }, Ok(self.items[0]))
        } else if self.closed {
            (self, Err(TryRecvFailure::Closed))
        } else {
            (self, Err(TryRecvFailure::Empty))
        }
    }

    /// The queue with `items` put behind those that wait.
    pub open spec fn extended(self, items: Seq<T>) -> Queue<T> {
        Queue { items: self.items + items, ..self }
    }

    /// The queue once every item was taken.
    pub open spec fn drained(self) -> Queue<T> {
        Queue { items: Seq::empty(), ..self }
    }
}

/// What is known of a channel of texts.
pub open spec fn queue_of(channel: Channel<String>) -> Queue<Seq<char>> {
    Queue { items: queued(channel), closed: closed(channel), capacity: capacity(channel) }
}

/// What is known of a channel of signals.
pub open spec fn signal_queue_of(channel: Channel<()>) -> Queue<()> {
    Queue {
        items: signals(channel),
        closed: signals_closed(channel),
        capacity: signals_capacity(channel),
    }
}

/// A text received, as a mathematical value.
pub open spec fn received_view(taken: Result<String, TryRecvFailure>) -> Result<
    Seq<char>,
    TryRecvFailure,
> {
    match taken {
        Ok(text) => Ok(text@),
        Err(why) => Err(why),
    }
}

/// `Channel::unbounded`: a new channel without a limit, open, in which
/// nothing waits yet.
#[verifier::external_body]
pub(crate) fn channel_unbounded() -> (channel: Channel<String>)
    ensures
        queued(channel) == Seq::<Seq<char>>::empty(),
        !closed(channel),
        capacity(channel) is None,
{
    Channel::unbounded()
}

/// `Channel::len`: the number of messages that wait in the channel.
#[verifier::external_body]
pub(crate) fn channel_len(channel: &Channel<String>) -> (n: usize)
    ensures
        n == queued(*channel).len(),
{
    channel.len()
}

/// `Channel::try_send`: puts a message behind those that wait, without
/// blocking. A closed channel refuses it, and so does an open one that is
/// full; the message is then dropped and the channel left as it was.
#[verifier::external_body]
pub(crate) fn channel_try_send(channel: &mut Channel<String>, text: String) -> (sent: Result<
    (),
    TrySendFailure,
>)
    ensures
        sent == queue_of(*old(channel)).send(text@).1,
        queued(*final(channel)) == queue_of(*old(channel)).send(text@).0.items,
        closed(*final(channel)) == closed(*old(channel)),
        capacity(*final(channel)) == capacity(*old(channel)),
{
    match channel.try_send(text) {
        Ok(()) => Ok(()),
        Err(workflow_core::channel::TrySendError::Full(_)) => Err(TrySendFailure::Full),
        Err(workflow_core::channel::TrySendError::Closed(_)) => Err(TrySendFailure::Closed),
    }
}

/// `Channel::try_recv`: takes the oldest waiting message, without blocking.
/// It fails exactly where nothing waits, and then leaves the channel as it
/// was; the failure tells whether the channel is closed.
#[verifier::external_body]
pub(crate) fn channel_try_recv(channel: &mut Channel<String>) -> (taken: Result<
    String,
    TryRecvFailure,
>)
    ensures
        received_view(taken) == queue_of(*old(channel)).receive().1,
        queued(*final(channel)) == queue_of(*old(channel)).receive().0.items,
        closed(*final(channel)) == closed(*old(channel)),
        capacity(*final(channel)) == capacity(*old(channel)),
{
    match channel.try_recv() {
        Ok(text) => Ok(text),
        Err(workflow_core::channel::TryRecvError::Empty) => Err(TryRecvFailure::Empty),
        Err(workflow_core::channel::TryRecvError::Closed) => Err(TryRecvFailure::Closed),
    }
}

/// `Receiver::clone`, on the receiver of the channel: one more consumer of
/// the same queue, so that what waits in the channel waits for it.
#[verifier::external_body]
pub(crate) fn channel_receiver(channel: &Channel<String>) -> (receiver: Receiver<String>)
    ensures
        waiting(receiver) == queued(*channel),
{
    channel.receiver.clone()
}

/// `Channel::oneshot`: a new channel for one signal at a time, open, in
/// which nothing waits yet.
#[verifier::external_body]
pub(crate) fn signal_oneshot() -> (channel: Channel<()>)
    ensures
        signals(channel) == Seq::<()>::empty(),
        !signals_closed(channel),
        signals_capacity(channel) == Some(1nat),
{
    Channel::oneshot()
}

/// `Channel::len`: the number of signals that wait in the channel.
#[verifier::external_body]
pub(crate) fn signal_len(channel: &Channel<()>) -> (n: usize)
    ensures
        n == signals(*channel).len(),
{
    channel.len()
}

/// `Channel::try_send`: puts a signal behind those that wait, without
/// blocking. A closed channel refuses it, and so does an open one that is
/// full; the channel is then left as it was.
#[verifier::external_body]
pub(crate) fn signal_try_send(channel: &mut Channel<()>) -> (sent: Result<(), TrySendFailure>)
    ensures
        sent == signal_queue_of(*old(channel)).send(()).1,
        signals(*final(channel)) == signal_queue_of(*old(channel)).send(()).0.items,
        signals_closed(*final(channel)) == signals_closed(*old(channel)),
        signals_capacity(*final(channel)) == signals_capacity(*old(channel)),
{
    match channel.try_send(()) {
        Ok(()) => Ok(()),
        Err(workflow_core::channel::TrySendError::Full(_)) => Err(TrySendFailure::Full),
        Err(workflow_core::channel::TrySendError::Closed(_)) => Err(TrySendFailure::Closed),
    }
}

/// `Channel::try_recv`: takes the oldest waiting signal, without blocking.
/// It fails exactly where nothing waits, and then leaves the channel as it
/// was; the failure tells whether the channel is closed.
#[verifier::external_body]
pub(crate) fn signal_try_recv(channel: &mut Channel<()>) -> (taken: Result<(), TryRecvFailure>)
    ensures
        taken == signal_queue_of(*old(channel)).receive().1,
        signals(*final(channel)) == signal_queue_of(*old(channel)).receive().0.items,
        signals_closed(*final(channel)) == signals_closed(*old(channel)),
        signals_capacity(*final(channel)) == signals_capacity(*old(channel)),
{
    match channel.try_recv() {
        Ok(()) => Ok(()),
        Err(workflow_core::channel::TryRecvError::Empty) => Err(TryRecvFailure::Empty),
        Err(workflow_core::channel::TryRecvError::Closed) => Err(TryRecvFailure::Closed),
    }
}

/// `Receiver::clone`, on the receiver of the channel: one more party that
/// waits for the signals of the same queue, so that what waits in the
/// channel waits for it.
#[verifier::external_body]
pub(crate) fn signal_receiver(channel: &Channel<()>) -> (receiver: Receiver<()>)
    ensures
        waiting_signals(receiver) == signals(*channel),
{
    channel.receiver.clone()
}

/// Puts a signal into `channel` if it takes it, and says how that went.
pub fn send_signal(channel: &mut Channel<()>) -> (sent: Result<(), TrySendFailure>)
    ensures
        sent == signal_queue_of(*old(channel)).send(()).1,
        signal_queue_of(*final(channel)) == signal_queue_of(*old(channel)).send(()).0,
{
    signal_try_send(channel)
}

/// Takes every signal that waits in `channel`.
pub fn drain_signals(channel: &mut Channel<()>) -> (drained: Result<(), Error>)
    ensures
        drained is Ok,
        signal_queue_of(*final(channel)) == signal_queue_of(*old(channel)).drained(),
{
    while signal_len(channel) > 0
        invariant
            signals_closed(*channel) == signals_closed(*old(channel)),
            signals_capacity(*channel) == signals_capacity(*old(channel)),
        decreases signals(*channel).len(),
    {
        match signal_try_recv(channel) {
            Ok(()) => {},
            Err(why) => {
                return Err(Error::TryRecvError(why));
            },
        }
    }
    assert(signals(*channel) =~= Seq::<()>::empty());
    Ok(())
}

/// Puts `text` into `channel` if it takes it, and says whether it did.
pub fn send_text(channel: &mut Channel<String>, text: String) -> (sent: bool)
    ensures
        sent == queue_of(*old(channel)).accepting(),
        queue_of(*final(channel)) == queue_of(*old(channel)).send(text@).0,
{
    channel_try_send(channel, text).is_ok()
}

/// Takes every text that waits in `channel` and returns them as one text, in
/// the order in which they were sent.
pub fn drain_text(channel: &mut Channel<String>) -> (text: Result<String, Error>)
    ensures
        text is Ok,
        text->Ok_0@ == concat(queued(*old(channel))),
        queue_of(*final(channel)) == queue_of(*old(channel)).drained(),
{
    let n = channel_len(channel);
    let mut text = String::new();
    let mut taken: usize = 0;
    assert(queued(*channel).subrange(0, 0) =~= Seq::<Seq<char>>::empty());
    while taken < n
        invariant
            taken <= n == queued(*old(channel)).len(),
            queued(*channel) == queued(*old(channel)).subrange(taken as int, n as int),
            closed(*channel) == closed(*old(channel)),
            capacity(*channel) == capacity(*old(channel)),
            text@ == concat(queued(*old(channel)).subrange(0, taken as int)),
        decreases n - taken,
    {
        let ghost before = queued(*old(channel)).subrange(0, taken as int);
        let ghost after = queued(*old(channel)).subrange(0, taken + 1);
        match channel_try_recv(channel) {
            Ok(chunk) => {
                text.append(chunk.as_str());
                assert(after.drop_last() =~= before);
                assert(queued(*channel) =~= queued(*old(channel)).subrange(taken + 1, n as int));
            },
            Err(why) => {
                return Err(Error::TryRecvError(why));
            },
        }
        taken = taken + 1;
    }
    assert(queued(*old(channel)).subrange(0, n as int) =~= queued(*old(channel)));
    assert(queued(*channel) =~= Seq::<Seq<char>>::empty());
    Ok(text)
}

} // verus!
