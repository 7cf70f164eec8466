//! The registry of live sessions and the fan-out of published events to
//! each of them.

use vstd::prelude::*;
use crossbeam_channel::{Receiver, SendError, Sender};

verus! {

#[verifier::external_type_specification]
#[verifier::external_body]
#[verifier::reject_recursive_types(T)]
pub struct ExSender<T>(Sender<T>);

#[verifier::external_type_specification]
#[verifier::external_body]
#[verifier::reject_recursive_types(T)]
pub struct ExReceiver<T>(Receiver<T>);

#[verifier::external_type_specification]
#[verifier::external_body]
#[verifier::reject_recursive_types(T)]
pub struct ExSendError<T>(SendError<T>);

/// `crossbeam_channel::unbounded`: a fresh channel without a capacity
/// limit, as its sending and its receiving end.
#[verifier::external_body]
fn open_channel() -> (ends: (Sender<String>, Receiver<String>)) {
    crossbeam_channel::unbounded()
}

/// `crossbeam_channel::Sender::send`: hands the message to the channel, or
/// returns it in an error when the receiving end is gone. On a channel
/// without a capacity limit it does not wait.
#[verifier::external_body]
fn send(sender: &Sender<String>, message: String) -> (r: Result<(), SendError<String>>) {
    sender.send(message)
}

/// `ids` without every occurrence of `id`, order kept.
pub open spec fn without(ids: Seq<u64>, id: u64) -> Seq<u64>
    decreases ids.len(),
{
    if ids.len() == 0 {
        Seq::empty()
    } else if ids.last() == id {
        without(ids.drop_last(), id)
    } else {
        without(ids.drop_last(), id).push(ids.last())
    }
}

proof fn lemma_without_absent(ids: Seq<u64>, id: u64)
    requires
        !ids.contains(id),
    ensures
        without(ids, id) == ids,
    decreases ids.len(),
{
    if ids.len() > 0 {
        let front = ids.drop_last();
        lemma_without_absent(front, id);
    }
}

proof fn lemma_without_at(ids: Seq<u64>, id: u64, k: int)
    requires
        0 <= k < ids.len(),
        ids[k] == id,
        ids.no_duplicates(),
    ensures
        without(ids, id) == ids.remove(k),
        ids.remove(k).no_duplicates(),
    decreases ids.len(),
{
    let front = ids.drop_last();
    if k == ids.len() - 1 {
        lemma_without_absent(front, id);
    } else {
        lemma_without_at(front, id, k);
    }
}

/// The hub: one channel per registered session and, as ghost state, the
/// record of every message it has offered to a session's channel and of
/// whether the channel took it.
pub struct BroadcastHub {
    ids: Vec<u64>,
    senders: Vec<Sender<String>>,
    offered: Ghost<Seq<(u64, Seq<char>)>>,
    taken: Ghost<Seq<bool>>,
}

/// How many of the offers were taken.
pub open spec fn taken_count(outcomes: Seq<bool>) -> nat
    decreases outcomes.len(),
{
    if outcomes.len() == 0 {
        0
    } else if outcomes.last() {
        taken_count(outcomes.drop_last()) + 1
    } else {
        taken_count(outcomes.drop_last())
    }
}

/// One publish: the message, offered to each of the sessions in turn.
pub open spec fn fan_out(sessions: Seq<u64>, message: Seq<char>) -> Seq<(u64, Seq<char>)> {
    Seq::new(sessions.len(), |i: int| (sessions[i], message))
}

impl View for BroadcastHub {
    type V = Seq<u64>;

    /// The registered sessions, in the order in which they were registered.
    closed spec fn view(&self) -> Seq<u64> {
        self.ids@
    }
}

impl BroadcastHub {
    /// Every message offered to a session's channel over the life of the
    /// hub, with the session it was offered to, in order.
    pub closed spec fn offered(&self) -> Seq<(u64, Seq<char>)> {
        self.offered@
    }

    /// For every offer of `offered()`, in the same order, whether the
    /// channel took the message.
    pub closed spec fn taken(&self) -> Seq<bool> {
        self.taken@
    }

    /// Every session is registered at most once, and has its channel.
    pub closed spec fn wf(&self) -> bool {
        self.ids@.len() == self.senders@.len() && self.ids@.no_duplicates()
    }

    /// A hub with no session registered.
    pub fn new() -> (hub: Self)
        ensures
            hub@ == Seq::<u64>::empty(),
            hub.offered() == Seq::<(u64, Seq<char>)>::empty(),
            hub.taken() == Seq::<bool>::empty(),
            hub.wf(),
    {
        Self {
            ids: Vec::new(),
            senders: Vec::new(),
            offered: Ghost(Seq::empty()),
            taken: Ghost(Seq::empty()),
        }
    }

    /// Number of registered sessions.
    pub fn len(&self) -> (count: usize)
        ensures
            count == self@.len(),
    {
        self.ids.len()
    }

    /// Whether the session is registered.
    pub fn is_registered(&self, session_id: u64) -> (found: bool)
        ensures
            found == self@.contains(session_id),
    {
        let mut i: usize = 0;
        while i < self.ids.len()
            invariant
                0 <= i <= self.ids@.len(),
                forall|k: int| 0 <= k < i ==> self.ids@[k] != session_id,
            decreases self.ids@.len() - i,
        {
            if self.ids[i] == session_id {
                return true;
            }
            i = i + 1;
        }
        false
    }

    /// Opens a channel for the session and registers its sending end,
    /// in place of any earlier registration of the same session. Returns
    /// the receiving end, for the session's listener.
    pub fn register(&mut self, session_id: u64) -> (receiver: Receiver<String>)
        requires
            old(self).wf(),
        ensures
            final(self)@ == without(old(self)@, session_id).push(session_id),
            final(self).offered() == old(self).offered(),
            final(self).taken() == old(self).taken(),
            final(self).wf(),
    {
        self.unregister(session_id);
        let (sender, receiver) = open_channel();
        self.ids.push(session_id);
        self.senders.push(sender);
        receiver
    }

    /// Whether a channel took the message it was offered.
    fn was_taken(outcome: Result<(), SendError<String>>) -> (taken: bool)
        ensures
            taken == (outcome is Ok),
    {
        match outcome {
            Ok(_) => true,
            Err(_) => false,
        }
    }

    /// Offers the message to the channel of every registered session, in
    /// the order of registration, and returns how many channels took it. A
    /// session whose listener is gone is passed over; nothing is retried.
    /// Every offer is entered into the record with its outcome, and the
    /// number returned is the number of offers of this publish that were taken.
    pub fn publish(&mut self, message: &str) -> (delivered: usize)
        requires
            old(self).wf(),
        ensures
            final(self)@ == old(self)@,
            final(self).offered() == old(self).offered() + fan_out(old(self)@, message@),
            final(self).taken().len() == old(self).taken().len() + old(self)@.len(),
            final(self).taken().take(old(self).taken().len() as int) == old(self).taken(),
            delivered == taken_count(final(self).taken().skip(old(self).taken().len() as int)),
            delivered <= old(self)@.len(),
            final(self).wf(),
    {
        let mut delivered: usize = 0;
        let mut i: usize = 0;
        let ghost mut outcomes: Seq<bool> = Seq::empty();
        assert(self.taken@ + outcomes =~= self.taken@);
        while i < self.senders.len()
            invariant
                0 <= i <= self.senders@.len(),
                delivered <= i,
                self.wf(),
                self.ids@ == old(self).ids@,
                self.offered@ == old(self).offered@ + fan_out(self.ids@.take(i as int), message@),
                outcomes.len() == i,
                self.taken@ == old(self).taken@ + outcomes,
                delivered == taken_count(outcomes),
            decreases self.senders@.len() - i,
        {
            let outcome = send(&self.senders[i], String::from_str(message));
            let taken = Self::was_taken(outcome);
            proof {
                let before = self.offered@;
                self.offered@ = before.push((self.ids@[i as int], message@));
                assert(fan_out(self.ids@.take(i as int), message@).push(
                    (self.ids@[i as int], message@),
                ) =~= fan_out(self.ids@.take(i + 1), message@));
                assert(outcomes.push(taken).drop_last() =~= outcomes);
                self.taken@ = self.taken@.push(taken);
                outcomes = outcomes.push(taken);
                assert(self.taken@ =~= old(self).taken@ + outcomes);
            }
            if taken {
                delivered = delivered + 1;
            }
            i = i + 1;
        }
        assert(self.taken@.skip(old(self).taken@.len() as int) =~= outcomes);
        assert(self.taken@.take(old(self).taken@.len() as int) =~= old(self).taken@);
        delivered
    }

    /// Removes the session's registration, if it has one; its channel
    /// closes and later publishes pass it over.
    pub fn unregister(&mut self, session_id: u64)
        requires
            old(self).wf(),
        ensures
            final(self)@ == without(old(self)@, session_id),
            !final(self)@.contains(session_id),
            final(self).offered() == old(self).offered(),
            final(self).taken() == old(self).taken(),
            final(self).wf(),
    {
        let mut i: usize = 0;
        while i < self.ids.len()
            invariant
                0 <= i <= self.ids@.len(),
                self.ids@ == old(self).ids@,
                self.senders@ == old(self).senders@,
                self.offered@ == old(self).offered@,
                self.taken@ == old(self).taken@,
                self.wf(),
                forall|k: int| 0 <= k < i ==> self.ids@[k] != session_id,
            decreases self.ids@.len() - i,
        {
            if self.ids[i] == session_id {
                proof {
                    lemma_without_at(self.ids@, session_id, i as int);
                }
                let _ = self.ids.remove(i);
                let _ = self.senders.remove(i);
                return ;
            }
            i = i + 1;
        }
        proof {
            lemma_without_absent(self.ids@, session_id);
        }
    }
}

} // verus!
