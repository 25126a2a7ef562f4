//! The message router: per-recipient mailboxes and per-recipient live
//! delivery channels. A send is handed to the recipient's live channel when
//! one is attached and accepts it; otherwise it is appended to the mailbox,
//! which is created lazily. A retrieve atomically replaces any prior live
//! channel, drains the mailbox in FIFO order and installs a fresh channel.
//!
//! Enqueueing to an unknown recipient is allowed — correlating identities
//! with registered users is an application-layer concern to the router.

use crate::bundle::{copy_bytes, Message, MessageView};
use crate::store::copy_string;
use vstd::hash_map::StringHashMap;
use vstd::prelude::*;

verus! {

#[verifier::external_type_specification]
#[verifier::external_body]
#[verifier::reject_recursive_types(T)]
pub struct ExSender<T>(tokio::sync::mpsc::Sender<T>);

#[verifier::external_type_specification]
#[verifier::external_body]
#[verifier::reject_recursive_types(T)]
pub struct ExReceiver<T>(tokio::sync::mpsc::Receiver<T>);

/// The send side of an attached consumer's live channel.
pub struct LiveChannel {
    pub tx: tokio::sync::mpsc::Sender<Message>,
}

/// How a send was disposed of: handed to the recipient's live stream, or
/// appended to its mailbox.
#[derive(Clone, Copy, Debug, PartialEq, Eq, Structural)]
pub enum Delivery {
    Streamed,
    Enqueued,
}

/// What the live channel did with a message: took it, or handed it back
/// (because the channel is full or its consumer is gone).
pub enum LiveSendOutcome {
    Delivered,
    Rejected(Message),
}

/// The sequence of message views held by a mailbox.
pub open spec fn msgs_view(v: Vec<Message>) -> Seq<MessageView> {
    Seq::new(v@.len(), |i: int| v@[i]@)
}

/// Relies on `tokio::sync::mpsc::channel`: a fresh bounded channel whose
/// send and receive halves are connected to each other and to nothing else.
#[verifier::external_body]
fn live_channel_pair(capacity: usize) -> (r: (LiveChannel, tokio::sync::mpsc::Receiver<Message>))
    requires
        capacity >= 1,
{
    let (tx, rx) = tokio::sync::mpsc::channel(capacity);
    (LiveChannel { tx }, rx)
}

/// Relies on `tokio::sync::mpsc::Sender::try_send`: it either accepts the
/// message or returns it inside the error (`TrySendError::Full` or
/// `TrySendError::Closed` both carry the message back), so a rejected
/// message is the very message that was offered.
#[verifier::external_body]
fn live_try_send(ch: &LiveChannel, m: Message) -> (r: LiveSendOutcome)
    ensures
        r matches LiveSendOutcome::Rejected(m2) ==> m2@ == m@,
{
    match ch.tx.try_send(m) {
        Ok(()) => LiveSendOutcome::Delivered,
        Err(tokio::sync::mpsc::error::TrySendError::Full(m2)) => LiveSendOutcome::Rejected(m2),
        Err(tokio::sync::mpsc::error::TrySendError::Closed(m2)) => LiveSendOutcome::Rejected(m2),
    }
}

/// Copies a message.
pub fn copy_message(m: &Message) -> (r: Message)
    ensures
        r@ == m@,
{
    Message {
        sender_identity_key: copy_bytes(&m.sender_identity_key),
        ephemeral_key: copy_bytes(&m.ephemeral_key),
        otk: match &m.otk {
            Some(k) => Some(copy_bytes(k)),
            None => None,
        },
        ciphertext: copy_bytes(&m.ciphertext),
    }
}

/// Copies a mailbox.
pub fn copy_messages(v: &Vec<Message>) -> (r: Vec<Message>)
    ensures
        msgs_view(r) == msgs_view(*v),
{
    let mut out: Vec<Message> = Vec::new();
    let mut i: usize = 0;
    proof {
        assert(msgs_view(out) =~= msgs_view(*v).take(0));
    }
    while i < v.len()
        invariant
            0 <= i <= v.len(),
            msgs_view(out) == msgs_view(*v).take(i as int),
        decreases v.len() - i,
    {
        let ghost prev_view = out@;
        let ghost prev_msgs = msgs_view(out);
        out.push(copy_message(&v[i]));
        proof {
            assert(prev_msgs.len() == prev_view.len());
            assert(prev_msgs.len() == i as int);
            assert(out@.len() == i + 1);
            assert forall|j: int| 0 <= j < i + 1 implies msgs_view(out)[j] == msgs_view(
                *v,
            ).take(i + 1)[j] by {
                assert(msgs_view(out)[j] == out@[j]@);
                if j < i {
                    assert(out@[j] == prev_view[j]);
                    assert(prev_msgs[j] == prev_view[j]@);
                    assert(prev_msgs[j] == msgs_view(*v).take(i as int)[j]);
                }
            }
            assert(msgs_view(out) =~= msgs_view(*v).take(i + 1));
        }
        i = i + 1;
    }
    proof {
        assert(msgs_view(*v).take(v@.len() as int) =~= msgs_view(*v));
    }
    out
}

/// The owner of mailboxes and live channels. It hands out no reference into
/// its maps: drained messages are owned, and channel halves are moved.
pub struct Router {
    mailboxes: StringHashMap<Vec<Message>>,
    live: StringHashMap<LiveChannel>,
}

impl Router {
    /// The recipient's mailbox, in arrival order; an absent mailbox is the
    /// empty one (mailboxes are created lazily).
    pub closed spec fn mailbox(self, id: Seq<char>) -> Seq<MessageView> {
        if self.mailboxes@.contains_key(id) {
            msgs_view(self.mailboxes@[id])
        } else {
            Seq::empty()
        }
    }

    /// A live channel is attached for the identity.
    pub closed spec fn attached(self, id: Seq<char>) -> bool {
        self.live@.contains_key(id)
    }

    /// Creates a router with no mailboxes and no live channels.
    pub fn new() -> (r: Self)
        ensures
            forall|id: Seq<char>| (#[trigger] r.mailbox(id)).len() == 0,
            forall|id: Seq<char>| !(#[trigger] r.attached(id)),
    {
        Router { mailboxes: StringHashMap::new(), live: StringHashMap::new() }
    }

    /// Appends a message to the recipient's mailbox, creating it lazily.
    fn enqueue(&mut self, recipient: &String, message: Message)
        ensures
            final(self).mailbox(recipient@) == old(self).mailbox(recipient@).push(message@),
            forall|id: Seq<char>|
                id != recipient@ ==> final(self).mailbox(id) == old(self).mailbox(id),
            forall|id: Seq<char>| final(self).attached(id) <==> old(self).attached(id),
    {
        let mut msgs: Vec<Message> = match self.mailboxes.get(recipient.as_str()) {
            Some(v) => copy_messages(v),
            None => Vec::new(),
        };
        proof {
            if old(self).mailboxes@.contains_key(recipient@) {
                assert(msgs_view(msgs) == old(self).mailbox(recipient@));
            } else {
                assert(msgs_view(msgs) =~= old(self).mailbox(recipient@));
            }
        }
        let ghost prev_view = msgs@;
        let ghost prev_msgs = msgs_view(msgs);
        msgs.push(message);
        proof {
            assert(prev_msgs.len() == prev_view.len());
            assert(msgs@.len() == prev_view.len() + 1);
            assert forall|j: int| 0 <= j < msgs@.len() implies msgs_view(msgs)[j] == old(
                self,
            ).mailbox(recipient@).push(message@)[j] by {
                assert(msgs_view(msgs)[j] == msgs@[j]@);
                if j < prev_view.len() {
                    assert(msgs@[j] == prev_view[j]);
                    assert(prev_msgs[j] == prev_view[j]@);
                }
            }
            assert(msgs_view(msgs) =~= old(self).mailbox(recipient@).push(message@));
        }
        self.mailboxes.insert(copy_string(recipient), msgs);
    }

    /// Routes one message. When a live channel is attached and takes the
    /// message, the message is streamed and no mailbox changes. When the
    /// attached channel rejects it (closed consumer, or full for too long),
    /// the channel is detached and the very same message is enqueued; with
    /// no channel attached it is enqueued directly. Either way the message
    /// the router accepted lands in exactly one place.
    pub fn send(&mut self, recipient: &String, message: Message) -> (r: Delivery)
        ensures
            r == Delivery::Streamed ==> old(self).attached(recipient@) && forall|id: Seq<char>|
                final(self).mailbox(id) == old(self).mailbox(id) && (final(self).attached(id)
                    <==> old(self).attached(id)),
            r == Delivery::Enqueued ==> final(self).mailbox(recipient@) == old(self).mailbox(
                recipient@,
            ).push(message@) && !final(self).attached(recipient@),
            r == Delivery::Enqueued ==> forall|id: Seq<char>|
                id != recipient@ ==> final(self).mailbox(id) == old(self).mailbox(id)
                    && (final(self).attached(id) <==> old(self).attached(id)),
    {
        if self.live.contains_key(recipient.as_str()) {
            let outcome = {
                let ch = self.live.get(recipient.as_str()).unwrap();
                live_try_send(ch, message)
            };
            match outcome {
                LiveSendOutcome::Delivered => Delivery::Streamed,
                LiveSendOutcome::Rejected(came_back) => {
                    self.live.remove(recipient.as_str());
                    self.enqueue(recipient, came_back);
                    Delivery::Enqueued
                },
            }
        } else {
            self.enqueue(recipient, message);
            Delivery::Enqueued
        }
    }

    /// Attaches a consumer: atomically replaces any prior live channel for
    /// the identity, drains the mailbox in FIFO order, and installs the
    /// fresh channel's send side. The drained messages are handed back in
    /// arrival order, to be emitted ahead of whatever arrives on the new
    /// channel; the channel's receive half is the live stream.
    pub fn retrieve(&mut self, identity: &String, capacity: usize) -> (r: (
        Vec<Message>,
        tokio::sync::mpsc::Receiver<Message>,
    ))
        requires
            capacity >= 1,
        ensures
            msgs_view(r.0) == old(self).mailbox(identity@),
            final(self).mailbox(identity@).len() == 0,
            final(self).attached(identity@),
            forall|id: Seq<char>|
                id != identity@ ==> final(self).mailbox(id) == old(self).mailbox(id)
                    && (final(self).attached(id) <==> old(self).attached(id)),
    {
        let drained: Vec<Message> = match self.mailboxes.get(identity.as_str()) {
            Some(v) => copy_messages(v),
            None => Vec::new(),
        };
        proof {
            if old(self).mailboxes@.contains_key(identity@) {
                assert(msgs_view(drained) == old(self).mailbox(identity@));
            } else {
                assert(msgs_view(drained) =~= old(self).mailbox(identity@));
            }
        }
        self.mailboxes.remove(identity.as_str());
        let (ch, rx) = live_channel_pair(capacity);
        self.live.insert(copy_string(identity), ch);
        (drained, rx)
    }
}

} // verus!
