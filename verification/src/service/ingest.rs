//! The inbound side of the loop: what a chat item says, which messages are
//! let in, and the bounded queue in which they wait for their turn.
//!
//! The producer never waits for the consumer. A message that opens with the
//! command prefix is not for the avatar and is left out; a message that
//! arrives while the queue is full is dropped, and the messages already
//! waiting keep their places.
//!
//! The queue is a plain value with one holder at a time. Where the producer
//! and the consumer run side by side, the caller shares it under a lock and
//! wakes the consumer itself.

use std::collections::VecDeque;
use vstd::prelude::*;
use vstd::string::StringExecFns;

verus! {

/// The character that marks a message as a command to some other listener.
pub const COMMAND_PREFIX: char = '!';

/// The number of messages that may wait by default.
pub const QUEUE_CAPACITY: usize = 32;

/// The time between two polls of the chat source, in seconds.
pub const POLL_INTERVAL_SECS: u64 = 3;

/// Whether `text` opens with the command prefix.
pub open spec fn is_command(text: Seq<char>) -> bool {
    text.len() > 0 && text[0] == COMMAND_PREFIX
}

/// One piece of a chat item: a run of text, or anything else (an emoji, a
/// sticker).
#[derive(Debug)]
pub enum ChatPiece {
    Text(String),
    Other,
}

/// The mathematical content of a [`ChatPiece`].
pub enum ChatPieceView {
    Text(Seq<char>),
    Other,
}

impl View for ChatPiece {
    type V = ChatPieceView;

    open spec fn view(&self) -> ChatPieceView {
        match self {
            ChatPiece::Text(text) => ChatPieceView::Text(text@),
            ChatPiece::Other => ChatPieceView::Other,
        }
    }
}

impl DeepView for ChatPiece {
    type V = ChatPieceView;

    open spec fn deep_view(&self) -> ChatPieceView {
        self@
    }
}

/// The text pieces of a chat item joined in order; other pieces add nothing.
pub open spec fn text_of(pieces: Seq<ChatPieceView>) -> Seq<char>
    decreases pieces.len(),
{
    if pieces.len() == 0 {
        Seq::empty()
    } else {
        text_of(pieces.drop_last()) + match pieces.last() {
            ChatPieceView::Text(text) => text,
            ChatPieceView::Other => Seq::empty(),
        }
    }
}

/// Joins the text pieces of a chat item.
pub fn plain_text(pieces: &Vec<ChatPiece>) -> (text: String)
    ensures
        text@ == text_of(pieces.deep_view()),
{
    let ghost all = pieces.deep_view();
    let mut text = String::new();
    let n = pieces.len();
    let mut i: usize = 0;
    assert(all.take(0) =~= Seq::<ChatPieceView>::empty());
    while i < n
        invariant
            i <= n,
            n == pieces@.len(),
            all == pieces.deep_view(),
            text@ == text_of(all.take(i as int)),
        decreases n - i,
    {
        proof {
            assert(all.take(i + 1).drop_last() =~= all.take(i as int));
            assert(all.take(i + 1).last() == pieces[i as int]@);
        }
        match &pieces[i] {
            ChatPiece::Text(piece) => {
                text.append(piece.as_str());
            },
            ChatPiece::Other => {
                assert(text@ + Seq::<char>::empty() =~= text@);
            },
        }
        i += 1;
    }
    assert(all.take(n as int) =~= all);
    text
}

/// Whether a chat item is handed on: its author and its text must both be
/// present.
pub fn forwards(author: &str, text: &str) -> (b: bool)
    ensures
        b == (author@.len() > 0 && text@.len() > 0),
{
    !author.is_empty() && !text.is_empty()
}

/// Whether `text` opens with the command prefix.
pub fn starts_command(text: &str) -> (b: bool)
    ensures
        b == is_command(text@),
{
    crate::text::starts_with_char(text, COMMAND_PREFIX)
}

/// The messages that wait after `text` was offered while `waiting` wait and
/// `capacity` may wait: `text` goes to the end where there is room, and is
/// dropped where there is none.
pub open spec fn offered(waiting: Seq<Seq<char>>, capacity: nat, text: Seq<char>) -> Seq<
    Seq<char>,
> {
    if waiting.len() < capacity {
        waiting.push(text)
    } else {
        waiting
    }
}

/// The messages that wait after all of `texts` were offered, first to last,
/// and none was taken meanwhile.
pub open spec fn offered_all(waiting: Seq<Seq<char>>, capacity: nat, texts: Seq<Seq<char>>) -> Seq<
    Seq<char>,
>
    decreases texts.len(),
{
    if texts.len() == 0 {
        waiting
    } else {
        offered(offered_all(waiting, capacity, texts.drop_last()), capacity, texts.last())
    }
}

/// The chat messages that wait for their turn, oldest first.
pub struct PendingInputQueue {
    waiting: VecDeque<String>,
    capacity: usize,
}

impl View for PendingInputQueue {
    type V = Seq<Seq<char>>;

    closed spec fn view(&self) -> Seq<Seq<char>> {
        self.waiting.deep_view()
    }
}

impl PendingInputQueue {
    /// The number of messages that may wait.
    pub closed spec fn limit(&self) -> nat {
        self.capacity as nat
    }

    /// An empty queue in which `capacity` messages may wait.
    pub fn new(capacity: usize) -> (q: Self)
        ensures
            q@ == Seq::<Seq<char>>::empty(),
            q.limit() == capacity,
    {
        let q = PendingInputQueue { waiting: VecDeque::new(), capacity };
        assert(q@ =~= Seq::<Seq<char>>::empty());
        q
    }

    /// The number of messages that may wait.
    pub fn capacity(&self) -> (n: usize)
        ensures
            n == self.limit(),
    {
        self.capacity
    }

    /// The number of messages that wait.
    pub fn len(&self) -> (n: usize)
        ensures
            n == self@.len(),
    {
        self.waiting.len()
    }

    /// Whether no message waits.
    pub fn is_empty(&self) -> (b: bool)
        ensures
            b == (self@.len() == 0),
    {
        self.waiting.len() == 0
    }

    /// Offers a message without ever waiting. It goes to the end of the queue
    /// where there is room; where the queue is full it is dropped, and the
    /// messages that wait keep their places. Returns whether it was taken in.
    pub fn offer(&mut self, text: String) -> (queued: bool)
        ensures
            final(self).limit() == old(self).limit(),
            queued == (old(self)@.len() < old(self).limit()),
            final(self)@ == offered(old(self)@, old(self).limit(), text@),
    {
        if self.waiting.len() >= self.capacity {
            false
        } else {
            self.waiting.push_back(text);
            assert(final(self)@ =~= old(self)@.push(text@));
            true
        }
    }

    /// Takes the message that has waited longest, if any.
    pub fn take(&mut self) -> (next: Option<String>)
        ensures
            final(self).limit() == old(self).limit(),
            old(self)@.len() == 0 ==> next is None && final(self)@ == old(self)@,
            old(self)@.len() > 0 ==> (next matches Some(text) && text@ == old(self)@[0]
                && final(self)@ == old(self)@.drop_first()),
    {
        let next = self.waiting.pop_front();
        proof {
            if old(self)@.len() > 0 {
                assert(final(self)@ =~= old(self)@.drop_first());
            }
        }
        next
    }
}

/// What became of a message that came in from the chat.
#[derive(Debug, Clone, Copy, PartialEq, Eq, Structural)]
pub enum Intake {
    /// It waits at the end of the queue.
    Queued,
    /// It was dropped: the queue was full.
    Dropped,
    /// It was left out: it opens with the command prefix.
    Filtered,
}

/// What becomes of `text` when it comes in while `waiting` wait and
/// `capacity` may wait.
pub open spec fn intake_of(waiting: Seq<Seq<char>>, capacity: nat, text: Seq<char>) -> Intake {
    if is_command(text) {
        Intake::Filtered
    } else if waiting.len() < capacity {
        Intake::Queued
    } else {
        Intake::Dropped
    }
}

/// The messages that wait after `text` came in: a command never enters the
/// queue, any other message is offered to it.
pub open spec fn taken_in(waiting: Seq<Seq<char>>, capacity: nat, text: Seq<char>) -> Seq<
    Seq<char>,
> {
    if is_command(text) {
        waiting
    } else {
        offered(waiting, capacity, text)
    }
}

/// Lets a message from the chat into the queue, unless it is a command.
pub fn take_in(queue: &mut PendingInputQueue, text: String) -> (outcome: Intake)
    ensures
        final(queue).limit() == old(queue).limit(),
        outcome == intake_of(old(queue)@, old(queue).limit(), text@),
        final(queue)@ == taken_in(old(queue)@, old(queue).limit(), text@),
{
    if starts_command(text.as_str()) {
        Intake::Filtered
    } else if queue.offer(text) {
        Intake::Queued
    } else {
        Intake::Dropped
    }
}

/// Offering messages to a queue that is not over its capacity lets in as
/// many as there is room for, in their order, behind those that wait
/// already; the rest is dropped.
pub proof fn lemma_offered_all(waiting: Seq<Seq<char>>, capacity: nat, texts: Seq<Seq<char>>)
    requires
        waiting.len() <= capacity,
    ensures
        offered_all(waiting, capacity, texts) == waiting + texts.take(
            if texts.len() <= capacity - waiting.len() {
                texts.len() as int
            } else {
                capacity - waiting.len()
            },
        ),
    decreases texts.len(),
{
    let room = capacity - waiting.len();
    if texts.len() == 0 {
        assert(waiting + texts.take(0) =~= waiting);
    } else {
        let earlier = texts.drop_last();
        lemma_offered_all(waiting, capacity, earlier);
        let before = offered_all(waiting, capacity, earlier);
        if earlier.len() < room {
            assert(earlier.take(earlier.len() as int) =~= earlier);
            assert(before.push(texts.last()) =~= waiting + texts.take(texts.len() as int));
        } else {
            assert(earlier.take(room) =~= texts.take(room));
        }
    }
}

/// Offering one message more than an empty queue has room for, while nothing
/// is taken, keeps exactly as many as there is room for: all but the newest,
/// oldest first.
pub proof fn lemma_overflow_drops_newest(capacity: nat, texts: Seq<Seq<char>>)
    requires
        texts.len() == capacity + 1,
    ensures
        offered_all(Seq::empty(), capacity, texts) == texts.drop_last(),
        offered_all(Seq::empty(), capacity, texts).len() == capacity,
{
    lemma_offered_all(Seq::empty(), capacity, texts);
    assert(Seq::<Seq<char>>::empty() + texts.take(capacity as int) =~= texts.drop_last());
}

/// The queue never holds more than its capacity: an offer to a queue within
/// its capacity leaves it within its capacity.
pub proof fn lemma_offer_keeps_capacity(waiting: Seq<Seq<char>>, capacity: nat, text: Seq<char>)
    requires
        waiting.len() <= capacity,
    ensures
        offered(waiting, capacity, text).len() <= capacity,
        taken_in(waiting, capacity, text).len() <= capacity,
{
}

} // verus!
