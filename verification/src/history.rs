//! The bounded log of conversation turns.
//!
//! The log keeps the newest turns only. A history made to retain `n` turn
//! pairs holds at most `2 * n` entries: each append pushes the new turn to the
//! end and at once drops, oldest first, whatever exceeds that bound.

use crate::model::conversation::{Message, MessageView};
use vstd::prelude::*;

verus! {

/// The last `n` entries of `s`, in their order; all of `s` where it has no
/// more than `n`.
pub open spec fn keep_last<T>(s: Seq<T>, n: nat) -> Seq<T> {
    if s.len() <= n {
        s
    } else {
        s.subrange(s.len() - n, s.len() as int)
    }
}

/// Whether `tail` is what remains of `whole` after dropping some entries from
/// its front.
pub open spec fn is_suffix<T>(tail: Seq<T>, whole: Seq<T>) -> bool {
    tail.len() <= whole.len() && tail == whole.subrange(whole.len() - tail.len(), whole.len() as int)
}

/// The content of a history that retains `limit` turn pairs after `turn` is
/// appended to `log`.
pub open spec fn appended(log: Seq<MessageView>, limit: nat, turn: MessageView) -> Seq<
    MessageView,
> {
    keep_last(log.push(turn), 2 * limit)
}

/// The content of a history that retains `limit` turn pairs after all of
/// `turns` are appended to `log`, first to last.
pub open spec fn appended_all(log: Seq<MessageView>, limit: nat, turns: Seq<MessageView>) -> Seq<
    MessageView,
>
    decreases turns.len(),
{
    if turns.len() == 0 {
        log
    } else {
        appended(appended_all(log, limit, turns.drop_last()), limit, turns.last())
    }
}

/// What a window of `max_turns` turn pairs shows of `log`.
pub open spec fn window_of(log: Seq<MessageView>, max_turns: nat) -> Seq<MessageView> {
    keep_last(log, 2 * max_turns)
}

/// The most recent turns of a conversation.
pub struct History {
    turns: Vec<Message>,
    max_turns_retained: usize,
}

impl View for History {
    type V = Seq<MessageView>;

    closed spec fn view(&self) -> Seq<MessageView> {
        self.turns.deep_view()
    }
}

/// Twice `n`, or the largest `usize` where that does not fit.
fn doubled(n: usize) -> (d: usize)
    ensures
        d == if 2 * n <= usize::MAX { 2 * n } else { usize::MAX as int },
{
    if n > usize::MAX / 2 {
        usize::MAX
    } else {
        2 * n
    }
}

/// Copies the last `min(len, 2 * max_turns)` entries of `turns`.
fn tail_of(turns: &Vec<Message>, max_turns: usize) -> (tail: Vec<Message>)
    ensures
        tail@ == keep_last(turns@, 2 * max_turns as nat),
        tail.deep_view() == keep_last(turns.deep_view(), 2 * max_turns as nat),
{
    let cap = doubled(max_turns);
    let len = turns.len();
    let start: usize = if len > cap { len - cap } else { 0 };
    let mut tail: Vec<Message> = Vec::new();
    let mut i: usize = start;
    while i < len
        invariant
            start <= i <= len,
            len == turns@.len(),
            tail@ == turns@.subrange(start as int, i as int),
        decreases len - i,
    {
        tail.push(turns[i].clone());
        i += 1;
    }
    assert(turns@.subrange(0, len as int) =~= turns@);
    assert(tail.deep_view() =~= keep_last(turns.deep_view(), 2 * max_turns as nat));
    tail
}

impl History {
    /// The number of turn pairs the history retains.
    pub closed spec fn limit(&self) -> nat {
        self.max_turns_retained as nat
    }

    /// An empty history that retains `max_turns_retained` turn pairs.
    pub fn new(max_turns_retained: usize) -> (h: Self)
        ensures
            h@ == Seq::<MessageView>::empty(),
            h.limit() == max_turns_retained,
    {
        let h = History { turns: Vec::new(), max_turns_retained };
        assert(h@ =~= Seq::<MessageView>::empty());
        h
    }

    /// The number of turn pairs the history retains.
    pub fn max_turns_retained(&self) -> (n: usize)
        ensures
            n == self.limit(),
    {
        self.max_turns_retained
    }

    /// The number of turns held.
    pub fn len(&self) -> (n: usize)
        ensures
            n == self@.len(),
    {
        self.turns.len()
    }

    /// Whether no turn is held.
    pub fn is_empty(&self) -> (b: bool)
        ensures
            b == (self@.len() == 0),
    {
        self.turns.len() == 0
    }

    /// Pushes `turn` to the end, then drops from the front what exceeds twice
    /// the retained number of turn pairs.
    pub fn append(&mut self, turn: Message)
        ensures
            final(self).limit() == old(self).limit(),
            final(self)@ == appended(old(self)@, old(self).limit(), turn@),
            final(self)@.len() <= 2 * final(self).limit(),
    {
        self.turns.push(turn);
        let cap = doubled(self.max_turns_retained);
        let len = self.turns.len();
        if len > cap {
            let kept = self.turns.split_off(len - cap);
            self.turns = kept;
        }
        assert(final(self)@ =~= appended(old(self)@, old(self).limit(), turn@));
    }

    /// The last `min(len, 2 * max_turns)` turns in their order. The history
    /// itself is left as it is.
    pub fn window(&self, max_turns: usize) -> (w: Vec<Message>)
        ensures
            w.deep_view() == window_of(self@, max_turns as nat),
            w@.len() <= 2 * max_turns,
            is_suffix(w.deep_view(), self@),
    {
        proof {
            lemma_window_is_bounded_suffix(self@, max_turns as nat);
        }
        tail_of(&self.turns, max_turns)
    }

    /// All turns held, oldest first.
    pub fn turns(&self) -> (all: &Vec<Message>)
        ensures
            all.deep_view() == self@,
    {
        &self.turns
    }
}

/// A window is never longer than twice the number of turn pairs asked for, and
/// is a suffix of the log it is taken from.
pub proof fn lemma_window_is_bounded_suffix(log: Seq<MessageView>, max_turns: nat)
    ensures
        window_of(log, max_turns).len() <= 2 * max_turns,
        window_of(log, max_turns).len() <= log.len(),
        is_suffix(window_of(log, max_turns), log),
{
    assert(log.subrange(0, log.len() as int) == log);
}

/// A suffix of a suffix is a suffix.
pub proof fn lemma_suffix_transitive<T>(a: Seq<T>, b: Seq<T>, c: Seq<T>)
    requires
        is_suffix(a, b),
        is_suffix(b, c),
    ensures
        is_suffix(a, c),
{
    assert(a =~= c.subrange(c.len() - a.len(), c.len() as int));
}

/// Whatever was appended to an empty history, it holds no more than twice its
/// limit, and what it holds is a suffix of the appended turns in their order.
pub proof fn lemma_history_is_bounded_suffix(limit: nat, turns: Seq<MessageView>)
    ensures
        appended_all(Seq::empty(), limit, turns).len() <= 2 * limit,
        is_suffix(appended_all(Seq::empty(), limit, turns), turns),
    decreases turns.len(),
{
    let log = appended_all(Seq::empty(), limit, turns);
    if turns.len() == 0 {
        assert(log =~= turns.subrange(0, 0));
    } else {
        let before = appended_all(Seq::empty(), limit, turns.drop_last());
        lemma_history_is_bounded_suffix(limit, turns.drop_last());
        let pushed = before.push(turns.last());
        assert(is_suffix(pushed, turns)) by {
            assert(pushed =~= turns.subrange(turns.len() - pushed.len(), turns.len() as int));
        }
        lemma_window_is_bounded_suffix(pushed, limit);
        lemma_suffix_transitive(log, pushed, turns);
    }
}

/// Every window of a history is a suffix of the turns that were appended to
/// it, in the order of their appending, and no longer than twice the number
/// of turn pairs asked for.
pub proof fn lemma_window_of_history(limit: nat, turns: Seq<MessageView>, max_turns: nat)
    ensures
        window_of(appended_all(Seq::empty(), limit, turns), max_turns).len() <= 2 * max_turns,
        is_suffix(window_of(appended_all(Seq::empty(), limit, turns), max_turns), turns),
{
    let log = appended_all(Seq::empty(), limit, turns);
    lemma_history_is_bounded_suffix(limit, turns);
    lemma_window_is_bounded_suffix(log, max_turns);
    lemma_suffix_transitive(window_of(log, max_turns), log, turns);
}

} // verus!
