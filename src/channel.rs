use vstd::prelude::*;
use std::collections::VecDeque;

verus! {

/// The queue after `v` was sent.
pub open spec fn after_send<T>(q: Seq<T>, v: T) -> Seq<T> {
    q.push(v)
}

/// What one receive yields from the queue `q`, and the queue after it: the
/// oldest value, or nothing when the queue is empty.
pub open spec fn after_recv<T>(q: Seq<T>) -> (Option<T>, Seq<T>) {
    if q.len() == 0 {
        (None, q)
    } else {
        (Some(q[0]), q.drop_first())
    }
}

/// The queue after the values of `s` were sent one by one, in order.
pub open spec fn after_sends<T>(q: Seq<T>, s: Seq<T>) -> Seq<T>
    decreases s.len(),
{
    if s.len() == 0 {
        q
    } else {
        after_sends(after_send(q, s[0]), s.drop_first())
    }
}

/// What `n` receives in a row yield from the queue `q` (the values that came,
/// in order), and the queue after them.
pub open spec fn after_recvs<T>(q: Seq<T>, n: nat) -> (Seq<T>, Seq<T>)
    decreases n,
{
    if n == 0 {
        (Seq::empty(), q)
    } else {
        let (v, rest) = after_recv(q);
        let (got, last) = after_recvs(rest, (n - 1) as nat);
        match v {
            Some(x) => (seq![x] + got, last),
            None => (got, last),
        }
    }
}

/// The conduit from the capture callback to the playback callback: a FIFO
/// queue without a bound, so that sending never waits. Each value is
/// received at most once, in the order in which it was sent.
pub struct ExchangeChannel<T> {
    queue: VecDeque<T>,
}

impl<T> View for ExchangeChannel<T> {
    type V = Seq<T>;

    /// The values sent and not yet received, oldest first.
    closed spec fn view(&self) -> Seq<T> {
        self.queue@
    }
}

impl<T> ExchangeChannel<T> {
    /// An empty channel.
    pub fn new() -> (r: ExchangeChannel<T>)
        ensures
            r@ == Seq::<T>::empty(),
    {
        ExchangeChannel { queue: VecDeque::new() }
    }

    /// Appends a value; never blocks and never refuses.
    pub fn send(&mut self, v: T)
        ensures
            final(self)@ == after_send(old(self)@, v),
    {
        self.queue.push_back(v);
    }

    /// Takes the oldest value, or `None` at once when the channel is empty.
    pub fn recv(&mut self) -> (r: Option<T>)
        ensures
            (r, final(self)@) == after_recv(old(self)@),
    {
        let r = self.queue.pop_front();
        proof {
            if old(self)@.len() > 0 {
                assert(final(self)@ =~= old(self)@.drop_first());
            }
        }
        r
    }

    /// The number of values waiting.
    pub fn len(&self) -> (r: usize)
        ensures
            r == self@.len(),
    {
        self.queue.len()
    }

    pub fn is_empty(&self) -> (r: bool)
        ensures
            r == (self@.len() == 0),
    {
        self.queue.len() == 0
    }
}

/// Sending values one by one appends them to the queue in their order.
pub proof fn lemma_after_sends<T>(q: Seq<T>, s: Seq<T>)
    ensures
        after_sends(q, s) == q + s,
    decreases s.len(),
{
    if s.len() == 0 {
        assert(q + s =~= q);
    } else {
        lemma_after_sends(after_send(q, s[0]), s.drop_first());
        assert(q.push(s[0]) + s.drop_first() =~= q + s);
    }
}

/// Receiving `n` times from a queue that holds at least `n` values yields its
/// first `n` values and leaves the rest.
pub proof fn lemma_after_recvs<T>(q: Seq<T>, n: nat)
    requires
        n <= q.len(),
    ensures
        after_recvs(q, n) == (q.take(n as int), q.skip(n as int)),
    decreases n,
{
    if n > 0 {
        lemma_after_recvs(q.drop_first(), (n - 1) as nat);
        assert(seq![q[0]] + q.drop_first().take(n - 1) =~= q.take(n as int));
        assert(q.drop_first().skip(n - 1) =~= q.skip(n as int));
    } else {
        assert(q.take(0) =~= Seq::<T>::empty());
        assert(q.skip(0) =~= q);
    }
}

/// Receiving `n` times from a queue that holds fewer than `n` values yields
/// all of them and leaves it empty: the receives beyond its end yield
/// nothing.
pub proof fn lemma_after_recvs_past_end<T>(q: Seq<T>, n: nat)
    requires
        n >= q.len(),
    ensures
        after_recvs(q, n) == (q, Seq::<T>::empty()),
    decreases n,
{
    if n > 0 {
        if q.len() == 0 {
            lemma_after_recvs_past_end(q, (n - 1) as nat);
            assert(q =~= Seq::<T>::empty());
        } else {
            lemma_after_recvs_past_end(q.drop_first(), (n - 1) as nat);
            assert(seq![q[0]] + q.drop_first() =~= q);
        }
    } else {
        assert(q =~= Seq::<T>::empty());
    }
}

/// Ordering: values s1..sN sent to an empty channel, then drained by N
/// receives with no send in between, come out as exactly s1..sN, in that
/// order, each once, and leave the channel empty.
pub proof fn lemma_fifo_order<T>(s: Seq<T>)
    ensures
        after_recvs(after_sends(Seq::<T>::empty(), s), s.len()) == (s, Seq::<T>::empty()),
{
    lemma_after_sends(Seq::<T>::empty(), s);
    assert(Seq::<T>::empty() + s =~= s);
    lemma_after_recvs(s, s.len());
    assert(s.take(s.len() as int) =~= s);
    assert(s.skip(s.len() as int) =~= Seq::<T>::empty());
}

} // verus!
