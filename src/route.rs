use vstd::prelude::*;
use crate::channel::{ExchangeChannel, after_recvs, lemma_after_recvs, lemma_after_recvs_past_end};
use crate::wav::{WavSink, SinkError};

verus! {

/// What the playback side takes from a queue `q` to fill `n` slots: the
/// queued values in order, then `silence` for every slot that finds the
/// queue empty.
pub open spec fn rendered<T>(q: Seq<T>, n: nat, silence: T) -> Seq<T> {
    Seq::new(n, |i: int| if i < q.len() { q[i] } else { silence })
}

/// How many queued values `n` slots consume.
pub open spec fn consumed<T>(q: Seq<T>, n: nat) -> nat {
    if n < q.len() {
        n
    } else {
        q.len()
    }
}

/// How many leading samples of a buffer of `n` the archive takes, given
/// what `WavSink::accept` answered.
pub open spec fn archived_of(r: Result<usize, SinkError>) -> nat {
    match r {
        Ok(k) => k as nat,
        Err(_) => 0,
    }
}

/// The capture callback's router: it owns the WAV sink while the capture
/// stream runs, admits each delivered buffer to the archive, and forwards a
/// converted copy of every sample to the exchange channel.
pub struct CaptureRouter {
    sink: WavSink,
}

impl CaptureRouter {
    pub closed spec fn sink_spec(&self) -> WavSink {
        self.sink
    }

    pub open spec fn wf(&self) -> bool {
        self.sink_spec().wf()
    }

    /// A router that archives into `sink`.
    pub fn new(sink: WavSink) -> (r: CaptureRouter)
        requires
            sink.wf(),
        ensures
            r.wf(),
            r.sink_spec() == sink,
    {
        CaptureRouter { sink }
    }

    /// Hands the sink back once the capture stream has stopped.
    pub fn into_sink(self) -> (r: WavSink)
        requires
            self.wf(),
        ensures
            r == self.sink_spec(),
            r.wf(),
    {
        self.sink
    }

    /// Routes one delivered buffer. Every sample, in buffer order, is
    /// converted by `convert` and sent on `chan`; the result is the number of
    /// leading samples of `input` that the archive took (all of them until
    /// the data chunk is full; none after finalize), which the caller then
    /// writes to the file in their native form.
    pub fn route<N: Copy, I, F: Fn(N) -> I>(
        &mut self,
        input: &[N],
        convert: F,
        chan: &mut ExchangeChannel<I>,
    ) -> (archived: usize)
        requires
            old(self).wf(),
            forall|x: N| convert.requires((x,)),
        ensures
            final(self).wf(),
            archived <= input@.len(),
            final(self).sink_spec().spec_of() == old(self).sink_spec().spec_of(),
            final(self).sink_spec().is_finalized_spec() == old(self).sink_spec().is_finalized_spec(),
            archived == archived_of(old(self).sink_spec().accept_spec(input@.len()).0),
            final(self).sink_spec().samples_spec() == old(self).sink_spec().accept_spec(
                input@.len(),
            ).1,
            final(chan)@.len() == old(chan)@.len() + input@.len(),
            final(chan)@.take(old(chan)@.len() as int) == old(chan)@,
            forall|i: int|
                0 <= i < input@.len() ==> convert.ensures(
                    (input@[i],),
                    final(chan)@[old(chan)@.len() + i],
                ),
    {
        let n = input.len();
        let mut i: usize = 0;
        while i < n
            invariant
                n == input@.len(),
                0 <= i <= n,
                forall|x: N| convert.requires((x,)),
                chan@.len() == old(chan)@.len() + i,
                chan@.take(old(chan)@.len() as int) == old(chan)@,
                forall|j: int|
                    0 <= j < i ==> convert.ensures((input@[j],), chan@[old(chan)@.len() + j]),
            decreases n - i,
        {
            let v = convert(input[i]);
            chan.send(v);
            proof {
                assert(chan@.take(old(chan)@.len() as int) =~= old(chan)@);
            }
            i = i + 1;
        }
        match self.sink.accept(n) {
            Ok(k) => k,
            Err(_) => 0,
        }
    }
}

/// The playback callback's renderer: fills `slots` output slots, one
/// receive per slot, never waiting. A slot that finds the channel empty gets
/// `silence`; each value is passed through `convert` into the output format.
/// The channel loses exactly the values that were played.
pub fn render<I: Copy, O, F: Fn(I) -> O>(
    chan: &mut ExchangeChannel<I>,
    slots: usize,
    silence: I,
    convert: F,
) -> (out: Vec<O>)
    requires
        forall|x: I| convert.requires((x,)),
    ensures
        out@.len() == slots,
        forall|i: int|
            0 <= i < slots ==> convert.ensures(
                (rendered(old(chan)@, slots as nat, silence)[i],),
                out@[i],
            ),
        final(chan)@ == old(chan)@.skip(consumed(old(chan)@, slots as nat) as int),
        after_recvs(old(chan)@, slots as nat) == (
            old(chan)@.take(consumed(old(chan)@, slots as nat) as int),
            final(chan)@,
        ),
{
    let ghost q = chan@;
    let mut out: Vec<O> = Vec::new();
    let mut i: usize = 0;
    while i < slots
        invariant
            0 <= i <= slots,
            forall|x: I| convert.requires((x,)),
            out@.len() == i,
            chan@ == q.skip(consumed(q, i as nat) as int),
            forall|j: int|
                0 <= j < i ==> convert.ensures((rendered(q, slots as nat, silence)[j],), out@[j]),
        decreases slots - i,
    {
        let v = match chan.recv() {
            Some(x) => x,
            None => silence,
        };
        proof {
            assert(v == rendered(q, slots as nat, silence)[i as int]);
            if (i as int) < q.len() {
                assert(chan@ =~= q.skip(consumed(q, (i + 1) as nat) as int));
            } else {
                assert(chan@ =~= q.skip(consumed(q, (i + 1) as nat) as int));
            }
        }
        let o = convert(v);
        out.push(o);
        i = i + 1;
    }
    proof {
        if (slots as nat) <= q.len() {
            lemma_after_recvs(q, slots as nat);
        } else {
            lemma_after_recvs_past_end(q, slots as nat);
            assert(q.take(q.len() as int) =~= q);
            assert(q.skip(q.len() as int) =~= Seq::<I>::empty());
        }
    }
    out
}

/// Underrun: once the channel has run dry, every further slot is silence;
/// an empty channel yields `n` silent slots.
pub proof fn lemma_underrun_silence<T>(q: Seq<T>, n: nat, silence: T)
    ensures
        forall|i: int| q.len() <= i < n ==> rendered(q, n, silence)[i] == silence,
        q.len() == 0 ==> rendered(q, n, silence) == Seq::new(n, |i: int| silence),
{
    if q.len() == 0 {
        assert(rendered(q, n, silence) =~= Seq::new(n, |i: int| silence));
    }
}

} // verus!
