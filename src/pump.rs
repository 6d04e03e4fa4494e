use vstd::prelude::*;
use crate::style::{TextStyle, StyledText};
use crate::performer::{TerminalPerformer, flushed_runs};

verus! {

/// Time since the last delivered batch; a clock reading earlier than that
/// delivery counts as no time at all.
pub open spec fn elapsed(last_ms: u64, now_ms: u64) -> int {
    if now_ms >= last_ms {
        now_ms - last_ms
    } else {
        0
    }
}

/// Whether the flush window since the last delivered batch has run out.
pub open spec fn flush_due(last_ms: u64, now_ms: u64, delay_ms: u64) -> bool {
    elapsed(last_ms, now_ms) >= delay_ms
}

/// What a read at `now_ms` delivers, given the decoder's completed runs, its
/// buffered text and style: everything decoded so far, as one batch, once the
/// window has run out and there is something to send; otherwise nothing.
pub open spec fn batch_after_read(
    runs: Seq<(Seq<char>, TextStyle)>,
    text: Seq<char>,
    style: TextStyle,
    last_ms: u64,
    now_ms: u64,
    delay_ms: u64,
) -> Option<Seq<(Seq<char>, TextStyle)>> {
    if flush_due(last_ms, now_ms, delay_ms) && flushed_runs(runs, text, style).len() > 0 {
        Some(flushed_runs(runs, text, style))
    } else {
        None
    }
}

/// Reads that come while the flush window is open deliver nothing; the runs
/// they produced wait, and the first read after the window has run out
/// delivers them in one batch, in arrival order, ahead of the later runs.
/// `first` holds the completed runs after the first read, `second` those
/// that the decoder added after it.
pub proof fn lemma_batches_coalesce(
    first: Seq<(Seq<char>, TextStyle)>,
    text1: Seq<char>,
    second: Seq<(Seq<char>, TextStyle)>,
    text2: Seq<char>,
    style1: TextStyle,
    style2: TextStyle,
    last_ms: u64,
    t1: u64,
    t2: u64,
    delay_ms: u64,
)
    requires
        !flush_due(last_ms, t1, delay_ms),
        flush_due(last_ms, t2, delay_ms),
        first.len() + second.len() > 0,
    ensures
        batch_after_read(first, text1, style1, last_ms, t1, delay_ms) is None,
        batch_after_read(first + second, text2, style2, last_ms, t2, delay_ms) matches Some(b) && {
            &&& b.subrange(0, first.len() as int) == first
            &&& b.subrange(first.len() as int, (first.len() + second.len()) as int) == second
        },
{
    let all = first + second;
    let b = flushed_runs(all, text2, style2);
    assert(b.subrange(0, first.len() as int) =~= first);
    assert(b.subrange(first.len() as int, (first.len() + second.len()) as int) =~= second);
}

/// The moment at which the runs of a write that arrives at `t1` are due: at
/// once when the window since the last batch has run out, else when it does.
pub open spec fn due_time(last_ms: u64, t1: u64, delay_ms: u64) -> int {
    if flush_due(last_ms, t1, delay_ms) {
        t1 as int
    } else {
        last_ms + delay_ms
    }
}

/// Two writes that arrive more than a window apart are delivered as two
/// batches, in arrival order, when the pump decides at every moment a window
/// runs out (a read, or a tick when no read came). The first write's runs
/// are due at a moment `tick` that comes before the second write arrives,
/// and a decision then delivers exactly them; once the next window has run
/// out, a decision delivers exactly what the decoder then holds, which is
/// the second write's runs. `first` and `text1` are what the decoder holds
/// after the first write, `second` and `text2` what it holds after the second.
pub proof fn lemma_batches_separate(
    first: Seq<(Seq<char>, TextStyle)>,
    text1: Seq<char>,
    second: Seq<(Seq<char>, TextStyle)>,
    text2: Seq<char>,
    style1: TextStyle,
    style2: TextStyle,
    last_ms: u64,
    t1: u64,
    t2: u64,
    t3: u64,
    delay_ms: u64,
)
    requires
        last_ms <= t1 <= t2,
        t2 - t1 > delay_ms,
        flushed_runs(first, text1, style1).len() > 0,
        flushed_runs(second, text2, style2).len() > 0,
        t3 >= due_time(last_ms, t1, delay_ms) + delay_ms,
    ensures
        t1 <= due_time(last_ms, t1, delay_ms) < t2,
        batch_after_read(first, text1, style1, last_ms, due_time(last_ms, t1, delay_ms) as u64, delay_ms)
            == Some(flushed_runs(first, text1, style1)),
        batch_after_read(second, text2, style2, due_time(last_ms, t1, delay_ms) as u64, t3, delay_ms)
            == Some(flushed_runs(second, text2, style2)),
{
}

/// What one decision of the pump does, at clock reading `now_ms`, to the pump
/// and the decoder, and what it delivers. After end of output nothing
/// changes and nothing is delivered. Otherwise, once the window has run out,
/// everything decoded so far goes out as one batch, if there is any, the
/// decoder is emptied and, when a batch went out, the window starts again;
/// within the window nothing changes.
pub open spec fn pump_step(
    p0: OutputPump,
    p1: OutputPump,
    d0: TerminalPerformer,
    d1: TerminalPerformer,
    now_ms: u64,
    r: Option<Vec<StyledText>>,
) -> bool {
    let batch = batch_after_read(d0.runs(), d0.text(), d0.style(), p0.last_output_ms(), now_ms, p0.flush_delay_ms());
    let due = flush_due(p0.last_output_ms(), now_ms, p0.flush_delay_ms());
    if p0.is_finished() {
        &&& r is None
        &&& p1 == p0
        &&& d1 == d0
    } else {
        &&& (r matches Some(b) ==> batch == Some(runs_of(b@)))
        &&& (r is None ==> batch is None)
        &&& p1.last_output_ms() == (if r is Some { now_ms } else { p0.last_output_ms() })
        &&& p1.flush_delay_ms() == p0.flush_delay_ms()
        &&& !p1.is_finished()
        &&& (due ==> d1.runs() == Seq::<(Seq<char>, TextStyle)>::empty() && d1.text() == Seq::<char>::empty())
        &&& (!due ==> d1 == d0)
        &&& d1.style() == d0.style()
        &&& d1.pending_cr() == d0.pending_cr()
    }
}

/// The same law over the pump's own decisions: a decision inside the window
/// (`p0` to `p1`, at `t1`) delivers nothing and leaves the decoder as it is;
/// when the decoder then adds the runs `second` (`d1` to `d2`), the first
/// decision once the window has run out (`p1` to `p2`, at `t2`) delivers
/// the waiting runs and the new ones in one batch, in that order.
pub proof fn lemma_decisions_coalesce(
    p0: OutputPump,
    p1: OutputPump,
    p2: OutputPump,
    d0: TerminalPerformer,
    d1: TerminalPerformer,
    d2: TerminalPerformer,
    d3: TerminalPerformer,
    second: Seq<(Seq<char>, TextStyle)>,
    t1: u64,
    t2: u64,
    r1: Option<Vec<StyledText>>,
    r2: Option<Vec<StyledText>>,
)
    requires
        !p0.is_finished(),
        !flush_due(p0.last_output_ms(), t1, p0.flush_delay_ms()),
        flush_due(p0.last_output_ms(), t2, p0.flush_delay_ms()),
        pump_step(p0, p1, d0, d1, t1, r1),
        d2.runs() == d1.runs() + second,
        d0.runs().len() + second.len() > 0,
        pump_step(p1, p2, d2, d3, t2, r2),
    ensures
        r1 is None,
        d1 == d0,
        r2 matches Some(b) && {
            &&& runs_of(b@).subrange(0, d0.runs().len() as int) == d0.runs()
            &&& runs_of(b@).subrange(d0.runs().len() as int, (d0.runs().len() + second.len()) as int)
                == second
        },
{
    let all = flushed_runs(d2.runs(), d2.text(), d2.style());
    assert(all.subrange(0, d0.runs().len() as int) =~= d0.runs());
    assert(all.subrange(d0.runs().len() as int, (d0.runs().len() + second.len()) as int) =~= second);
}

/// The batching side of the output pump: it decides, after each read from
/// the terminal and at end of output, whether the runs decoded so far are
/// delivered as one batch.
pub struct OutputPump {
    last_output_ms: u64,
    flush_delay_ms: u64,
    finished: bool,
}

/// The views of a batch of runs.
pub open spec fn runs_of(v: Seq<StyledText>) -> Seq<(Seq<char>, TextStyle)> {
    v.map_values(|x: StyledText| x@)
}

impl OutputPump {
    /// The clock reading at the last delivered batch, or at the start.
    pub closed spec fn last_output_ms(&self) -> u64 {
        self.last_output_ms
    }

    /// The length of the flush window.
    pub closed spec fn flush_delay_ms(&self) -> u64 {
        self.flush_delay_ms
    }

    /// Whether end of output has been seen; nothing is delivered after that.
    pub closed spec fn is_finished(&self) -> bool {
        self.finished
    }

    /// A pump started at `start_ms` with a window of `flush_delay_ms`.
    pub fn new(start_ms: u64, flush_delay_ms: u64) -> (r: Self)
        ensures
            r.last_output_ms() == start_ms,
            r.flush_delay_ms() == flush_delay_ms,
            !r.is_finished(),
    {
        OutputPump { last_output_ms: start_ms, flush_delay_ms, finished: false }
    }

    /// Whether end of output has been seen.
    pub fn finished(&self) -> (r: bool)
        ensures
            r == self.is_finished(),
    {
        self.finished
    }

    /// The clock reading at which the current flush window runs out, or the
    /// largest reading when that lies beyond the clock's range.
    pub fn deadline_ms(&self) -> (r: u64)
        ensures
            r == if self.last_output_ms() + self.flush_delay_ms() <= u64::MAX {
                (self.last_output_ms() + self.flush_delay_ms()) as u64
            } else {
                u64::MAX
            },
    {
        if self.flush_delay_ms <= u64::MAX - self.last_output_ms {
            self.last_output_ms + self.flush_delay_ms
        } else {
            u64::MAX
        }
    }

    /// Called after the bytes of one read have gone through the decoder. Once
    /// the flush window has run out, the buffered text is flushed and all
    /// completed runs go out as one batch, if there are any, and the window
    /// starts again. Within the window nothing changes, so the runs wait and
    /// are delivered together with later ones.
    pub fn after_read(&mut self, performer: &mut TerminalPerformer, now_ms: u64) -> (r: Option<
        Vec<StyledText>,
    >)
        ensures
            pump_step(*old(self), *final(self), *old(performer), *final(performer), now_ms, r),
    {
        self.flush_if_due(performer, now_ms)
    }

    /// Called when no read has come before the flush window ran out, so that
    /// what waits is delivered on time even while the child stays silent. It
    /// decides as a read at the same time would.
    pub fn on_tick(&mut self, performer: &mut TerminalPerformer, now_ms: u64) -> (r: Option<
        Vec<StyledText>,
    >)
        ensures
            pump_step(*old(self), *final(self), *old(performer), *final(performer), now_ms, r),
    {
        self.flush_if_due(performer, now_ms)
    }

    /// Delivers everything decoded so far when the window has run out.
    fn flush_if_due(&mut self, performer: &mut TerminalPerformer, now_ms: u64) -> (r: Option<
        Vec<StyledText>,
    >)
        ensures
            pump_step(*old(self), *final(self), *old(performer), *final(performer), now_ms, r),
    {
        if self.finished {
            return None;
        }
        let elapsed: u64 = if now_ms >= self.last_output_ms {
            now_ms - self.last_output_ms
        } else {
            0
        };
        if elapsed >= self.flush_delay_ms {
            performer.flush_current_text();
            let batch = performer.take_output();
            if batch.len() > 0 {
                self.last_output_ms = now_ms;
                Some(batch)
            } else {
                None
            }
        } else {
            None
        }
    }

    /// Called once the child has closed its output: the buffered text is
    /// flushed and everything not yet delivered goes out as a final batch, if
    /// there is any. From then on the pump delivers nothing.
    pub fn at_eof(&mut self, performer: &mut TerminalPerformer) -> (r: Option<Vec<StyledText>>)
        ensures
            final(self).is_finished(),
            old(self).is_finished() ==> r is None && *final(performer) == *old(performer),
            !old(self).is_finished() ==> {
                let all = flushed_runs(old(performer).runs(), old(performer).text(), old(performer).style());
                &&& all.len() > 0 ==> (r matches Some(b) && runs_of(b@) == all)
                &&& all.len() == 0 ==> r is None
                &&& final(performer).runs() == Seq::<(Seq<char>, TextStyle)>::empty()
                &&& final(performer).text() == Seq::<char>::empty()
            },
    {
        if self.finished {
            return None;
        }
        self.finished = true;
        performer.flush_current_text();
        let batch = performer.take_output();
        if batch.len() > 0 {
            Some(batch)
        } else {
            None
        }
    }
}

} // verus!
