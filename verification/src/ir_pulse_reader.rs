//! Edge timing and frame assembly for the pulse decoder.

use vstd::prelude::*;

use crate::pulse::classify;
use crate::pulse::Pulse;
use crate::signal::all_payload;
use crate::signal::is_payload;
use crate::signal::spec_from_pulse_seq;
use crate::signal::Signal;

verus! {

/// How one classified pulse changes the frame buffer: a pulse that is
/// not payload (`Start` or `Unrecognized`) clears the buffer entirely,
/// the payload pulse that completes a frame of 32 drains it, and any
/// other payload pulse is appended.
pub open spec fn step_buffer(buf: Seq<Pulse>, p: Pulse) -> Seq<Pulse> {
    if !is_payload(p) {
        Seq::empty()
    } else if buf.len() + 1 == 32 {
        Seq::empty()
    } else {
        buf.push(p)
    }
}

/// The signal one classified pulse yields: only the payload pulse that
/// completes a frame of 32 yields one, namely the completed frame
/// matched against the button table.
pub open spec fn step_signal(buf: Seq<Pulse>, p: Pulse) -> Option<Signal> {
    if is_payload(p) && buf.len() + 1 == 32 {
        Some(spec_from_pulse_seq(buf.push(p)))
    } else {
        None
    }
}

/// A struct that allows to detect IR pulses and signals from
/// periodically polled states of an IR sensor line, calculating pulse
/// lengths and decoding pulse sequences into signals.  The polling
/// itself is the caller's: each sample is handed in as a level and a
/// timestamp.
pub struct IRPulseReader {
    pulse_seq: Vec<Pulse>,
    prev_val: u8,
    pulse_start: u64,
}

impl IRPulseReader {
    /// The pulses gathered so far for the frame in progress.
    pub closed spec fn buffer(self) -> Seq<Pulse> {
        self.pulse_seq@
    }

    /// The line level of the last processed sample.
    pub closed spec fn prev_level(self) -> u8 {
        self.prev_val
    }

    /// The time, in microseconds, at which the line last changed level
    /// (at construction: the time the reader was created).
    pub closed spec fn last_edge(self) -> u64 {
        self.pulse_start
    }

    /// Well-formed decoder state: the frame in progress is never full
    /// and holds payload pulses only.
    pub open spec fn wf(self) -> bool {
        self.buffer().len() < 32 && all_payload(self.buffer())
    }

    /// A fresh reader: empty frame buffer, line assumed low, with `now`
    /// (in microseconds) as the start of the first pulse measurement.
    pub fn new(now: u64) -> (r: IRPulseReader)
        ensures
            r.wf(),
            r.buffer() == Seq::<Pulse>::empty(),
            r.prev_level() == 0,
            r.last_edge() == now,
    {
        IRPulseReader { pulse_seq: Vec::new(), prev_val: 0, pulse_start: now }
    }

    /// Consumes one classified pulse: appends it to the frame in
    /// progress and applies the framing rules, yielding the decoded
    /// signal when the pulse completed a frame.
    pub fn push_pulse(&mut self, pulse: Pulse) -> (r: Option<Signal>)
        requires
            old(self).wf(),
        ensures
            final(self).wf(),
            final(self).buffer() == step_buffer(old(self).buffer(), pulse),
            r == step_signal(old(self).buffer(), pulse),
            final(self).prev_level() == old(self).prev_level(),
            final(self).last_edge() == old(self).last_edge(),
    {
        self.pulse_seq.push(pulse);
        proof {
            assert(old(self).buffer().push(pulse).drop_last() =~= old(self).buffer());
        }
        self.handle_pulse()
    }

    /// This function handles the draining of the buffer.  The buffer of
    /// pulses is drained whenever an unrecognized pulse is received
    /// (signal broken) or the explicit start of a signal is announced
    /// with the start pulse.  Once 32 short/long pulses have been
    /// gathered, the pulse sequence is decoded into a signal, which is
    /// returned.
    fn handle_pulse(&mut self) -> (r: Option<Signal>)
        requires
            1 <= old(self).buffer().len() <= 32,
            all_payload(old(self).buffer().drop_last()),
        ensures
            final(self).wf(),
            final(self).buffer() == step_buffer(
                old(self).buffer().drop_last(),
                old(self).buffer().last(),
            ),
            r == step_signal(old(self).buffer().drop_last(), old(self).buffer().last()),
            final(self).prev_level() == old(self).prev_level(),
            final(self).last_edge() == old(self).last_edge(),
    {
        let ghost buf0 = self.pulse_seq@;
        let last_pulse = self.pulse_seq[self.pulse_seq.len() - 1];
        if last_pulse == Pulse::Start || last_pulse == Pulse::Unrecognized {
            self.pulse_seq.clear();
        }
        if self.pulse_seq.len() == 32 {
            proof {
                assert(all_payload(buf0)) by {
                    assert(forall|i: int|
                        0 <= i < buf0.len() - 1 ==> #[trigger] buf0[i] == buf0.drop_last()[i]);
                }
                assert(buf0.drop_last().push(buf0.last()) =~= buf0);
            }
            let signal = Signal::from_pulse_seq(self.pulse_seq.as_slice());
            self.pulse_seq.clear();
            return Some(signal);
        }
        proof {
            if is_payload(buf0.last()) && buf0.len() != 32 {
                assert(self.pulse_seq@ =~= buf0.drop_last().push(buf0.last()));
            }
        }
        None
    }

    /// Processes one sample of the line: `value` is the level that was
    /// read and `now` the time of the sample, in microseconds.  On a
    /// level change the just-completed pulse is measured; if that pulse
    /// was a high one it is classified and fed to the frame assembler,
    /// and the signal of the frame it completed, if any, is returned.
    /// The edge state is updated on every level change, whether or not
    /// the pulse was classified.
    pub fn observe(&mut self, value: u8, now: u64) -> (r: Option<Signal>)
        requires
            old(self).wf(),
            now >= old(self).last_edge(),
        ensures
            final(self).wf(),
            value == old(self).prev_level() ==> *final(self) == *old(self) && r is None,
            value != old(self).prev_level() ==> final(self).prev_level() == value
                && final(self).last_edge() == now,
            value != old(self).prev_level() && old(self).prev_level() == 1
                ==> final(self).buffer() == step_buffer(
                    old(self).buffer(),
                    classify(now - old(self).last_edge()),
                ) && r == step_signal(old(self).buffer(), classify(now - old(self).last_edge())),
            value != old(self).prev_level() && old(self).prev_level() != 1
                ==> final(self).buffer() == old(self).buffer() && r is None,
    {
        let mut signal: Option<Signal> = None;
        if value != self.prev_val {
            let diff = now - self.pulse_start;
            if self.prev_val == 1 {
                let p = Pulse::from_duration(diff);
                signal = self.push_pulse(p);
            }
            self.prev_val = value;
            self.pulse_start = now;
        }
        signal
    }
}

/// A `Start` or `Unrecognized` pulse resynchronizes the assembler: at
/// any buffer occupancy it clears the frame in progress entirely, and
/// never emits a signal.
pub proof fn lemma_resync_clears_buffer(buf: Seq<Pulse>, p: Pulse)
    requires
        !is_payload(p),
    ensures
        step_buffer(buf, p) == Seq::<Pulse>::empty(),
        step_signal(buf, p) is None,
{
}

/// Framing is idempotent: a pulse that completes a frame leaves the
/// buffer empty, so the next classified pulse starts a fresh frame of
/// size one — or zero, when that pulse itself resynchronizes.
pub proof fn lemma_fresh_frame_after_emission(buf: Seq<Pulse>, p: Pulse, q: Pulse)
    requires
        step_signal(buf, p) is Some,
    ensures
        step_buffer(buf, p) == Seq::<Pulse>::empty(),
        is_payload(q) ==> step_buffer(step_buffer(buf, p), q) =~= seq![q],
        !is_payload(q) ==> step_buffer(step_buffer(buf, p), q) == Seq::<Pulse>::empty(),
{
}

/// Whether feeding the pulses of `ps` to the assembler in order, with
/// `buf` as the frame in progress, ever emits a signal.
pub open spec fn run_emits(buf: Seq<Pulse>, ps: Seq<Pulse>) -> bool
    decreases ps.len(),
{
    if ps.len() == 0 {
        false
    } else {
        step_signal(buf, ps[0]) is Some || run_emits(step_buffer(buf, ps[0]), ps.drop_first())
    }
}

proof fn lemma_run_emits_needs_full_frame(buf: Seq<Pulse>, ps: Seq<Pulse>)
    requires
        buf.len() + ps.len() < 32,
    ensures
        !run_emits(buf, ps),
    decreases ps.len(),
{
    if ps.len() > 0 {
        lemma_run_emits_needs_full_frame(step_buffer(buf, ps[0]), ps.drop_first());
    }
}

/// A worker stopped before the 32nd payload pulse of a transmission has
/// decoded nothing: starting from an empty buffer, fewer than 32
/// pulses — however classified — never emit a signal, so a partial
/// frame is never handed to a signal handler.
pub proof fn lemma_no_signal_from_partial_frame(ps: Seq<Pulse>)
    requires
        ps.len() < 32,
    ensures
        !run_emits(Seq::empty(), ps),
{
    lemma_run_emits_needs_full_frame(Seq::empty(), ps);
}

} // verus!
