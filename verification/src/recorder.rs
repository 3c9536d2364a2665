//! The tap recorder: a pass-through decorator around a transformer.
//!
//! The listener notes each incoming event and each emitted code, delegates
//! to the wrapped transformer, and hands its answer back untouched.  A side
//! task (outside the library) drains the notes and writes them out.

use vstd::prelude::*;

use crate::control_code::ControlCode;
use crate::engine::{spec_out_view, spec_transformer_step, Transformer};
use crate::events::InputEvent;
use crate::layer_composer::{spec_run_outputs, spec_run_state, spec_transform, ComposerModel};

verus! {

/// One note in the recording: an event as it came in, or a code as it went
/// out.
#[derive(Debug, PartialEq, Eq)]
pub enum Log {
    In(InputEvent),
    Out(ControlCode),
}

impl Clone for Log {
    fn clone(&self) -> (r: Self)
        ensures
            r == *self,
    {
        match self {
            Log::In(e) => Log::In(*e),
            Log::Out(cc) => Log::Out(cc.clone()),
        }
    }
}

/// The notes one transformer step leaves behind: the incoming event, then
/// each emitted code in order.
pub open spec fn spec_log_entries(e: InputEvent, out: Option<Seq<ControlCode>>) -> Seq<Log> {
    seq![Log::In(e)] + match out {
        Some(ccs) => ccs.map_values(|cc: ControlCode| Log::Out(cc)),
        None => Seq::empty(),
    }
}

/// A transformer wrapped so that everything it sees and answers is noted.
pub struct Listener {
    pub inner: Transformer,
    pub log: Vec<Log>,
}

impl Listener {
    /// Wraps a transformer; the recording starts empty.
    pub fn wrap(inner: Transformer) -> (r: Listener)
        ensures
            r.inner == inner,
            r.log@ == Seq::<Log>::empty(),
    {
        Listener { inner, log: Vec::new() }
    }

    /// One step: notes the event, delegates, notes the answer, and returns
    /// the answer untouched.  The wrapped transformer sees exactly the step
    /// it would have seen bare, so the decorator is observationally
    /// transparent.
    pub fn transform(&mut self, e: InputEvent) -> (r: Option<Vec<ControlCode>>)
        requires
            old(self).inner.wf(),
        ensures
            final(self).inner.wf(),
            final(self).log@ == old(self).log@ + spec_log_entries(e, spec_out_view(r)),
            exists|now: u64|
                {
                    &&& now < u64::MAX
                    &&& #[trigger] spec_transformer_step(
                        old(self).inner,
                        e,
                        now,
                        final(self).inner,
                        spec_out_view(r),
                    )
                    &&& match old(self).inner.spec_pinned() {
                        Some(t) => now == t,
                        None => true,
                    }
                },
    {
        self.log.push(Log::In(e));
        let r = self.inner.transform(e);
        let ghost inner1 = self.inner;
        match &r {
            Some(ccs) => {
                let mut i: usize = 0;
                while i < ccs.len()
                    invariant
                        i <= ccs@.len(),
                        self.inner == inner1,
                        self.log@ == old(self).log@ + seq![Log::In(e)] + ccs@.take(
                            i as int,
                        ).map_values(|cc: ControlCode| Log::Out(cc)),
                    decreases ccs@.len() - i,
                {
                    self.log.push(Log::Out(ccs[i].clone()));
                    proof {
                        assert(ccs@.take(i as int + 1).map_values(
                            |cc: ControlCode| Log::Out(cc),
                        ) =~= ccs@.take(i as int).map_values(|cc: ControlCode| Log::Out(cc)).push(
                            Log::Out(ccs@[i as int]),
                        ));
                    }
                    i = i + 1;
                }
                proof {
                    assert(ccs@.take(ccs@.len() as int) =~= ccs@);
                    assert(old(self).log@ + seq![Log::In(e)] + ccs@.map_values(
                        |cc: ControlCode| Log::Out(cc),
                    ) =~= old(self).log@ + spec_log_entries(e, spec_out_view(r)));
                }
            },
            None => {
                proof {
                    assert(old(self).log@ + seq![Log::In(e)] =~= old(self).log@
                        + spec_log_entries(e, spec_out_view(r)));
                }
            },
        }
        r
    }

    /// Hands the collected notes out and empties the recording.
    pub fn drain_log(&mut self) -> (r: Vec<Log>)
        ensures
            r@ == old(self).log@,
            final(self).log@ == Seq::<Log>::empty(),
            final(self).inner == old(self).inner,
    {
        let mut out: Vec<Log> = Vec::new();
        core::mem::swap(&mut out, &mut self.log);
        out
    }
}

/// The recorder's run over a stream: the composer state it carries and the
/// notes it collects.
pub open spec fn spec_recorder_run(
    s: ComposerModel,
    log: Seq<Log>,
    evs: Seq<(InputEvent, u64)>,
) -> (ComposerModel, Seq<Log>)
    decreases evs.len(),
{
    if evs.len() == 0 {
        (s, log)
    } else {
        let step = spec_transform(s, evs[0].0, evs[0].1);
        spec_recorder_run(step.0, log + spec_log_entries(evs[0].0, step.1), evs.drop_first())
    }
}

/// The notes a whole run leaves behind.
pub open spec fn spec_log_of_run(s: ComposerModel, evs: Seq<(InputEvent, u64)>) -> Seq<Log>
    decreases evs.len(),
{
    if evs.len() == 0 {
        Seq::empty()
    } else {
        let step = spec_transform(s, evs[0].0, evs[0].1);
        spec_log_entries(evs[0].0, step.1) + spec_log_of_run(step.0, evs.drop_first())
    }
}

/// The notes of a stream zipped with given answers: one incoming entry per
/// event, followed by that event's answers.
pub open spec fn spec_zip_log(
    evs: Seq<(InputEvent, u64)>,
    outs: Seq<Option<Seq<ControlCode>>>,
) -> Seq<Log>
    decreases evs.len(),
{
    if evs.len() == 0 {
        Seq::empty()
    } else {
        spec_log_entries(evs[0].0, outs[0]) + spec_zip_log(evs.drop_first(), outs.drop_first())
    }
}

/// Wrapping a transformer in the recorder is observationally transparent:
/// over any stream of events the recorder's composer walks exactly the bare
/// run, and the notes are the stream zipped with the answers the bare run
/// gives, so the recording changes no output and misses none.
pub proof fn lemma_recorder_transparent(
    s: ComposerModel,
    log: Seq<Log>,
    evs: Seq<(InputEvent, u64)>,
)
    ensures
        spec_recorder_run(s, log, evs).0 == spec_run_state(s, evs),
        spec_recorder_run(s, log, evs).1 == log + spec_log_of_run(s, evs),
        spec_log_of_run(s, evs) == spec_zip_log(evs, spec_run_outputs(s, evs)),
    decreases evs.len(),
{
    if evs.len() == 0 {
        assert(log + Seq::<Log>::empty() =~= log);
    } else {
        let step = spec_transform(s, evs[0].0, evs[0].1);
        lemma_recorder_transparent(
            step.0,
            log + spec_log_entries(evs[0].0, step.1),
            evs.drop_first(),
        );
        assert((log + spec_log_entries(evs[0].0, step.1)) + spec_log_of_run(
            step.0,
            evs.drop_first(),
        ) =~= log + (spec_log_entries(evs[0].0, step.1) + spec_log_of_run(
            step.0,
            evs.drop_first(),
        )));
        let outs = spec_run_outputs(s, evs);
        assert(outs[0] == step.1);
        assert(outs.drop_first() =~= spec_run_outputs(step.0, evs.drop_first()));
    }
}

} // verus!
