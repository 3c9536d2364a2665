//! The pipeline's decisions.
//!
//! The pipeline itself is plumbing: three tasks joined by queues.  What it
//! decides per event lives here: which transformer runs, which of the
//! resolved codes are forwarded to the sink, and when the pipeline stops.

use vstd::prelude::*;

use crate::control_code::ControlCode;
use crate::events::InputEvent;
use crate::layer_composer::{
    spec_passthrough, spec_transform, LayerComposer, Passthrough,
};

verus! {

/// The view of a transformer's optional answer.
pub open spec fn spec_out_view(r: Option<Vec<ControlCode>>) -> Option<Seq<ControlCode>> {
    match r {
        Some(v) => Some(v@),
        None => None,
    }
}

/// The transformer a pipeline runs: the bare passthrough, or a layer
/// composer.
pub enum Transformer {
    Passthrough(Passthrough),
    Composer(LayerComposer),
}

/// How one transformer step relates states and answer at an instant: a
/// passthrough answers from the event alone and keeps no state; a composer
/// steps as the layered transformer does.
pub open spec fn spec_transformer_step(
    t0: Transformer,
    e: InputEvent,
    now: u64,
    t1: Transformer,
    r: Option<Seq<ControlCode>>,
) -> bool {
    match t0 {
        Transformer::Passthrough(_) => t1 == t0 && r == Some(spec_passthrough(e)),
        Transformer::Composer(c0) => match t1 {
            Transformer::Composer(c1) => {
                &&& c1@ == spec_transform(c0@, e, now).0
                &&& c1.clock == c0.clock
                &&& r == spec_transform(c0@, e, now).1
            },
            Transformer::Passthrough(_) => false,
        },
    }
}

impl Transformer {
    /// The transformer's invariant.
    pub open spec fn wf(&self) -> bool {
        match self {
            Transformer::Passthrough(_) => true,
            Transformer::Composer(c) => c.wf(),
        }
    }

    /// The instant the transformer's clock is pinned to, if it is pinned.
    pub open spec fn spec_pinned(&self) -> Option<u64> {
        match self {
            Transformer::Passthrough(_) => None,
            Transformer::Composer(c) => c.clock.pinned,
        }
    }

    /// One step: answers for one event at the instant the clock reports.
    pub fn transform(&mut self, e: InputEvent) -> (r: Option<Vec<ControlCode>>)
        requires
            old(self).wf(),
        ensures
            final(self).wf(),
            exists|now: u64|
                {
                    &&& now < u64::MAX
                    &&& #[trigger] spec_transformer_step(
                        *old(self),
                        e,
                        now,
                        *final(self),
                        spec_out_view(r),
                    )
                    &&& match old(self).spec_pinned() {
                        Some(t) => now == t,
                        None => true,
                    }
                },
    {
        match self {
            Transformer::Passthrough(p) => {
                let r = p.transform(e);
                proof {
                    assert(spec_transformer_step(
                        *old(self),
                        e,
                        0u64,
                        *final(self),
                        spec_out_view(r),
                    ));
                }
                r
            },
            Transformer::Composer(c) => {
                let now = c.clock.now();
                let r = c.transform_at(e, now);
                proof {
                    assert(spec_transformer_step(
                        *old(self),
                        e,
                        now,
                        *final(self),
                        spec_out_view(r),
                    ));
                }
                r
            },
        }
    }
}

/// What the pipeline forwards out of one resolved answer: the concrete
/// events up to the first shutdown order, and whether one was seen.
pub open spec fn spec_route(ccs: Seq<ControlCode>) -> (Seq<InputEvent>, bool)
    decreases ccs.len(),
{
    if ccs.len() == 0 {
        (Seq::empty(), false)
    } else {
        match ccs[0] {
            ControlCode::InputEvent(v) => {
                let rest = spec_route(ccs.drop_first());
                (seq![v] + rest.0, rest.1)
            },
            ControlCode::Exit => (Seq::empty(), true),
            _ => spec_route(ccs.drop_first()),
        }
    }
}

/// Splits a transformer's answer into the events for the sink and the
/// shutdown flag: concrete events are forwarded in order until a shutdown
/// order ends the walk; everything else is dropped.
pub fn route_control_codes(ccs: &Vec<ControlCode>) -> (r: (Vec<InputEvent>, bool))
    ensures
        r.0@ == spec_route(ccs@).0,
        r.1 == spec_route(ccs@).1,
{
    let mut out: Vec<InputEvent> = Vec::new();
    proof {
        assert(ccs@.skip(0) =~= ccs@);
        assert(Seq::<InputEvent>::empty() + spec_route(ccs@).0 =~= spec_route(ccs@).0);
    }
    let mut i: usize = 0;
    while i < ccs.len()
        invariant
            i <= ccs@.len(),
            spec_route(ccs@).0 == out@ + spec_route(ccs@.skip(i as int)).0,
            spec_route(ccs@).1 == spec_route(ccs@.skip(i as int)).1,
        decreases ccs@.len() - i,
    {
        proof {
            assert(ccs@.skip(i as int)[0] == ccs@[i as int]);
            assert(ccs@.skip(i as int).drop_first() =~= ccs@.skip(i as int + 1));
        }
        match &ccs[i] {
            ControlCode::InputEvent(v) => {
                out.push(*v);
                proof {
                    assert(out@ + spec_route(ccs@.skip(i as int + 1)).0 =~= (out@.drop_last()
                        + seq![ccs@[i as int]->InputEvent_0]) + spec_route(
                        ccs@.skip(i as int + 1),
                    ).0);
                }
            },
            ControlCode::Exit => {
                proof {
                    assert(out@ + Seq::<InputEvent>::empty() =~= out@);
                }
                return (out, true);
            },
            _ => {},
        }
        i = i + 1;
    }
    proof {
        assert(ccs@.skip(ccs@.len() as int) =~= Seq::<ControlCode>::empty());
        assert(out@ + Seq::<InputEvent>::empty() =~= out@);
    }
    (out, false)
}

/// The route of an optional answer: no answer forwards nothing and keeps the
/// pipeline running.
pub open spec fn spec_route_opt(r: Option<Seq<ControlCode>>) -> (Seq<InputEvent>, bool) {
    match r {
        Some(ccs) => spec_route(ccs),
        None => (Seq::empty(), false),
    }
}

/// One step of the pipeline's transform task: run the transformer on the
/// event and split its answer into events for the sink and the shutdown
/// flag.
pub fn engine_step(t: &mut Transformer, e: InputEvent) -> (r: (Vec<InputEvent>, bool))
    requires
        old(t).wf(),
    ensures
        final(t).wf(),
        exists|now: u64, answer: Option<Seq<ControlCode>>|
            {
                &&& now < u64::MAX
                &&& #[trigger] spec_transformer_step(*old(t), e, now, *final(t), answer)
                &&& (r.0@, r.1) == spec_route_opt(answer)
                &&& match old(t).spec_pinned() {
                    Some(pt) => now == pt,
                    None => true,
                }
            },
{
    let answer = t.transform(e);
    match answer {
        Some(ccs) => {
            let routed = route_control_codes(&ccs);
            proof {
                let now = choose|now: u64|
                    {
                        &&& now < u64::MAX
                        &&& #[trigger] spec_transformer_step(
                            *old(t),
                            e,
                            now,
                            *final(t),
                            spec_out_view(Some(ccs)),
                        )
                        &&& match old(t).spec_pinned() {
                            Some(pt) => now == pt,
                            None => true,
                        }
                    };
                assert((routed.0@, routed.1) == spec_route_opt(Some(ccs@)));
                assert(spec_transformer_step(*old(t), e, now, *final(t), Some(ccs@)));
            }
            routed
        },
        None => {
            proof {
                let now = choose|now: u64|
                    {
                        &&& now < u64::MAX
                        &&& #[trigger] spec_transformer_step(
                            *old(t),
                            e,
                            now,
                            *final(t),
                            spec_out_view(None::<Vec<ControlCode>>),
                        )
                        &&& match old(t).spec_pinned() {
                            Some(pt) => now == pt,
                            None => true,
                        }
                    };
                assert((Seq::<InputEvent>::empty(), false) == spec_route_opt(
                    None::<Seq<ControlCode>>,
                ));
            }
            (Vec::new(), false)
        },
    }
}

} // verus!
