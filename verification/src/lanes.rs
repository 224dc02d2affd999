//! Concurrent lanes: many state machines of the same kind, each advanced
//! only by its own events, under one interleaved schedule. Every accepted
//! connection, every relay session, and every copy direction of a session is
//! such a lane — the relay shares nothing between them — and the lemmas here
//! say what that buys: the state a lane reaches under an interleaved
//! schedule is exactly the state its own events alone produce, whatever
//! happens on every other lane.

use vstd::prelude::*;

use crate::copier::CopierModel;
use crate::copier::CopyEvent;
use crate::copier::CopyPhase;
use crate::copier::init_model;
use crate::copier::model_step;
use crate::copier::reads_of;
use crate::copier::run;
use crate::copier::valid_trace;
use crate::copier::lemma_byte_fidelity;

verus! {

/// One entry of an interleaved schedule: which lane the event belongs to,
/// and the event itself.
pub ghost struct Scheduled<E> {
    pub lane: int,
    pub event: E,
}

/// Apply one scheduled event to the world: only the named lane steps; a
/// lane the world does not hold leaves the world unchanged.
pub open spec fn world_step<S, E>(
    step: spec_fn(S, E) -> S,
    w: Map<int, S>,
    s: Scheduled<E>,
) -> Map<int, S> {
    if w.dom().contains(s.lane) {
        w.insert(s.lane, step(w[s.lane], s.event))
    } else {
        w
    }
}

/// The world after an interleaved schedule, first entry first.
pub open spec fn world_run<S, E>(
    step: spec_fn(S, E) -> S,
    w: Map<int, S>,
    sched: Seq<Scheduled<E>>,
) -> Map<int, S>
    decreases sched.len(),
{
    if sched.len() == 0 {
        w
    } else {
        world_run(step, world_step(step, w, sched[0]), sched.skip(1))
    }
}

/// The events one lane receives, in schedule order.
pub open spec fn lane_events<E>(sched: Seq<Scheduled<E>>, lane: int) -> Seq<E>
    decreases sched.len(),
{
    if sched.len() == 0 {
        Seq::empty()
    } else if sched[0].lane == lane {
        seq![sched[0].event] + lane_events(sched.skip(1), lane)
    } else {
        lane_events(sched.skip(1), lane)
    }
}

/// One lane run over its own events alone, first event first.
pub open spec fn lane_run<S, E>(step: spec_fn(S, E) -> S, s0: S, evs: Seq<E>) -> S
    decreases evs.len(),
{
    if evs.len() == 0 {
        s0
    } else {
        lane_run(step, step(s0, evs[0]), evs.skip(1))
    }
}

/// LAW (lane isolation): under any interleaved schedule, a lane of the
/// world ends in exactly the state its own events alone produce; events
/// scheduled on other lanes never touch it, and the set of lanes never
/// changes.
pub proof fn lemma_lane_isolation<S, E>(
    step: spec_fn(S, E) -> S,
    w: Map<int, S>,
    sched: Seq<Scheduled<E>>,
    lane: int,
)
    requires
        w.dom().contains(lane),
    ensures
        world_run(step, w, sched).dom() == w.dom(),
        world_run(step, w, sched)[lane] == lane_run(step, w[lane], lane_events(sched, lane)),
    decreases sched.len(),
{
    if sched.len() == 0 {
    } else {
        let s = sched[0];
        let w1 = world_step(step, w, s);
        assert(w1.dom() =~= w.dom());
        lemma_lane_isolation(step, w1, sched.skip(1), lane);
        if s.lane == lane {
            let evs = lane_events(sched, lane);
            assert(evs[0] == s.event);
            assert(evs.skip(1) =~= lane_events(sched.skip(1), lane));
        }
    }
}

/// The spec-level transition of one copy direction, as a lane step.
pub open spec fn copier_step_fn() -> spec_fn(CopierModel, CopyEvent) -> CopierModel {
    |m: CopierModel, e: CopyEvent| model_step(m, e)
}

/// A lane run of the copy machine is its trace run.
proof fn lemma_lane_run_is_run(m: CopierModel, evs: Seq<CopyEvent>)
    ensures
        lane_run(copier_step_fn(), m, evs) == run(m, evs),
    decreases evs.len(),
{
    if evs.len() == 0 {
    } else {
        lemma_lane_run_is_run(model_step(m, evs[0]), evs.skip(1));
    }
}

/// LAW (session and direction isolation): take any number of copy
/// directions — the two directions of one session, or the directions of
/// many concurrent sessions — each starting fresh, driven by one
/// interleaved schedule. Each direction ends in the state its own events
/// alone produce; in particular it delivers, in order, exactly the bytes
/// its own source sent (minus its pending tail), never bytes of another
/// direction, and a failure scheduled on one direction neither changes
/// another direction's state nor stops the other direction's bytes from
/// being delivered.
pub proof fn lemma_direction_isolation(
    w: Map<int, CopierModel>,
    sched: Seq<Scheduled<CopyEvent>>,
    lane: int,
)
    requires
        w.dom().contains(lane),
        w[lane] == init_model(),
        valid_trace(init_model(), lane_events(sched, lane)),
    ensures
        world_run(copier_step_fn(), w, sched)[lane]
            == run(init_model(), lane_events(sched, lane)),
        world_run(copier_step_fn(), w, sched)[lane].received
            == reads_of(lane_events(sched, lane)),
        world_run(copier_step_fn(), w, sched)[lane].delivered
            + world_run(copier_step_fn(), w, sched)[lane].pending
            == reads_of(lane_events(sched, lane)),
        world_run(copier_step_fn(), w, sched)[lane].phase == CopyPhase::DoneOk
            ==> world_run(copier_step_fn(), w, sched)[lane].delivered
                == reads_of(lane_events(sched, lane)),
{
    lemma_lane_isolation(copier_step_fn(), w, sched, lane);
    lemma_lane_run_is_run(init_model(), lane_events(sched, lane));
    lemma_byte_fidelity(lane_events(sched, lane));
}

} // verus!
