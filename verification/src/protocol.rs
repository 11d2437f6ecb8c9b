//! The cache among its callers.
//!
//! A model of everything that shares one cache: any number of callers, each
//! somewhere on its way through the steps of `transition`; the permit, which
//! one caller at most holds; the invalidations that have been armed and have
//! yet to fire; and the clock. The model moves by the same `transition` and
//! `invalidated` that the cache itself is verified against, so what is proved
//! of every run of the model holds of every use of the cache in which the
//! permit goes to one caller at a time, the clock does not run backwards and no
//! invalidation fires before it is due.

use crate::cache::{
    fresh, invalidated, stored, transition, ActionView, EventView, FetchErrorView,
    SpotifyTokenView, SAFETY_MARGIN_MS,
};
use crate::expiry::expiry_of;
use vstd::prelude::*;

verus! {

/// How far a caller has come.
pub enum Phase {
    /// It found nothing to serve and waits for the permit.
    Waiting,
    /// It holds the permit and has yet to look at the slot again.
    Admitted,
    /// It holds the permit and has invoked the source.
    Fetching,
    /// It has returned, with this outcome.
    Done(Result<Seq<char>, FetchErrorView>),
}

pub struct System {
    /// What the cache holds.
    pub slot: Option<SpotifyTokenView>,
    /// The caller that holds the permit.
    pub holder: Option<nat>,
    /// Every caller that has arrived, and how far it has come.
    pub phase: Map<nat, Phase>,
    /// How many credentials have been stored so far. The generations are
    /// numbered from 0 in the order in which they were stored.
    pub generations: nat,
    /// The invalidations that have yet to fire: the generation each is for,
    /// and the expiry instant by which it knows its credential.
    pub armed: Map<nat, int>,
    /// How often the source has been invoked.
    pub fetches: nat,
    /// The latest reading of the clock.
    pub now: u64,
}

pub enum Step {
    /// A caller asks for the credential.
    Arrive { caller: nat, now: u64 },
    /// A waiting caller is given the permit, which nobody holds.
    Acquire { caller: nat },
    /// A waiting caller is told that the permit cannot be had.
    Refuse { caller: nat },
    /// The caller that was given the permit looks at the slot again.
    Recheck { caller: nat, now: u64 },
    /// The source answers the caller that invoked it.
    Complete { caller: nat, result: Result<Seq<char>, Seq<char>>, now: u64, wall_ms: i64 },
    /// The invalidation of one generation fires, no earlier than it is due.
    Fire { generation: nat, now: u64 },
}

impl Step {
    /// The reading of the clock at which the step runs, if it reads the clock.
    pub open spec fn time(self) -> Option<u64> {
        match self {
            Step::Arrive { now, .. } => Some(now),
            Step::Acquire { .. } => None,
            Step::Refuse { .. } => None,
            Step::Recheck { now, .. } => Some(now),
            Step::Complete { now, .. } => Some(now),
            Step::Fire { now, .. } => Some(now),
        }
    }
}

impl System {
    /// A cold cache that nobody has called yet.
    pub open spec fn start() -> System {
        System {
            slot: None,
            holder: None,
            phase: Map::empty(),
            generations: 0,
            armed: Map::empty(),
            fetches: 0,
            now: 0,
        }
    }

    pub open spec fn is_at(self, caller: nat, phase: Phase) -> bool {
        self.phase.contains_key(caller) && self.phase[caller] == phase
    }

    /// Some caller has invoked the source and has no answer yet.
    pub open spec fn fetching(self) -> bool {
        self.holder is Some && self.is_at(self.holder->0, Phase::Fetching)
    }

    /// Whether the step can be taken.
    pub open spec fn enabled(self, step: Step) -> bool {
        match step {
            Step::Arrive { caller, now } => !self.phase.contains_key(caller) && self.now <= now,
            Step::Acquire { caller } => self.is_at(caller, Phase::Waiting) && self.holder is None,
            Step::Refuse { caller } => self.is_at(caller, Phase::Waiting),
            Step::Recheck { caller, now } => self.is_at(caller, Phase::Admitted) && self.now
                <= now,
            Step::Complete { caller, now, .. } => self.is_at(caller, Phase::Fetching) && self.now
                <= now,
            Step::Fire { generation, now } => {
                &&& self.armed.contains_key(generation)
                &&& self.now <= now
                &&& self.armed[generation] + SAFETY_MARGIN_MS <= now
            },
        }
    }

    /// The system once `caller` has been handed `action` and the cache holds
    /// `slot`.
    pub open spec fn settle(
        self,
        caller: nat,
        slot: Option<SpotifyTokenView>,
        action: ActionView,
    ) -> System {
        let released = if self.holder == Some(caller) {
            None
        } else {
            self.holder
        };
        match action {
            ActionView::Respond(outcome) => System {
                slot,
                holder: released,
                phase: self.phase.insert(caller, Phase::Done(outcome)),
                ..self
            },
            ActionView::AwaitPermit => System {
                slot,
                phase: self.phase.insert(caller, Phase::Waiting),
                ..self
            },
            ActionView::Fetch => System {
                slot,
                phase: self.phase.insert(caller, Phase::Fetching),
                fetches: self.fetches + 1,
                ..self
            },
            ActionView::ArmAndRespond(value, invalidation) => System {
                slot,
                holder: released,
                phase: self.phase.insert(caller, Phase::Done(Ok(value))),
                generations: self.generations + 1,
                armed: self.armed.insert(self.generations, invalidation.generation as int),
                ..self
            },
        }
    }

    /// The system after the step. The wall clock matters to `Complete` alone.
    pub open spec fn next(self, step: Step) -> System {
        match step {
            Step::Arrive { caller, now } => {
                let (slot, action) = transition(self.slot, EventView::Request, now, 0);
                System { now, ..self }.settle(caller, slot, action)
            },
            Step::Acquire { caller } => System {
                holder: Some(caller),
                phase: self.phase.insert(caller, Phase::Admitted),
                ..self
            },
            Step::Refuse { caller } => {
                let (slot, action) = transition(self.slot, EventView::Refused, self.now, 0);
                self.settle(caller, slot, action)
            },
            Step::Recheck { caller, now } => {
                let (slot, action) = transition(self.slot, EventView::Admitted, now, 0);
                System { now, ..self }.settle(caller, slot, action)
            },
            Step::Complete { caller, result, now, wall_ms } => {
                let (slot, action) = transition(self.slot, EventView::Fetched(result), now, wall_ms);
                System { now, ..self }.settle(caller, slot, action)
            },
            Step::Fire { generation, now } => System {
                slot: invalidated(self.slot, self.armed[generation]),
                armed: self.armed.remove(generation),
                now,
                ..self
            },
        }
    }

    /// What holds of the system whatever has happened.
    ///
    /// The permit is held by exactly the callers between admission and
    /// return, so by one at most. A credential in the slot is the latest generation,
    /// and its invalidation is armed. Every other armed invalidation is for a
    /// generation that has expired, and that expired before the one in the
    /// slot. A fetch is in flight only while the slot has nothing to serve.
    pub open spec fn inv(self) -> bool {
        &&& self.holder is Some ==> self.phase.contains_key(self.holder->0)
        &&& forall|c: nat| #[trigger]
            self.phase.contains_key(c) ==> ((self.phase[c] is Admitted || self.phase[c] is Fetching)
                <==> self.holder == Some(c))
        &&& self.slot is Some ==> {
            &&& self.generations > 0
            &&& self.armed.contains_key((self.generations - 1) as nat)
            &&& self.armed[(self.generations - 1) as nat] == self.slot->0.expires_at
        }
        &&& forall|g: nat| #[trigger]
            self.armed.contains_key(g) ==> {
                &&& g < self.generations
                &&& (self.slot is Some && g == self.generations - 1) || {
                    &&& self.armed[g] <= self.now
                    &&& self.slot is Some ==> self.armed[g] < self.slot->0.expires_at
                }
            }
        &&& self.fetching() ==> fresh(self.slot, self.now) is None
    }
}

/// Every step runs from the system that the one before it left.
pub open spec fn valid_run(from: System, steps: Seq<Step>) -> bool
    decreases steps.len(),
{
    steps.len() == 0 || (from.enabled(steps[0]) && valid_run(
        from.next(steps[0]),
        steps.drop_first(),
    ))
}

/// The system after all the steps.
pub open spec fn run(from: System, steps: Seq<Step>) -> System
    decreases steps.len(),
{
    if steps.len() == 0 {
        from
    } else {
        run(from.next(steps[0]), steps.drop_first())
    }
}

/// The invariant holds at the start.
pub proof fn lemma_start_inv()
    ensures
        System::start().inv(),
{
}

/// The invariant survives every step.
pub proof fn lemma_next_inv(s: System, step: Step)
    requires
        s.inv(),
        s.enabled(step),
    ensures
        s.next(step).inv(),
{
}

/// The invariant holds after every run that starts where it holds, and so in
/// every state that can be reached from the start.
pub proof fn lemma_run_inv(from: System, steps: Seq<Step>)
    requires
        from.inv(),
        valid_run(from, steps),
    ensures
        run(from, steps).inv(),
    decreases steps.len(),
{
    if steps.len() > 0 {
        lemma_next_inv(from, steps[0]);
        lemma_run_inv(from.next(steps[0]), steps.drop_first());
    }
}

/// No expired serving. Whenever a step hands a credential to a caller, the
/// slot holds that credential after the step and its expiry lies strictly
/// ahead of the instant at which the step ran.
pub proof fn lemma_no_expired_serving(s: System, step: Step, caller: nat, value: Seq<char>)
    requires
        s.enabled(step),
        !s.is_at(caller, Phase::Done(Ok(value))),
        s.next(step).is_at(caller, Phase::Done(Ok(value))),
    ensures
        step.time() is Some,
        fresh(s.next(step).slot, step.time()->0) == Some(value),
        s.next(step).slot is Some,
        s.next(step).slot->0.value == value,
        s.next(step).slot->0.expires_at > step.time()->0,
{
}

/// At most one fetch is in flight: two callers that have both invoked the
/// source and have no answer yet are one and the same, and that caller holds
/// the permit.
pub proof fn lemma_one_fetch_in_flight(s: System, a: nat, b: nat)
    requires
        s.inv(),
        s.is_at(a, Phase::Fetching),
        s.is_at(b, Phase::Fetching),
    ensures
        a == b,
        s.holder == Some(a),
{
}

/// The source is invoked only when the slot has nothing to serve, and only by
/// the caller that holds the permit.
pub proof fn lemma_fetch_only_when_stale(s: System, step: Step)
    requires
        s.inv(),
        s.enabled(step),
        s.next(step).fetches != s.fetches,
    ensures
        step is Recheck,
        s.holder == Some(step->Recheck_caller),
        fresh(s.slot, step->Recheck_now) is None,
        s.next(step).fetches == s.fetches + 1,
        s.next(step).is_at(step->Recheck_caller, Phase::Fetching),
{
}

/// Generation safety. A credential in the slot is the latest generation. The
/// invalidation of any other generation, whenever it fires, leaves the slot
/// as it is; the credential's own invalidation empties the slot.
pub proof fn lemma_generation_safety(s: System, generation: nat, now: u64)
    requires
        s.inv(),
        s.slot is Some,
        s.enabled(Step::Fire { generation, now }),
    ensures
        generation != s.generations - 1 ==> s.next(Step::Fire { generation, now }).slot == s.slot,
        generation == s.generations - 1 ==> s.next(Step::Fire { generation, now }).slot is None,
{
}

/// Generation safety, step by step. Let the invalidation of some generation
/// be armed when the source answers with a payload, which is stored as the
/// next generation. If the older invalidation fires after that, the slot
/// still holds the payload, with the expiry it was stored with.
pub proof fn lemma_late_invalidation_spares_successor(
    s: System,
    older: nat,
    caller: nat,
    payload: Seq<char>,
    stored_at: u64,
    wall_ms: i64,
    fired_at: u64,
)
    requires
        s.inv(),
        s.armed.contains_key(older),
        s.enabled(Step::Complete { caller, result: Ok(payload), now: stored_at, wall_ms }),
        s.next(Step::Complete { caller, result: Ok(payload), now: stored_at, wall_ms }).enabled(
            Step::Fire { generation: older, now: fired_at },
        ),
    ensures
        s.next(Step::Complete { caller, result: Ok(payload), now: stored_at, wall_ms }).next(
            Step::Fire { generation: older, now: fired_at },
        ).slot == Some(stored(payload, stored_at, wall_ms)),
{
    let t = s.next(Step::Complete { caller, result: Ok(payload), now: stored_at, wall_ms });
    lemma_next_inv(s, Step::Complete { caller, result: Ok(payload), now: stored_at, wall_ms });
    lemma_generation_safety(t, older, fired_at);
}

/// A failure of the source stays with the caller that invoked it, and the
/// next caller tries again: the slot and every other caller are as before,
/// the permit is free, and a caller that is given it while the slot has
/// nothing to serve invokes the source anew.
pub proof fn lemma_failure_stays_with_fetcher(
    s: System,
    caller: nat,
    reason: Seq<char>,
    now: u64,
    wall_ms: i64,
    next_caller: nat,
    later: u64,
)
    requires
        s.inv(),
        s.enabled(Step::Complete { caller, result: Err(reason), now, wall_ms }),
    ensures
        ({
            let t = s.next(Step::Complete { caller, result: Err(reason), now, wall_ms });
            &&& t.slot == s.slot
            &&& t.holder is None
            &&& t.fetches == s.fetches
            &&& t.phase == s.phase.insert(
                caller,
                Phase::Done(Err(FetchErrorView::FetchFailed(reason))),
            )
            &&& t.enabled(Step::Recheck { caller: next_caller, now: later }) && fresh(
                t.slot,
                later,
            ) is None ==> {
                let u = t.next(Step::Recheck { caller: next_caller, now: later });
                u.is_at(next_caller, Phase::Fetching) && u.fetches == s.fetches + 1
            }
        }),
{
}

/// Nobody is refused the permit in the run.
pub open spec fn nobody_refused(steps: Seq<Step>) -> bool {
    forall|i: int| 0 <= i < steps.len() ==> !(#[trigger] steps[i] is Refuse)
}

/// Whenever the source answers in the run, it answers with `payload`.
pub open spec fn source_gives(steps: Seq<Step>, payload: Seq<char>) -> bool {
    forall|i: int|
        0 <= i < steps.len() ==> (#[trigger] steps[i] is Complete ==> steps[i]->Complete_result
            == Ok::<Seq<char>, Seq<char>>(payload))
}

/// Every step of the run that reads the clock reads less than `limit`.
pub open spec fn all_before(steps: Seq<Step>, limit: int) -> bool {
    forall|i: int|
        0 <= i < steps.len() ==> (#[trigger] steps[i].time() is Some ==> steps[i].time()->0
            < limit)
}

/// The run is over before anything that the source gave in it expires: every
/// step that follows an answer of the source reads the clock before the
/// expiry of that answer.
pub open spec fn concurrent(steps: Seq<Step>) -> bool {
    forall|i: int, j: int|
        0 <= i < j < steps.len() ==> (#[trigger] steps[i] matches Step::Complete {
            result: Ok(payload),
            now,
            wall_ms,
            ..
        } ==> (#[trigger] steps[j].time() is Some ==> steps[j].time()->0 < expiry_of(
            payload,
            now,
            wall_ms,
        )))
}

/// What holds during a run that `lemma_single_flight` speaks of, `origin`
/// being the system that the run started from.
pub open spec fn in_flight(s: System, origin: System, payload: Seq<char>) -> bool {
    &&& s.inv()
    &&& forall|c: nat| #[trigger]
        origin.phase.contains_key(c) ==> s.phase.contains_key(c) && s.phase[c] is Done
    &&& forall|c: nat|
        !origin.phase.contains_key(c) && #[trigger] s.phase.contains_key(c) && s.phase[c] is Done
            ==> s.phase[c] == Phase::Done(Ok(payload))
    &&& match s.slot {
        None => {
            &&& s.fetches == origin.fetches + (if s.fetching() {
                1nat
            } else {
                0nat
            })
            &&& forall|c: nat|
                !origin.phase.contains_key(c) && #[trigger] s.phase.contains_key(c) ==> !(
                s.phase[c] is Done)
        },
        Some(token) => {
            &&& token.value == payload
            &&& s.now < token.expires_at
            &&& s.fetches == origin.fetches + 1
            &&& !s.fetching()
        },
    }
}

proof fn lemma_flight_step(s: System, step: Step, origin: System, payload: Seq<char>)
    requires
        in_flight(s, origin, payload),
        s.enabled(step),
        !(step is Refuse),
        step is Complete ==> step->Complete_result == Ok::<Seq<char>, Seq<char>>(payload),
        s.slot is Some && step.time() is Some ==> step.time()->0 < s.slot->0.expires_at,
    ensures
        in_flight(s.next(step), origin, payload),
        s.slot is Some ==> s.next(step).slot == s.slot,
        s.slot is None && s.next(step).slot is Some ==> step is Complete && s.next(step).slot
            == Some(stored(payload, step->Complete_now, step->Complete_wall_ms)),
{
    lemma_next_inv(s, step);
}

proof fn lemma_flight_run(s: System, steps: Seq<Step>, origin: System, payload: Seq<char>)
    requires
        in_flight(s, origin, payload),
        valid_run(s, steps),
        nobody_refused(steps),
        source_gives(steps, payload),
        concurrent(steps),
        s.slot is Some ==> all_before(steps, s.slot->0.expires_at),
    ensures
        in_flight(run(s, steps), origin, payload),
    decreases steps.len(),
{
    if steps.len() > 0 {
        let step = steps[0];
        let rest = steps.drop_first();
        let t = s.next(step);
        lemma_flight_step(s, step, origin, payload);
        assert(nobody_refused(rest)) by {
            assert forall|i: int| 0 <= i < rest.len() implies !(#[trigger] rest[i] is Refuse) by {
                assert(rest[i] == steps[i + 1]);
            }
        }
        assert(source_gives(rest, payload)) by {
            assert forall|i: int| 0 <= i < rest.len() && #[trigger] rest[i] is Complete implies rest[i]->Complete_result
                == Ok::<Seq<char>, Seq<char>>(payload) by {
                assert(rest[i] == steps[i + 1]);
            }
        }
        assert(concurrent(rest)) by {
            assert forall|i: int, j: int| 0 <= i < j < rest.len() implies (
            #[trigger] rest[i] matches Step::Complete { result: Ok(payload), now, wall_ms, .. }
                ==> (#[trigger] rest[j].time() is Some ==> rest[j].time()->0 < expiry_of(
                payload,
                now,
                wall_ms,
            ))) by {
                assert(rest[i] == steps[i + 1]);
                assert(rest[j] == steps[j + 1]);
            }
        }
        if t.slot is Some {
            assert(all_before(rest, t.slot->0.expires_at)) by {
                assert forall|i: int|
                    0 <= i < rest.len() && #[trigger] rest[i].time() is Some implies rest[i].time()->0
                    < t.slot->0.expires_at by {
                    assert(rest[i] == steps[i + 1]);
                    if s.slot is None {
                        assert(steps[0] is Complete);
                    }
                }
            }
        }
        lemma_flight_run(t, rest, origin, payload);
    }
}

/// Single flight. Let callers come to a cache that holds nothing and that
/// nobody is busy with, let none of them be refused the permit, let the source give
/// `payload` whenever it is invoked, and let all of it happen before what the
/// source gave expires. Then, however their steps interleave, the source is
/// invoked once at most, exactly once if any of them has returned, and every
/// one of them that has returned got `payload`.
pub proof fn lemma_single_flight(s: System, steps: Seq<Step>, payload: Seq<char>)
    requires
        s.inv(),
        s.slot is None,
        s.holder is None,
        forall|c: nat| #[trigger] s.phase.contains_key(c) ==> s.phase[c] is Done,
        valid_run(s, steps),
        nobody_refused(steps),
        source_gives(steps, payload),
        concurrent(steps),
    ensures
        run(s, steps).fetches <= s.fetches + 1,
        forall|c: nat|
            !s.phase.contains_key(c) && #[trigger] run(s, steps).phase.contains_key(c) && run(
                s,
                steps,
            ).phase[c] is Done ==> {
                &&& run(s, steps).phase[c] == Phase::Done(Ok(payload))
                &&& run(s, steps).fetches == s.fetches + 1
            },
{
    lemma_flight_run(s, steps, s, payload);
}


} // verus!
