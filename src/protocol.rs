//! The acquisition protocol, as a state machine.
//!
//! A request is polled repeatedly. Each poll first attempts the exclusive
//! cell; only when that attempt fails does the request register a wake handle.
//! The handle is made once and kept; it is inserted in the registry on the
//! first contention, and again only after a release has drained it. A release
//! frees the cell and only then drains the registry, waking every handle
//! found there.
//!
//! The lemmas on `LockModel` are properties of that abstract model of one
//! lock, not of the concurrent code: there, mutual exclusion rests on the
//! outside cell.

use vstd::prelude::*;

verus! {

/// Where an acquisition request stands between polls.
#[derive(PartialEq, Eq, Structural, Clone, Copy, Debug)]
pub enum RequestState {
    /// Not yet contended: no wake handle exists.
    Fresh,
    /// Contended at least once: its wake handle sits in the registry.
    Registered,
    /// Yielded its guard; no further poll is expected.
    Completed,
}

/// What a single poll does after its attempt on the cell.
#[derive(PartialEq, Eq, Structural, Clone, Copy, Debug)]
pub enum PollAction {
    /// The attempt succeeded: hand out the guard.
    Finish,
    /// First contention: create a wake handle, bind it, insert it in the registry.
    RegisterNew,
    /// Repeated contention, handle still in the registry: re-bind it, insert nothing.
    Rebind,
    /// Repeated contention after a release drained the handle: re-bind it and
    /// insert it again.
    Reinsert,
}

/// The state a poll leaves a request in.
pub open spec fn poll_next(s: RequestState, acquired: bool) -> RequestState {
    if acquired {
        RequestState::Completed
    } else {
        RequestState::Registered
    }
}

/// The action a poll takes, given whether its attempt on the cell succeeded
/// and whether its handle is still in the registry.
pub open spec fn poll_action(s: RequestState, acquired: bool, queued: bool) -> PollAction {
    if acquired {
        PollAction::Finish
    } else if s == RequestState::Fresh {
        PollAction::RegisterNew
    } else if queued {
        PollAction::Rebind
    } else {
        PollAction::Reinsert
    }
}

/// Whether an action inserts the request's handle in the registry.
pub open spec fn inserts(a: PollAction) -> bool {
    a == PollAction::RegisterNew || a == PollAction::Reinsert
}

/// One poll of a request that has not completed, given whether its attempt
/// on the cell succeeded and whether its handle is still in the registry.
pub fn poll_transition(s: RequestState, acquired: bool, queued: bool) -> (r: (RequestState, PollAction))
    requires
        s != RequestState::Completed,
    ensures
        r.0 == poll_next(s, acquired),
        r.1 == poll_action(s, acquired, queued),
{
    if acquired {
        (RequestState::Completed, PollAction::Finish)
    } else {
        match s {
            RequestState::Fresh => (RequestState::Registered, PollAction::RegisterNew),
            _ => if queued {
                (RequestState::Registered, PollAction::Rebind)
            } else {
                (RequestState::Registered, PollAction::Reinsert)
            },
        }
    }
}

/// A poll inserts the handle only where it is not in the registry: the
/// request has none yet, or a release drained it. So the registry never holds
/// two entries of one request.
pub proof fn lemma_inserts_only_when_absent(s: RequestState, acquired: bool, queued: bool)
    requires
        s != RequestState::Completed,
        s == RequestState::Registered ==> queued,
    ensures
        inserts(poll_action(s, acquired, queued)) ==> s == RequestState::Fresh,
{
}

/// How many registry insertions a request makes when polled from `s` with
/// the given outcomes, one `(acquired, queued)` pair per poll, stopping once
/// it completes.
pub open spec fn insertions(s: RequestState, outcomes: Seq<(bool, bool)>) -> nat
    decreases outcomes.len(),
{
    if outcomes.len() == 0 || s == RequestState::Completed {
        0
    } else {
        (if inserts(poll_action(s, outcomes[0].0, outcomes[0].1)) { 1nat } else { 0nat })
            + insertions(poll_next(s, outcomes[0].0), outcomes.drop_first())
    }
}

/// Whether no release drained the registry between these polls: every one
/// finds the request's handle where the previous poll left it.
pub open spec fn undrained(outcomes: Seq<(bool, bool)>) -> bool {
    forall|i: int| 0 <= i < outcomes.len() ==> (#[trigger] outcomes[i]).1
}

/// A registered request that is polled again and again, with no release
/// draining the registry in between, never inserts again.
pub proof fn lemma_registered_inserts_nothing(outcomes: Seq<(bool, bool)>)
    requires
        undrained(outcomes),
    ensures
        insertions(RequestState::Registered, outcomes) == 0,
    decreases outcomes.len(),
{
    reveal_with_fuel(insertions, 2);
    if outcomes.len() > 0 {
        assert(outcomes[0].1);
        assert forall|i: int| 0 <= i < outcomes.drop_first().len() implies (#[trigger] outcomes.drop_first()[i]).1 by {
            assert(outcomes.drop_first()[i] == outcomes[i + 1]);
        }
        lemma_registered_inserts_nothing(outcomes.drop_first());
    }
}

/// However often a request is polled while the cell stays contended and no
/// release drains the registry, it inserts at most one entry.
pub proof fn lemma_single_registration(outcomes: Seq<(bool, bool)>)
    requires
        undrained(outcomes),
    ensures
        insertions(RequestState::Fresh, outcomes) <= 1,
{
    reveal_with_fuel(insertions, 2);
    if outcomes.len() > 0 {
        assert forall|i: int| 0 <= i < outcomes.drop_first().len() implies (#[trigger] outcomes.drop_first()[i]).1 by {
            assert(outcomes.drop_first()[i] == outcomes[i + 1]);
        }
        lemma_registered_inserts_nothing(outcomes.drop_first());
    }
}

/// An abstract model of the shared state of one lock, as seen between
/// atomic steps: whether the
/// cell is held, how many guards are live, the wake handles in the registry
/// (by request id), and the requests that have been woken.
pub struct LockModel {
    pub held: bool,
    pub guards: nat,
    pub waiters: Seq<nat>,
    pub woken: Set<nat>,
}

/// One atomic step on a lock.
pub enum Event {
    /// A request attempts the cell (a `try_lock`, or the first step of a poll).
    Attempt,
    /// A contended request inserts its wake handle.
    Register(nat),
    /// The live guard is dropped: release the cell, then drain and wake.
    Release,
    /// A wake handle fires outside any release (a spurious or late wake).
    Wake(nat),
}

/// A lock as created: free, no guard, empty registry.
pub open spec fn initial_model() -> LockModel {
    LockModel { held: false, guards: 0, waiters: Seq::empty(), woken: Set::empty() }
}

/// The lock's invariant: a live guard exists exactly while the cell is held,
/// and there is never more than one.
pub open spec fn model_wf(m: LockModel) -> bool {
    m.guards <= 1 && (m.guards == 1 <==> m.held)
}

/// Whether an attempt on the cell succeeds.
pub open spec fn attempt_succeeds(m: LockModel) -> bool {
    !m.held
}

/// The state after an attempt on the cell.
pub open spec fn attempt(m: LockModel) -> LockModel {
    if m.held {
        m
    } else {
        LockModel { held: true, guards: m.guards + 1, ..m }
    }
}

/// The state after a guard is dropped: the cell is released first, then the
/// registry is drained and every handle in it is woken.
pub open spec fn release(m: LockModel) -> LockModel {
    let freed = LockModel { held: false, guards: 0, ..m };
    LockModel { waiters: Seq::empty(), woken: freed.woken.union(freed.waiters.to_set()), ..freed }
}

/// The state after one step.
pub open spec fn step(m: LockModel, e: Event) -> LockModel {
    match e {
        Event::Attempt => attempt(m),
        Event::Register(id) => LockModel { waiters: m.waiters.push(id), ..m },
        Event::Release => if m.guards == 1 { release(m) } else { m },
        Event::Wake(id) => LockModel { woken: m.woken.insert(id), ..m },
    }
}

/// The state after a sequence of steps.
pub open spec fn run(m: LockModel, events: Seq<Event>) -> LockModel
    decreases events.len(),
{
    if events.len() == 0 {
        m
    } else {
        run(step(m, events[0]), events.drop_first())
    }
}

/// In the model, whatever the interleaving of attempts, registrations,
/// releases and wakes, at most one guard is live at any instant.
pub proof fn lemma_mutual_exclusion(events: Seq<Event>)
    ensures
        model_wf(run(initial_model(), events)),
        run(initial_model(), events).guards <= 1,
{
    lemma_run_keeps_wf(initial_model(), events);
}

/// Every step of the model keeps its invariant, so every run does.
pub proof fn lemma_run_keeps_wf(m: LockModel, events: Seq<Event>)
    requires
        model_wf(m),
    ensures
        model_wf(run(m, events)),
    decreases events.len(),
{
    if events.len() > 0 {
        lemma_run_keeps_wf(step(m, events[0]), events.drop_first());
    }
}

/// In the model, when a guard is released while requests wait, every one of them is woken,
/// and the first of them to re-attempt acquires the cell.
pub proof fn lemma_eventual_acquisition(m: LockModel)
    requires
        model_wf(m),
        m.held,
        m.waiters.len() > 0,
    ensures
        forall|i: int| 0 <= i < m.waiters.len() ==> step(m, Event::Release).woken.contains(
            #[trigger] m.waiters[i],
        ),
        attempt_succeeds(step(m, Event::Release)),
        attempt(step(m, Event::Release)).guards == 1,
{
    let r = step(m, Event::Release);
    assert forall|i: int| 0 <= i < m.waiters.len() implies r.woken.contains(
        #[trigger] m.waiters[i],
    ) by {
        assert(m.waiters.to_set().contains(m.waiters[i]));
    }
}

/// In the model, a release frees the cell before it wakes anyone: a registered waiter is
/// woken by the release, and its re-attempt, with no other request in
/// between, finds the cell free.
pub proof fn lemma_release_before_wake(m: LockModel, id: nat)
    requires
        model_wf(m),
        m.held,
        m.waiters.contains(id),
    ensures
        step(m, Event::Release).woken.contains(id),
        !step(m, Event::Release).held,
        attempt_succeeds(step(m, Event::Release)),
{
    assert(m.waiters.to_set().contains(id));
}

/// In the model, waking a handle outside a release (its request has completed, been
/// abandoned, or is simply woken spuriously) changes neither the cell, nor
/// the guards, nor the registry.
pub proof fn lemma_spurious_wake_harmless(m: LockModel, id: nat)
    requires
        model_wf(m),
    ensures
        model_wf(step(m, Event::Wake(id))),
        step(m, Event::Wake(id)).held == m.held,
        step(m, Event::Wake(id)).guards == m.guards,
        step(m, Event::Wake(id)).waiters == m.waiters,
{
}

/// In the model, the window this protocol leaves open: a request whose attempt failed
/// while the cell was held, and whose registration comes only after the
/// release drained the registry, sits in the registry un-woken although the
/// cell is free; only a later release wakes it.
pub proof fn lemma_late_registration_is_not_woken(m: LockModel, id: nat)
    requires
        model_wf(m),
        m.held,
        !m.woken.contains(id),
        !m.waiters.contains(id),
    ensures
        !attempt_succeeds(m),
        run(m, seq![Event::Attempt, Event::Release, Event::Register(id)]).waiters.contains(id),
        !run(m, seq![Event::Attempt, Event::Release, Event::Register(id)]).woken.contains(id),
        !run(m, seq![Event::Attempt, Event::Release, Event::Register(id)]).held,
{
    reveal_with_fuel(run, 4);
    let events = seq![Event::Attempt, Event::Release, Event::Register(id)];
    let m1 = step(m, Event::Attempt);
    let m2 = step(m1, Event::Release);
    let m3 = step(m2, Event::Register(id));
    assert(events.drop_first() =~= seq![Event::Release, Event::Register(id)]);
    assert(events.drop_first().drop_first() =~= seq![Event::Register(id)]);
    assert(events.drop_first().drop_first().drop_first() =~= Seq::<Event>::empty());
    assert(run(m, events) == m3);
    if m.waiters.to_set().contains(id) {
        assert(m.waiters.contains(id));
    }
    assert(m3.waiters[m3.waiters.len() - 1] == id);
}

} // verus!
