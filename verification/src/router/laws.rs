//! What holds of the router in every state that it can reach.

use crate::address::AddressView;
use crate::router::model::{Effect, Input, QueuedJob, RouterModel, Ticket};
use vstd::prelude::*;

verus! {

/// Where a job is on its way through the router.
pub ghost enum Phase {
    /// No driver has been found yet; the job waits in the queue.
    Queued,
    /// The candidates are being asked whether they are ready.
    Probing,
    /// A driver is working on the job.
    Dispatched,
    /// The router holds nothing of the job: it is done, was lost, or never
    /// existed.
    Gone,
}

impl RouterModel {
    /// Whether the job waits in the queue.
    pub open spec fn queued(self, job_id: u64) -> bool {
        exists|i: int| 0 <= i < self.queue.len() && #[trigger] self.queue[i].job_id == job_id
    }

    /// Whether the job is being probed for.
    pub open spec fn probing(self, job_id: u64) -> bool {
        self.probes.contains_key(job_id)
    }

    /// Whether a driver is working on the job.
    pub open spec fn dispatched(self, job_id: u64) -> bool {
        exists|n: Seq<char>| #[trigger]
            self.outstanding.contains_key(n) && self.outstanding[n].job_id == job_id
    }

    /// Whether the router holds the job anywhere.
    pub open spec fn live(self, job_id: u64) -> bool {
        self.queued(job_id) || self.probing(job_id) || self.dispatched(job_id)
    }

    /// The phase of a job.
    pub open spec fn phase(self, job_id: u64) -> Phase {
        if self.probing(job_id) {
            Phase::Probing
        } else if self.queued(job_id) {
            Phase::Queued
        } else if self.dispatched(job_id) {
            Phase::Dispatched
        } else {
            Phase::Gone
        }
    }

    /// Every job is held in one place only: it is in the queue once, or
    /// probed for, or with one driver, and never two of these.
    pub open spec fn each_job_once(self) -> bool {
        &&& forall|i: int, j: int|
            0 <= i < self.queue.len() && 0 <= j < self.queue.len() && i != j
                ==> #[trigger] self.queue[i].job_id != #[trigger] self.queue[j].job_id
        &&& forall|n: Seq<char>, m: Seq<char>|
            #![trigger self.outstanding[n], self.outstanding[m]]
            self.outstanding.contains_key(n) && self.outstanding.contains_key(m) && n != m
                ==> self.outstanding[n].job_id != self.outstanding[m].job_id
        &&& forall|job_id: u64|
            #![trigger self.queued(job_id)]
            #![trigger self.probing(job_id)]
            #![trigger self.dispatched(job_id)]
            {
                &&& !(self.queued(job_id) && self.probing(job_id))
                &&& !(self.queued(job_id) && self.dispatched(job_id))
                &&& !(self.probing(job_id) && self.dispatched(job_id))
            }
    }

    /// No driver is at once on offer and at work.
    pub open spec fn drivers_disjoint(self) -> bool {
        forall|n: Seq<char>| !(#[trigger] self.available.contains_key(n)
            && self.outstanding.contains_key(n))
    }

    /// Every probe still waits for an answer: it has counted fewer
    /// rejections than drivers were asked.
    pub open spec fn probes_pending(self) -> bool {
        forall|job_id: u64| #[trigger]
            self.probes.contains_key(job_id) ==> self.probes[job_id].num_rejections
                < self.probes[job_id].num_queried
    }

    /// Whether `input` is a driver that offers itself while the router has a
    /// job on record with it and no job waits in the queue.
    pub open spec fn offers_while_busy(self, input: Input) -> bool {
        match input {
            Input::SetIsAvailable { source, is_available, model } => is_available
                && self.queue.len() == 0 && self.outstanding.contains_key(source.node),
            _ => false,
        }
    }

    /// Whether `input` brings a new job under an id that the router already
    /// holds.
    pub open spec fn reuses_id(self, input: Input) -> bool {
        match input {
            Input::RunJob { source, job, job_id } => self.live(job_id),
            _ => false,
        }
    }
}

/// Where every job is held in one place only, every id is in exactly one of
/// the four phases: of being queued, probed for, with a driver, and gone,
/// exactly one holds.
pub proof fn law_one_phase(s: RouterModel, job_id: u64)
    requires
        s.each_job_once(),
    ensures
        s.queued(job_id) <==> s.phase(job_id) == Phase::Queued,
        s.probing(job_id) <==> s.phase(job_id) == Phase::Probing,
        s.dispatched(job_id) <==> s.phase(job_id) == Phase::Dispatched,
        !s.live(job_id) <==> s.phase(job_id) == Phase::Gone,
{
    assert(!(s.queued(job_id) && s.probing(job_id)));
    assert(!(s.queued(job_id) && s.dispatched(job_id)));
    assert(!(s.probing(job_id) && s.dispatched(job_id)));
}

/// A router that has seen nothing holds no job, no driver and no probe.
pub proof fn law_init()
    ensures
        RouterModel::init().finite(),
        RouterModel::init().each_job_once(),
        RouterModel::init().drivers_disjoint(),
        RouterModel::init().probes_pending(),
{
}

/// The router never keeps more than finitely many records.
pub proof fn law_finite(s: RouterModel, input: Input)
    requires
        s.finite(),
    ensures
        s.step(input).finite(),
{
}

/// Every live probe has fewer rejections than drivers asked, whatever
/// happens: so the count of rejections never passes the count of drivers.
pub proof fn law_probe_counts(s: RouterModel, input: Input)
    requires
        s.finite(),
        s.probes_pending(),
    ensures
        s.step(input).probes_pending(),
        forall|job_id: u64| #[trigger]
            s.step(input).probes.contains_key(job_id) ==> s.step(input).probes[job_id].num_rejections
                <= s.step(input).probes[job_id].num_queried,
{
    match input {
        Input::RunJob { source, job, job_id } => {
            let c = s.candidates(job.model);
            if !(c =~= Set::empty()) {
                assert(c.subset_of(s.available.dom()));
                vstd::set_lib::lemma_len_subset(c, s.available.dom());
                if c.len() == 0 {
                    c.lemma_len0_is_empty();
                }
            }
        },
        _ => {},
    }
}

/// A driver in the index of available drivers has no job on record, as long
/// as no driver offers itself while it has one and the queue is empty.
pub proof fn law_drivers_disjoint(s: RouterModel, input: Input)
    requires
        s.drivers_disjoint(),
        !s.offers_while_busy(input),
    ensures
        s.step(input).drivers_disjoint(),
{
}

/// Whether `input` is a new job under the id `job_id`.
pub open spec fn brings(input: Input, job_id: u64) -> bool {
    match input {
        Input::RunJob { source, job, job_id: id } => id == job_id,
        _ => false,
    }
}

/// A step makes no job live but the new one that it brings.
pub proof fn law_no_job_from_nowhere(s: RouterModel, input: Input, job_id: u64)
    requires
        s.step(input).live(job_id),
    ensures
        s.live(job_id) || brings(input, job_id),
{
    let t = s.step(input);
    if t.queued(job_id) {
        let i = choose|i: int| 0 <= i < t.queue.len() && #[trigger] t.queue[i].job_id == job_id;
        match input {
            Input::RunJob { source, job, job_id: id } => {
                if i < s.queue.len() {
                    assert(s.queue[i].job_id == job_id);
                }
            },
            Input::SetIsAvailable { source, is_available, model } => {
                if is_available && s.queue.len() > 0 {
                    assert(s.queue[i + 1].job_id == job_id);
                } else {
                    assert(s.queue[i].job_id == job_id);
                }
            },
            Input::QueryReady { source, client, job_id: id, is_ready } => {
                if i < s.queue.len() {
                    assert(s.queue[i].job_id == job_id);
                }
            },
            Input::ProbeLost { client, job_id: id } => {
                if i < s.queue.len() {
                    assert(s.queue[i].job_id == job_id);
                }
            },
            _ => {
                assert(s.queue[i].job_id == job_id);
            },
        }
    } else if t.dispatched(job_id) {
        let n = choose|n: Seq<char>| #[trigger]
            t.outstanding.contains_key(n) && t.outstanding[n].job_id == job_id;
        match input {
            Input::SetIsAvailable { source, is_available, model } => {
                if is_available && s.queue.len() > 0 && n == source.node {
                    assert(s.queue[0].job_id == job_id);
                } else {
                    assert(s.outstanding.contains_key(n));
                }
            },
            Input::QueryReady { source, client, job_id: id, is_ready } => {
                if is_ready && s.probes.contains_key(id) && n == source.node {
                } else {
                    assert(s.outstanding.contains_key(n));
                }
            },
            _ => {
                assert(s.outstanding.contains_key(n));
            },
        }
    }
}

/// Every job is held in one place only, as long as no new job comes under
/// an id that the router already holds. So every id is in exactly one of
/// the four phases.
pub proof fn law_each_job_once(s: RouterModel, input: Input)
    requires
        s.each_job_once(),
        !s.reuses_id(input),
    ensures
        s.step(input).each_job_once(),
{
    let t = s.step(input);
    assert forall|i: int, j: int|
        0 <= i < t.queue.len() && 0 <= j < t.queue.len() && i != j implies #[trigger] t.queue[i].job_id
        != #[trigger] t.queue[j].job_id by {
        lemma_queue_once(s, input, i, j);
    }
    assert forall|n: Seq<char>, m: Seq<char>|
        #![trigger t.outstanding[n], t.outstanding[m]]
        t.outstanding.contains_key(n) && t.outstanding.contains_key(m) && n != m implies t.outstanding[n].job_id
        != t.outstanding[m].job_id by {
        lemma_driver_once(s, input, n, m);
    }
    assert forall|job_id: u64|
        #![trigger t.queued(job_id)]
        #![trigger t.probing(job_id)]
        #![trigger t.dispatched(job_id)]
        {
            &&& !(t.queued(job_id) && t.probing(job_id))
            &&& !(t.queued(job_id) && t.dispatched(job_id))
            &&& !(t.probing(job_id) && t.dispatched(job_id))
        } by {
        lemma_one_place(s, input, job_id);
    }
}

/// What a step does to the queue: nothing, or it takes the head, or it adds
/// one job at the back.
pub open spec fn queue_moves(s: RouterModel, t: RouterModel) -> bool {
    ||| t.queue == s.queue
    ||| s.queue.len() > 0 && t.queue == s.queue.drop_first()
    ||| t.queue.len() > 0 && t.queue.drop_last() == s.queue
}

/// The queue is first in, first out: a step leaves it alone, takes the job
/// at its head, or adds a job at its back. Nothing else is taken out or put
/// in, and nothing changes place.
pub proof fn law_queue_fifo(s: RouterModel, input: Input)
    ensures
        queue_moves(s, s.step(input)),
{
    let t = s.step(input);
    match input {
        Input::RunJob { source, job, job_id } => {
            assert(t.queue == s.queue || t.queue.drop_last() =~= s.queue);
        },
        Input::QueryReady { source, client, job_id, is_ready } => {
            assert(t.queue == s.queue || t.queue.drop_last() =~= s.queue);
        },
        Input::ProbeLost { client, job_id } => {
            assert(t.queue == s.queue || t.queue.drop_last() =~= s.queue);
        },
        _ => {},
    }
}

proof fn lemma_queue_once(s: RouterModel, input: Input, i: int, j: int)
    requires
        s.each_job_once(),
        !s.reuses_id(input),
        0 <= i < s.step(input).queue.len(),
        0 <= j < s.step(input).queue.len(),
        i != j,
    ensures
        s.step(input).queue[i].job_id != s.step(input).queue[j].job_id,
{
    let t = s.step(input);
    law_queue_fifo(s, input);
    if t.queue == s.queue {
    } else if s.queue.len() > 0 && t.queue == s.queue.drop_first() {
        assert(t.queue[i] == s.queue[i + 1]);
        assert(t.queue[j] == s.queue[j + 1]);
    } else {
        assert(t.queue.drop_last() == s.queue);
        let last = t.queue.len() - 1;
        if i < last {
            assert(t.queue.drop_last()[i] == t.queue[i]);
        }
        if j < last {
            assert(t.queue.drop_last()[j] == t.queue[j]);
        }
        if i == last || j == last {
            let k = if i == last { j } else { i };
            let id = t.queue[last].job_id;
            assert(s.queue[k] == t.queue[k]);
            if s.queue[k].job_id == id {
                assert(s.queued(id));
                match input {
                    Input::RunJob { source, job, job_id } => {
                        assert(job_id == id);
                    },
                    Input::QueryReady { source, client, job_id, is_ready } => {
                        assert(job_id == id);
                        assert(s.probing(id));
                    },
                    Input::ProbeLost { client, job_id } => {
                        assert(job_id == id);
                        assert(s.probing(id));
                    },
                    _ => {},
                }
            }
        }
    }
}

proof fn lemma_driver_once(s: RouterModel, input: Input, n: Seq<char>, m: Seq<char>)
    requires
        s.each_job_once(),
        !s.reuses_id(input),
        s.step(input).outstanding.contains_key(n),
        s.step(input).outstanding.contains_key(m),
        n != m,
    ensures
        s.step(input).outstanding[n].job_id != s.step(input).outstanding[m].job_id,
{
    let t = s.step(input);
    match input {
        Input::SetIsAvailable { source, is_available, model } => {
            if is_available && s.queue.len() > 0 {
                let id = s.queue[0].job_id;
                assert(s.queued(id));
                if n == source.node {
                    assert(s.outstanding.contains_key(m));
                    if s.outstanding[m].job_id == id {
                        assert(s.dispatched(id));
                    }
                } else if m == source.node {
                    assert(s.outstanding.contains_key(n));
                    if s.outstanding[n].job_id == id {
                        assert(s.dispatched(id));
                    }
                } else {
                    assert(s.outstanding[n].job_id != s.outstanding[m].job_id);
                }
            } else {
                assert(s.outstanding[n].job_id != s.outstanding[m].job_id);
            }
        },
        Input::QueryReady { source, client, job_id, is_ready } => {
            if is_ready && s.probes.contains_key(job_id) {
                assert(s.probing(job_id));
                if n == source.node {
                    assert(s.outstanding.contains_key(m));
                    if s.outstanding[m].job_id == job_id {
                        assert(s.dispatched(job_id));
                    }
                } else if m == source.node {
                    assert(s.outstanding.contains_key(n));
                    if s.outstanding[n].job_id == job_id {
                        assert(s.dispatched(job_id));
                    }
                } else {
                    assert(s.outstanding[n].job_id != s.outstanding[m].job_id);
                }
            } else {
                assert(s.outstanding[n].job_id != s.outstanding[m].job_id);
            }
        },
        _ => {
            assert(s.outstanding.contains_key(n) && s.outstanding.contains_key(m));
            assert(s.outstanding[n].job_id != s.outstanding[m].job_id);
        },
    }
}

proof fn lemma_one_place(s: RouterModel, input: Input, job_id: u64)
    requires
        s.each_job_once(),
        !s.reuses_id(input),
    ensures
        !(s.step(input).queued(job_id) && s.step(input).probing(job_id)),
        !(s.step(input).queued(job_id) && s.step(input).dispatched(job_id)),
        !(s.step(input).probing(job_id) && s.step(input).dispatched(job_id)),
{
    let t = s.step(input);
    assert(!(s.queued(job_id) && s.probing(job_id)));
    assert(!(s.queued(job_id) && s.dispatched(job_id)));
    assert(!(s.probing(job_id) && s.dispatched(job_id)));
    if t.queued(job_id) {
        let i = choose|i: int| 0 <= i < t.queue.len() && #[trigger] t.queue[i].job_id == job_id;
        lemma_queued_from(s, input, job_id);
    }
    if t.dispatched(job_id) {
        lemma_dispatched_from(s, input, job_id);
    }
    if t.probing(job_id) {
        match input {
            Input::RunJob { source, job, job_id: id } => {
                if id != job_id {
                    assert(s.probing(job_id));
                }
            },
            _ => {
                assert(s.probing(job_id));
            },
        }
    }
    if t.queued(job_id) && t.dispatched(job_id) {
        // A job enters the queue only from a probe or from outside, and a
        // driver only from the queue's head or from a probe.
        match input {
            Input::SetIsAvailable { source, is_available, model } => {
                if is_available && s.queue.len() > 0 {
                    let i = choose|i: int|
                        0 <= i < t.queue.len() && #[trigger] t.queue[i].job_id == job_id;
                    assert(t.queue[i] == s.queue[i + 1]);
                    assert(s.queued(job_id));
                    let n = choose|n: Seq<char>| #[trigger]
                        t.outstanding.contains_key(n) && t.outstanding[n].job_id == job_id;
                    if n == source.node {
                        assert(s.queue[0].job_id == job_id);
                        assert(s.queue[i + 1].job_id != s.queue[0].job_id);
                    } else {
                        assert(s.outstanding.contains_key(n));
                        assert(s.dispatched(job_id));
                    }
                }
            },
            _ => {},
        }
    }
}

/// Where a job that is in the queue after a step was before it.
proof fn lemma_queued_from(s: RouterModel, input: Input, job_id: u64)
    requires
        s.step(input).queued(job_id),
    ensures
        match input {
            Input::RunJob { source, job, job_id: id } => s.queued(job_id) || (id == job_id
                && s.step(input).probes == s.probes && s.step(input).outstanding
                == s.outstanding),
            Input::QueryReady { source, client, job_id: id, is_ready } => s.queued(job_id) || (id
                == job_id && s.probing(job_id) && !s.step(input).probing(job_id)
                && s.step(input).outstanding == s.outstanding),
            Input::ProbeLost { client, job_id: id } => s.queued(job_id) || (id == job_id
                && s.probing(job_id) && !s.step(input).probing(job_id)
                && s.step(input).outstanding == s.outstanding),
            _ => s.queued(job_id),
        },
{
    let t = s.step(input);
    let i = choose|i: int| 0 <= i < t.queue.len() && #[trigger] t.queue[i].job_id == job_id;
    match input {
        Input::RunJob { source, job, job_id: id } => {
            if i < s.queue.len() {
                assert(s.queue[i].job_id == job_id);
            }
        },
        Input::SetIsAvailable { source, is_available, model } => {
            if is_available && s.queue.len() > 0 {
                assert(s.queue[i + 1].job_id == job_id);
            } else {
                assert(s.queue[i].job_id == job_id);
            }
        },
        Input::QueryReady { source, client, job_id: id, is_ready } => {
            if i < s.queue.len() {
                assert(s.queue[i].job_id == job_id);
            }
        },
        Input::ProbeLost { client, job_id: id } => {
            if i < s.queue.len() {
                assert(s.queue[i].job_id == job_id);
            }
        },
        _ => {
            assert(s.queue[i].job_id == job_id);
        },
    }
}

/// Where a job that is with a driver after a step was before it.
proof fn lemma_dispatched_from(s: RouterModel, input: Input, job_id: u64)
    requires
        s.step(input).dispatched(job_id),
    ensures
        match input {
            Input::SetIsAvailable { source, is_available, model } => s.dispatched(job_id) || (
            is_available && s.queue.len() > 0 && s.queue[0].job_id == job_id && s.step(
                input,
            ).probes == s.probes),
            Input::QueryReady { source, client, job_id: id, is_ready } => s.dispatched(job_id) || (
            is_ready && id == job_id && s.probing(job_id) && !s.step(input).probing(job_id)
                && s.step(input).queue == s.queue),
            _ => s.dispatched(job_id),
        },
{
    let t = s.step(input);
    let n = choose|n: Seq<char>| #[trigger]
        t.outstanding.contains_key(n) && t.outstanding[n].job_id == job_id;
    match input {
        Input::SetIsAvailable { source, is_available, model } => {
            if is_available && s.queue.len() > 0 && n == source.node {
            } else {
                assert(s.outstanding.contains_key(n));
            }
        },
        Input::QueryReady { source, client, job_id: id, is_ready } => {
            if is_ready && s.probes.contains_key(id) && n == source.node {
            } else {
                assert(s.outstanding.contains_key(n));
            }
        },
        _ => {
            assert(s.outstanding.contains_key(n));
        },
    }
}

/// The state after the inputs of `inputs`, one after the other.
pub open spec fn run(s: RouterModel, inputs: Seq<Input>) -> RouterModel
    decreases inputs.len(),
{
    if inputs.len() == 0 {
        s
    } else {
        run(s, inputs.drop_last()).step(inputs.last())
    }
}

/// The state in which the router meets the input at place `k`.
pub open spec fn state_at(s: RouterModel, inputs: Seq<Input>, k: int) -> RouterModel {
    run(s, inputs.take(k))
}

/// The driver node that an input comes from, if it comes from a driver.
pub open spec fn driver_of(input: Input) -> Set<Seq<char>> {
    match input {
        Input::SetIsAvailable { source, is_available, model } => set![source.node],
        Input::JobUpdate { source, update } => set![source.node],
        Input::QueryReady { source, client, job_id, is_ready } => set![source.node],
        _ => Set::empty(),
    }
}

/// The driver nodes that the inputs come from.
pub open spec fn drivers_seen(inputs: Seq<Input>) -> Set<Seq<char>>
    decreases inputs.len(),
{
    if inputs.len() == 0 {
        Set::empty()
    } else {
        drivers_seen(inputs.drop_last()).union(driver_of(inputs.last()))
    }
}

/// The router has jobs on record only with drivers that it has heard from:
/// after any run from the start there are at most as many outstanding jobs
/// as distinct driver nodes seen.
pub proof fn law_outstanding_bounded(inputs: Seq<Input>)
    ensures
        run(RouterModel::init(), inputs).outstanding.dom().subset_of(drivers_seen(inputs)),
        drivers_seen(inputs).finite(),
        run(RouterModel::init(), inputs).outstanding.len() <= drivers_seen(inputs).len(),
    decreases inputs.len(),
{
    if inputs.len() > 0 {
        law_outstanding_bounded(inputs.drop_last());
    }
    vstd::set_lib::lemma_len_subset(
        run(RouterModel::init(), inputs).outstanding.dom(),
        drivers_seen(inputs),
    );
}

/// The job whose final update a step sends to its client, if it sends one.
pub open spec fn delivers(s: RouterModel, input: Input) -> Option<u64> {
    match input {
        Input::JobUpdate { source, update } => if s.outstanding.contains_key(source.node)
            && update.is_final {
            Some(update.job_id)
        } else {
            None
        },
        Input::JobLost { driver, job_id } => if s.is_working_on(driver, job_id) {
            Some(job_id)
        } else {
            None
        },
        _ => None,
    }
}

/// Whether an effect sends the last word on `job_id` to a client.
pub open spec fn is_final_for(effect: Effect, job_id: u64) -> bool {
    match effect {
        Effect::Forward { client, update, driver, job_id: on_record, timeout_seconds } => {
            update.is_final && update.job_id == job_id
        },
        Effect::Abandon { client, update } => update.job_id == job_id,
        _ => false,
    }
}

/// Whether a driver's update names the job that the router has on record
/// with that driver.
pub open spec fn names_its_job(s: RouterModel, input: Input) -> bool {
    match input {
        Input::JobUpdate { source, update } => s.outstanding.contains_key(source.node)
            ==> update.job_id == s.outstanding[source.node].job_id,
        _ => true,
    }
}

/// The ids of the new jobs among the inputs.
pub open spec fn issued(inputs: Seq<Input>) -> Set<u64> {
    Set::new(|job_id: u64| exists|k: int| 0 <= k < inputs.len() && brings(#[trigger] inputs[k], job_id))
}

/// Whether the input at place `k`, if it is a new job, comes under an id
/// that the router did not hold at the start and has not given out since.
pub open spec fn fresh_at(s: RouterModel, inputs: Seq<Input>, k: int) -> bool {
    match inputs[k] {
        Input::RunJob { source, job, job_id } => !s.live(job_id) && !issued(
            inputs.take(k),
        ).contains(job_id),
        _ => true,
    }
}

/// Every new job comes under an id that the router does not hold and has
/// not given out before, and every update names the job on record.
pub open spec fn well_behaved(s: RouterModel, inputs: Seq<Input>) -> bool {
    &&& forall|k: int|
        0 <= k < inputs.len() ==> names_its_job(#[trigger] state_at(s, inputs, k), inputs[k])
    &&& forall|k: int| 0 <= k < inputs.len() ==> #[trigger] fresh_at(s, inputs, k)
}

/// Within one step the router sends at most one final update for a job, and
/// only for the job that the step delivers.
pub proof fn law_one_final_per_step(
    s: RouterModel,
    input: Input,
    order: Seq<Seq<char>>,
    job_id: u64,
    i: int,
    j: int,
)
    requires
        0 <= i < s.effects(input, order).len(),
        0 <= j < s.effects(input, order).len(),
        is_final_for(s.effects(input, order)[i], job_id),
        is_final_for(s.effects(input, order)[j], job_id),
    ensures
        i == j,
        delivers(s, input) == Some(job_id),
{
}

/// A step that delivers a job sends a final update for it.
pub proof fn law_delivery_is_sent(s: RouterModel, input: Input, order: Seq<Seq<char>>)
    requires
        delivers(s, input) is Some,
    ensures
        s.effects(input, order).len() > 0,
        is_final_for(s.effects(input, order)[0], delivers(s, input)->Some_0),
{
}

proof fn lemma_prefix(s: RouterModel, inputs: Seq<Input>, k: int)
    requires
        0 <= k < inputs.len(),
    ensures
        state_at(s, inputs.drop_last(), k) == state_at(s, inputs, k) || k == inputs.len() - 1,
        state_at(s, inputs, inputs.len() - 1) == run(s, inputs.drop_last()),
        issued(inputs.drop_last().take(k)) == issued(inputs.take(k)) || k == inputs.len() - 1,
{
    assert(inputs.take(inputs.len() - 1) =~= inputs.drop_last());
    if k < inputs.len() - 1 {
        assert(inputs.drop_last().take(k) =~= inputs.take(k));
    }
}

proof fn lemma_well_behaved_prefix(s: RouterModel, inputs: Seq<Input>)
    requires
        inputs.len() > 0,
        well_behaved(s, inputs),
    ensures
        well_behaved(s, inputs.drop_last()),
{
    let prefix = inputs.drop_last();
    assert forall|k: int| 0 <= k < prefix.len() implies names_its_job(
        #[trigger] state_at(s, prefix, k),
        prefix[k],
    ) by {
        lemma_prefix(s, inputs, k);
        assert(prefix[k] == inputs[k]);
        assert(names_its_job(state_at(s, inputs, k), inputs[k]));
    }
    assert forall|k: int| 0 <= k < prefix.len() implies #[trigger] fresh_at(s, prefix, k) by {
        lemma_prefix(s, inputs, k);
        assert(prefix[k] == inputs[k]);
        assert(fresh_at(s, inputs, k));
    }
}

/// Whether the step at place `k` of the run delivers `job_id`.
pub open spec fn delivered_at(s: RouterModel, inputs: Seq<Input>, k: int, job_id: u64) -> bool {
    delivers(state_at(s, inputs, k), inputs[k]) == Some(job_id)
}

/// What a well-behaved run keeps true of jobs and deliveries.
proof fn lemma_ledger(s: RouterModel, inputs: Seq<Input>)
    requires
        s.each_job_once(),
        well_behaved(s, inputs),
    ensures
        run(s, inputs).each_job_once(),
        forall|job_id: u64| #[trigger]
            run(s, inputs).live(job_id) ==> s.live(job_id) || issued(inputs).contains(job_id),
        forall|k: int, job_id: u64|
            0 <= k < inputs.len() && #[trigger] delivered_at(s, inputs, k, job_id) ==> !run(
                s,
                inputs,
            ).live(job_id) && (s.live(job_id) || issued(inputs).contains(job_id)),
        forall|k1: int, k2: int|
            0 <= k1 < inputs.len() && 0 <= k2 < inputs.len() && delivers(
                state_at(s, inputs, k1),
                inputs[k1],
            ) is Some && #[trigger] delivers(state_at(s, inputs, k1), inputs[k1])
                == #[trigger] delivers(state_at(s, inputs, k2), inputs[k2]) ==> k1 == k2,
    decreases inputs.len(),
{
    if inputs.len() == 0 {
        return ;
    }
    let prefix = inputs.drop_last();
    let last = inputs.last();
    let n = inputs.len() - 1;
    lemma_well_behaved_prefix(s, inputs);
    lemma_ledger(s, prefix);
    let before = run(s, prefix);
    let after = run(s, inputs);
    lemma_prefix(s, inputs, n);
    assert(inputs[n] == last);
    assert(names_its_job(state_at(s, inputs, n), inputs[n]));
    assert(names_its_job(before, last));
    assert(inputs.take(n) =~= prefix);
    // The last input brings no id that the router holds.
    assert(!before.reuses_id(last)) by {
        if let Input::RunJob { source, job, job_id } = last {
            assert(fresh_at(s, inputs, n));
            assert(!issued(inputs.take(n)).contains(job_id));
            if before.live(job_id) {
                assert(s.live(job_id) || issued(prefix).contains(job_id));
            }
        }
    }
    law_each_job_once(before, last);
    assert forall|job_id: u64| #[trigger] after.live(job_id) implies s.live(job_id) || issued(
        inputs,
    ).contains(job_id) by {
        law_no_job_from_nowhere(before, last, job_id);
        if before.live(job_id) {
            if issued(prefix).contains(job_id) {
                lemma_issued_grows(inputs, job_id);
            }
        } else {
            assert(brings(inputs[n], job_id));
        }
    }
    assert forall|k: int, job_id: u64|
        0 <= k < inputs.len() && #[trigger] delivered_at(
            s,
            inputs,
            k,
            job_id,
        ) implies !after.live(job_id) && (s.live(job_id) || issued(inputs).contains(job_id)) by {
        lemma_prefix(s, inputs, k);
        if k < n {
            assert(inputs[k] == prefix[k]);
            assert(delivered_at(s, prefix, k, job_id));
            assert(!before.live(job_id));
            assert(s.live(job_id) || issued(prefix).contains(job_id));
            if issued(prefix).contains(job_id) {
                lemma_issued_grows(inputs, job_id);
            }
            if after.live(job_id) {
                law_no_job_from_nowhere(before, last, job_id);
                assert(brings(last, job_id));
                assert(fresh_at(s, inputs, n));
            }
        } else {
            assert(delivers(before, last) == Some(job_id));
            lemma_delivered_is_gone(before, last, job_id);
            assert(run(s, prefix).live(job_id));
            assert(s.live(job_id) || issued(prefix).contains(job_id));
            if issued(prefix).contains(job_id) {
                lemma_issued_grows(inputs, job_id);
            }
        }
    }
    assert forall|k1: int, k2: int|
        0 <= k1 < inputs.len() && 0 <= k2 < inputs.len() && delivers(
            state_at(s, inputs, k1),
            inputs[k1],
        ) is Some && #[trigger] delivers(state_at(s, inputs, k1), inputs[k1])
            == #[trigger] delivers(state_at(s, inputs, k2), inputs[k2]) implies k1 == k2 by {
        lemma_prefix(s, inputs, k1);
        lemma_prefix(s, inputs, k2);
        let job_id = delivers(state_at(s, inputs, k1), inputs[k1])->Some_0;
        if k1 < n && k2 < n {
            assert(inputs[k1] == prefix[k1]);
            assert(inputs[k2] == prefix[k2]);
        } else if k1 < n || k2 < n {
            let k = if k1 < n { k1 } else { k2 };
            assert(inputs[k] == prefix[k]);
            assert(delivered_at(s, prefix, k, job_id));
            assert(!before.live(job_id));
            lemma_delivered_is_gone(before, last, job_id);
        }
    }
}

proof fn lemma_issued_grows(inputs: Seq<Input>, job_id: u64)
    requires
        inputs.len() > 0,
        issued(inputs.drop_last()).contains(job_id),
    ensures
        issued(inputs).contains(job_id),
{
    let prefix = inputs.drop_last();
    let k = choose|k: int| 0 <= k < prefix.len() && brings(#[trigger] prefix[k], job_id);
    assert(inputs[k] == prefix[k]);
}

/// A job that a step delivers was with a driver before the step and is
/// nowhere after it.
proof fn lemma_delivered_is_gone(s: RouterModel, input: Input, job_id: u64)
    requires
        s.each_job_once(),
        names_its_job(s, input),
        delivers(s, input) == Some(job_id),
    ensures
        s.live(job_id),
        !s.step(input).live(job_id),
{
    let t = s.step(input);
    let driver = match input {
        Input::JobUpdate { source, update } => source.node,
        Input::JobLost { driver, job_id } => driver,
        _ => arbitrary(),
    };
    assert(s.outstanding.contains_key(driver) && s.outstanding[driver].job_id == job_id);
    assert(s.dispatched(job_id));
    assert(!s.queued(job_id) && !s.probing(job_id));
    assert(t.queue == s.queue);
    assert(t.probes == s.probes);
    if t.dispatched(job_id) {
        let n = choose|n: Seq<char>| #[trigger]
            t.outstanding.contains_key(n) && t.outstanding[n].job_id == job_id;
        assert(s.outstanding.contains_key(n) && n != driver);
        assert(s.outstanding[n].job_id != s.outstanding[driver].job_id);
    }
}

/// At most once: in a run in which every new job comes under a fresh id and
/// every update names the job on record, the router sends a final update
/// for a job to its client in at most one step, and in that step once.
pub proof fn law_at_most_once(
    s: RouterModel,
    inputs: Seq<Input>,
    orders: Seq<Seq<Seq<char>>>,
    job_id: u64,
    k1: int,
    i1: int,
    k2: int,
    i2: int,
)
    requires
        s.each_job_once(),
        well_behaved(s, inputs),
        orders.len() == inputs.len(),
        0 <= k1 < inputs.len(),
        0 <= k2 < inputs.len(),
        0 <= i1 < state_at(s, inputs, k1).effects(inputs[k1], orders[k1]).len(),
        0 <= i2 < state_at(s, inputs, k2).effects(inputs[k2], orders[k2]).len(),
        is_final_for(state_at(s, inputs, k1).effects(inputs[k1], orders[k1])[i1], job_id),
        is_final_for(state_at(s, inputs, k2).effects(inputs[k2], orders[k2])[i2], job_id),
    ensures
        k1 == k2,
        i1 == i2,
{
    let s1 = state_at(s, inputs, k1);
    let s2 = state_at(s, inputs, k2);
    law_one_final_per_step(s1, inputs[k1], orders[k1], job_id, i1, i1);
    law_one_final_per_step(s2, inputs[k2], orders[k2], job_id, i2, i2);
    lemma_ledger(s, inputs);
    assert(delivers(s1, inputs[k1]) == delivers(s2, inputs[k2]));
    assert(k1 == k2);
    law_one_final_per_step(s1, inputs[k1], orders[k1], job_id, i1, i2);
}

/// A well-behaved run keeps every job in one place only.
pub proof fn law_run_each_job_once(s: RouterModel, inputs: Seq<Input>)
    requires
        s.each_job_once(),
        well_behaved(s, inputs),
    ensures
        run(s, inputs).each_job_once(),
{
    lemma_ledger(s, inputs);
}

/// Whether a job may pass from phase `p` to phase `q` in one step.
pub open spec fn may_follow(p: Phase, q: Phase) -> bool {
    p == q || match (p, q) {
        (Phase::Gone, Phase::Probing) => true,
        (Phase::Gone, Phase::Queued) => true,
        (Phase::Probing, Phase::Queued) => true,
        (Phase::Probing, Phase::Dispatched) => true,
        (Phase::Queued, Phase::Dispatched) => true,
        (Phase::Dispatched, Phase::Gone) => true,
        _ => false,
    }
}

/// A job moves through its phases in one direction: it comes in as queued
/// or probing, a probe ends in the queue or with a driver, the queue leads
/// to a driver, and from a driver the job goes for good.
pub proof fn law_phase_moves(s: RouterModel, input: Input, job_id: u64)
    requires
        s.each_job_once(),
        !s.reuses_id(input),
    ensures
        may_follow(s.phase(job_id), s.step(input).phase(job_id)),
{
    let t = s.step(input);
    law_each_job_once(s, input);
    assert(!(s.queued(job_id) && s.probing(job_id)));
    assert(!(s.queued(job_id) && s.dispatched(job_id)));
    assert(!(s.probing(job_id) && s.dispatched(job_id)));
    assert(!(t.queued(job_id) && t.probing(job_id)));
    assert(!(t.queued(job_id) && t.dispatched(job_id)));
    assert(!(t.probing(job_id) && t.dispatched(job_id)));
    if t.live(job_id) {
        law_no_job_from_nowhere(s, input, job_id);
    }
    if t.queued(job_id) {
        lemma_queued_from(s, input, job_id);
    }
    if t.dispatched(job_id) {
        lemma_dispatched_from(s, input, job_id);
        if let Input::SetIsAvailable { source, is_available, model } = input {
            if !s.dispatched(job_id) {
                assert(s.queued(job_id));
            }
        }
    }
    if s.queued(job_id) && !t.queued(job_id) {
        let i = choose|i: int| 0 <= i < s.queue.len() && #[trigger] s.queue[i].job_id == job_id;
        law_queue_fifo(s, input);
        if t.queue == s.queue {
            assert(t.queue[i].job_id == job_id);
        } else if s.queue.len() > 0 && t.queue == s.queue.drop_first() {
            if i > 0 {
                assert(t.queue[i - 1].job_id == job_id);
            } else {
                match input {
                    Input::SetIsAvailable { source, is_available, model } => {
                        assert(t.outstanding.contains_key(source.node));
                        assert(t.outstanding[source.node].job_id == job_id);
                        assert(t.dispatched(job_id));
                    },
                    _ => {
                        assert(t.queue.len() >= s.queue.len());
                    },
                }
            }
        } else {
            assert(t.queue.drop_last()[i] == t.queue[i]);
            assert(t.queue[i].job_id == job_id);
        }
    }
    if s.probing(job_id) && !t.probing(job_id) {
        match input {
            Input::QueryReady { source, client, job_id: id, is_ready } => {
                if is_ready {
                    assert(t.outstanding.contains_key(source.node));
                    assert(t.outstanding[source.node].job_id == job_id);
                    assert(t.dispatched(job_id));
                } else {
                    assert(t.queue[t.queue.len() - 1].job_id == job_id);
                    assert(t.queued(job_id));
                }
            },
            Input::ProbeLost { client, job_id: id } => {
                assert(t.queue[t.queue.len() - 1].job_id == job_id);
                assert(t.queued(job_id));
            },
            _ => {},
        }
    }
    if t.probing(job_id) && !s.probing(job_id) {
        assert(brings(input, job_id));
    }
}

/// Whether place `i` holds the oldest job in the queue that asks for
/// `model`.
pub open spec fn oldest_for(queue: Seq<QueuedJob>, model: Seq<char>, i: int) -> bool {
    &&& 0 <= i < queue.len()
    &&& queue[i].job.model == model
    &&& forall|j: int| 0 <= j < i ==> (#[trigger] queue[j]).job.model != model
}

/// When a driver offers itself and a job waits, the job at the head of the
/// queue is the one sent to it, and the rest of the queue keeps its order.
/// Where the head asks for the driver's model, it is the oldest job that
/// does.
pub proof fn law_head_is_served(s: RouterModel, source: AddressView, model: Seq<char>)
    requires
        s.queue.len() > 0,
    ensures
        ({
            let input = Input::SetIsAvailable { source, is_available: true, model };
            let head = s.queue[0];
            &&& s.effects(input, Seq::empty())[0] == Effect::Dispatch {
                driver: source,
                job_id: head.job_id,
                job: head.job,
                timeout_seconds: s.serve_timeout_seconds as u64,
            }
            &&& s.step(input).queue == s.queue.drop_first()
            &&& s.step(input).outstanding.contains_key(source.node)
            &&& s.step(input).outstanding[source.node] == Ticket {
                client: head.client,
                job_id: head.job_id,
            }
            &&& head.job.model == model ==> oldest_for(s.queue, model, 0)
        }),
{
}

/// Whether the router writes its state to storage in answer to `input`.
pub open spec fn persists(s: RouterModel, input: Input) -> bool {
    match input {
        Input::RunJob { source, job, job_id } => true,
        Input::SetIsAvailable { source, is_available, model } => true,
        Input::JobUpdate { source, update } => s.outstanding.contains_key(source.node)
            && update.is_final,
        Input::QueryReady { source, client, job_id, is_ready } => s.probes.contains_key(job_id),
        Input::ProbeLost { client, job_id } => s.probes.contains_key(job_id),
        Input::JobLost { driver, job_id } => s.is_working_on(driver, job_id),
        Input::Quiet => false,
    }
}

/// The router writes its state to storage in every step that changes it,
/// and the write is among the effects of exactly the steps that persist.
pub proof fn law_persist_on_change(s: RouterModel, input: Input, order: Seq<Seq<char>>)
    ensures
        s.step(input) != s ==> persists(s, input),
        persists(s, input) <==> s.effects(input, order).contains(Effect::Persist),
{
    let effects = s.effects(input, order);
    if persists(s, input) {
        match input {
            Input::RunJob { source, job, job_id } => {
                assert(effects[effects.len() - 1] == Effect::Persist);
            },
            Input::SetIsAvailable { source, is_available, model } => {
                if is_available && s.queue.len() > 0 {
                    assert(effects[1] == Effect::Persist);
                } else {
                    assert(effects[0] == Effect::Persist);
                }
            },
            Input::JobUpdate { source, update } => {
                assert(effects[1] == Effect::Persist);
            },
            Input::QueryReady { source, client, job_id, is_ready } => {
                if is_ready {
                    assert(effects[1] == Effect::Persist);
                } else {
                    assert(effects[0] == Effect::Persist);
                }
            },
            Input::ProbeLost { client, job_id } => {
                assert(effects[0] == Effect::Persist);
            },
            Input::JobLost { driver, job_id } => {
                assert(effects[1] == Effect::Persist);
            },
            Input::Quiet => {},
        }
    }
}

/// What storage holds after a run, if it held `s` at the start: the state
/// after the last step that wrote to it.
pub open spec fn stored(s: RouterModel, inputs: Seq<Input>) -> RouterModel
    decreases inputs.len(),
{
    if inputs.len() == 0 {
        s
    } else if persists(run(s, inputs.drop_last()), inputs.last()) {
        run(s, inputs)
    } else {
        stored(s, inputs.drop_last())
    }
}

/// After every message storage holds the router's state as it is, so a
/// router that stops and starts again from storage goes on where it
/// stopped, with the queue, the index and the records as they were.
pub proof fn law_restart(s: RouterModel, inputs: Seq<Input>)
    ensures
        stored(s, inputs) == run(s, inputs),
    decreases inputs.len(),
{
    if inputs.len() > 0 {
        law_restart(s, inputs.drop_last());
        law_persist_on_change(run(s, inputs.drop_last()), inputs.last(), Seq::empty());
    }
}

/// With nothing in the queue, a driver that offers itself again changes
/// nothing more: once it is in the index with its model, the offer leaves
/// the state as it is.
pub proof fn law_reassert(s: RouterModel, source: AddressView, model: Seq<char>)
    requires
        s.queue.len() == 0,
    ensures
        ({
            let input = Input::SetIsAvailable { source, is_available: true, model };
            &&& s.step(input).step(input) == s.step(input)
            &&& s.available.contains_key(source.node) && s.available[source.node] == model
                ==> s.step(input) == s
        }),
{
    let input = Input::SetIsAvailable { source, is_available: true, model };
    let t = s.step(input);
    assert(t.step(input).available =~= t.available);
    if s.available.contains_key(source.node) && s.available[source.node] == model {
        assert(t.available =~= s.available);
    }
}

} // verus!
