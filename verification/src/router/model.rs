//! The router as a mathematical state machine.
//!
//! A [`RouterModel`] is the router's state with every string taken by its
//! content; an [`Input`] is one thing that can happen to the router; `step`
//! says what the state is afterwards and `effects` what the router does in
//! answer.

use crate::address::{AddressView, ProcessIdView};
use crate::envelope::{JobSpec, JobUpdate};
use vstd::prelude::*;

verus! {

/// A job waiting in the queue, with the client it belongs to.
pub ghost struct QueuedJob {
    pub client: AddressView,
    pub job_id: u64,
    pub job: JobSpec,
}

/// The job a driver is working on, with the client it belongs to.
pub ghost struct Ticket {
    pub client: AddressView,
    pub job_id: u64,
}

/// A readiness sweep in flight: the job, its client, how many drivers were
/// asked and how many of them have said no.
pub ghost struct Probe {
    pub job: JobSpec,
    pub client: AddressView,
    pub num_rejections: u32,
    pub num_queried: u32,
}

/// The router's state.
pub ghost struct RouterModel {
    pub driver_process_id: Option<ProcessIdView>,
    pub available: Map<Seq<char>, Seq<char>>,
    pub outstanding: Map<Seq<char>, Ticket>,
    pub queue: Seq<QueuedJob>,
    pub probes: Map<u64, Probe>,
    pub queue_response_timeout_seconds: u8,
    pub serve_timeout_seconds: u16,
}

/// One thing that happens to the router.
pub ghost enum Input {
    /// A client's driver hands in a job; the router draws `job_id` for it.
    RunJob { source: AddressView, job: JobSpec, job_id: u64 },
    /// A driver says whether it is available, and for which model.
    SetIsAvailable { source: AddressView, is_available: bool, model: Seq<char> },
    /// A driver reports on the job it is working on.
    JobUpdate { source: AddressView, update: JobUpdate },
    /// A driver answers the probe that was sent for `job_id`.
    QueryReady { source: AddressView, client: AddressView, job_id: u64, is_ready: bool },
    /// The probe sent for `job_id` could not be delivered, or timed out.
    ProbeLost { client: AddressView, job_id: u64 },
    /// The job `job_id` sent to `driver`, or an update on it passed on to
    /// its client, could not be delivered or was not acknowledged in time.
    JobLost { driver: Seq<char>, job_id: u64 },
    /// An acknowledgement, which changes nothing.
    Quiet,
}

/// What the router answers to the message it is handling.
pub ghost enum Reply {
    JobAccepted(u64),
    JobRefused(Seq<char>),
    AvailabilityNoted,
    UpdateNoted,
}

/// One thing the router does in answer to an input.
pub ghost enum Effect {
    /// Answer the message being handled.
    Respond(Reply),
    /// Ask `driver` whether it is ready, on behalf of `job_id`.
    Query { driver: AddressView, client: AddressView, job_id: u64, timeout_seconds: u64 },
    /// Send the job to `driver`.
    Dispatch { driver: AddressView, job_id: u64, job: JobSpec, timeout_seconds: u64 },
    /// Pass an update, with its blob, on to the client of the job `job_id`
    /// that the driver on node `driver` works on.
    Forward {
        client: AddressView,
        update: JobUpdate,
        driver: Seq<char>,
        job_id: u64,
        timeout_seconds: u64,
    },
    /// Tell the client that its job was lost.
    Abandon { client: AddressView, update: JobUpdate },
    /// Write the state to durable storage.
    Persist,
}

/// The process that drivers run as unless the router is told otherwise.
pub open spec fn default_driver_process() -> ProcessIdView {
    ProcessIdView {
        process_name: "driver"@,
        package_name: "llm_provider"@,
        publisher_node: "nick1udwig.os"@,
    }
}

/// How long the router waits for a client to acknowledge an update.
pub open spec fn default_timeout_seconds() -> u64 {
    30
}

/// The final update that tells a client its job was lost.
pub open spec fn lost_update(job_id: u64) -> JobUpdate {
    JobUpdate { job_id, is_final: true, signature: None }
}

impl RouterModel {
    /// The state of a router that has seen nothing yet.
    pub open spec fn init() -> RouterModel {
        RouterModel {
            driver_process_id: None,
            available: Map::empty(),
            outstanding: Map::empty(),
            queue: Seq::empty(),
            probes: Map::empty(),
            queue_response_timeout_seconds: 5,
            serve_timeout_seconds: 60,
        }
    }

    /// Only finitely many drivers and probes are on record.
    pub open spec fn finite(self) -> bool {
        &&& self.available.dom().finite()
        &&& self.outstanding.dom().finite()
        &&& self.probes.dom().finite()
    }

    /// The process that drivers run as.
    pub open spec fn driver_process(self) -> ProcessIdView {
        match self.driver_process_id {
            Some(p) => p,
            None => default_driver_process(),
        }
    }

    /// The available drivers that host exactly `model`.
    pub open spec fn candidates(self, model: Seq<char>) -> Set<Seq<char>> {
        Set::new(|n: Seq<char>| self.available.contains_key(n) && self.available[n] == model)
    }

    /// The number of candidates for `model`, capped at what a probe can
    /// count.
    pub open spec fn num_candidates(self, model: Seq<char>) -> u32 {
        let n = self.candidates(model).len();
        if n <= u32::MAX {
            n as u32
        } else {
            u32::MAX
        }
    }

    /// The job goes to the back of the queue.
    pub open spec fn enqueue(self, client: AddressView, job_id: u64, job: JobSpec) -> RouterModel {
        RouterModel { queue: self.queue.push(QueuedJob { client, job_id, job }), ..self }
    }

    /// The driver becomes busy with the job.
    pub open spec fn serve(self, driver: Seq<char>, client: AddressView, job_id: u64)
        -> RouterModel {
        RouterModel {
            available: self.available.remove(driver),
            outstanding: self.outstanding.insert(driver, Ticket { client, job_id }),
            ..self
        }
    }

    /// A new job is probed for if any driver hosts its model, and queued if
    /// none does.
    pub open spec fn run_job(self, source: AddressView, job: JobSpec, job_id: u64) -> RouterModel {
        if self.candidates(job.model) =~= Set::empty() {
            self.enqueue(source, job_id, job)
        } else {
            RouterModel {
                probes: self.probes.insert(
                    job_id,
                    Probe {
                        job,
                        client: source,
                        num_rejections: 0,
                        num_queried: self.num_candidates(job.model),
                    },
                ),
                ..self
            }
        }
    }

    /// A driver that withdraws leaves the index. One that offers itself gets
    /// the job at the head of the queue, or enters the index if nothing
    /// waits.
    pub open spec fn set_is_available(self, driver: Seq<char>, is_available: bool, model: Seq<char>)
        -> RouterModel {
        if !is_available {
            RouterModel { available: self.available.remove(driver), ..self }
        } else if self.queue.len() > 0 {
            let head = self.queue[0];
            RouterModel { queue: self.queue.drop_first(), ..self }.serve(
                driver,
                head.client,
                head.job_id,
            )
        } else {
            RouterModel { available: self.available.insert(driver, model), ..self }
        }
    }

    /// A final update from a driver with a job on record ends that job.
    pub open spec fn job_update(self, driver: Seq<char>, update: JobUpdate) -> RouterModel {
        if self.outstanding.contains_key(driver) && update.is_final {
            RouterModel { outstanding: self.outstanding.remove(driver), ..self }
        } else {
            self
        }
    }

    /// Whether one more rejection is the last one that `probe` waits for.
    pub open spec fn exhausted(probe: Probe) -> bool {
        probe.num_rejections + 1 >= probe.num_queried
    }

    /// One more driver is not ready for `job_id`: the last of them sends the
    /// job to the queue.
    pub open spec fn reject(self, client: AddressView, job_id: u64) -> RouterModel {
        if !self.probes.contains_key(job_id) {
            self
        } else {
            let probe = self.probes[job_id];
            if Self::exhausted(probe) {
                RouterModel { probes: self.probes.remove(job_id), ..self }.enqueue(
                    client,
                    job_id,
                    probe.job,
                )
            } else {
                RouterModel {
                    probes: self.probes.insert(
                        job_id,
                        Probe { num_rejections: (probe.num_rejections + 1) as u32, ..probe },
                    ),
                    ..self
                }
            }
        }
    }

    /// A driver answers a probe: the first that is ready gets the job.
    pub open spec fn query_ready(
        self,
        driver: Seq<char>,
        client: AddressView,
        job_id: u64,
        is_ready: bool,
    ) -> RouterModel {
        if !is_ready {
            self.reject(client, job_id)
        } else if !self.probes.contains_key(job_id) {
            self
        } else {
            RouterModel { probes: self.probes.remove(job_id), ..self }.serve(driver, client, job_id)
        }
    }

    /// Whether `driver` is on record as working on `job_id`.
    pub open spec fn is_working_on(self, driver: Seq<char>, job_id: u64) -> bool {
        self.outstanding.contains_key(driver) && self.outstanding[driver].job_id == job_id
    }

    /// A driver that does not take or finish its job is dropped, with the
    /// job.
    pub open spec fn abandon(self, driver: Seq<char>, job_id: u64) -> RouterModel {
        if self.is_working_on(driver, job_id) {
            RouterModel {
                available: self.available.remove(driver),
                outstanding: self.outstanding.remove(driver),
                ..self
            }
        } else {
            self
        }
    }

    /// The state after `input`.
    pub open spec fn step(self, input: Input) -> RouterModel {
        match input {
            Input::RunJob { source, job, job_id } => self.run_job(source, job, job_id),
            Input::SetIsAvailable { source, is_available, model } => self.set_is_available(
                source.node,
                is_available,
                model,
            ),
            Input::JobUpdate { source, update } => self.job_update(source.node, update),
            Input::QueryReady { source, client, job_id, is_ready } => self.query_ready(
                source.node,
                client,
                job_id,
                is_ready,
            ),
            Input::ProbeLost { client, job_id } => self.reject(client, job_id),
            Input::JobLost { driver, job_id } => self.abandon(driver, job_id),
            Input::Quiet => self,
        }
    }

    /// The probe sent to the driver on `node` on behalf of `job_id`.
    pub open spec fn query(self, node: Seq<char>, client: AddressView, job_id: u64) -> Effect {
        Effect::Query {
            driver: AddressView { node, process: self.driver_process() },
            client,
            job_id,
            timeout_seconds: self.queue_response_timeout_seconds as u64,
        }
    }

    /// What serving a job does: the job is sent, and the state saved.
    pub open spec fn serve_effects(self, driver: AddressView, job_id: u64, job: JobSpec) -> Seq<
        Effect,
    > {
        seq![
            Effect::Dispatch {
                driver,
                job_id,
                job,
                timeout_seconds: self.serve_timeout_seconds as u64,
            },
            Effect::Persist,
        ]
    }

    /// A new job is acknowledged with its id at once; then every candidate
    /// is probed, in the order given.
    pub open spec fn run_job_effects(
        self,
        source: AddressView,
        job_id: u64,
        order: Seq<Seq<char>>,
    ) -> Seq<Effect> {
        seq![Effect::Respond(Reply::JobAccepted(job_id))] + order.map_values(
            |node: Seq<char>| self.query(node, source, job_id),
        ) + seq![Effect::Persist]
    }

    /// What the router does when a driver reports its availability.
    pub open spec fn set_is_available_effects(self, source: AddressView, is_available: bool) -> Seq<
        Effect,
    > {
        if is_available && self.queue.len() > 0 {
            self.serve_effects(source, self.queue[0].job_id, self.queue[0].job) + seq![
                Effect::Respond(Reply::AvailabilityNoted),
            ]
        } else {
            seq![Effect::Persist, Effect::Respond(Reply::AvailabilityNoted)]
        }
    }

    /// An update from a driver with a job on record goes on to the job's
    /// client; a stray one goes nowhere.
    pub open spec fn job_update_effects(self, driver: Seq<char>, update: JobUpdate) -> Seq<Effect> {
        if !self.outstanding.contains_key(driver) {
            seq![]
        } else {
            let forward = Effect::Forward {
                client: self.outstanding[driver].client,
                update,
                driver,
                job_id: self.outstanding[driver].job_id,
                timeout_seconds: default_timeout_seconds(),
            };
            if update.is_final {
                seq![forward, Effect::Persist, Effect::Respond(Reply::UpdateNoted)]
            } else {
                seq![forward, Effect::Respond(Reply::UpdateNoted)]
            }
        }
    }

    /// A rejection that is counted is saved; one for a job already placed
    /// is dropped.
    pub open spec fn reject_effects(self, job_id: u64) -> Seq<Effect> {
        if self.probes.contains_key(job_id) {
            seq![Effect::Persist]
        } else {
            seq![]
        }
    }

    /// What the router does when a driver answers a probe.
    pub open spec fn query_ready_effects(self, source: AddressView, job_id: u64, is_ready: bool)
        -> Seq<Effect> {
        if !is_ready {
            self.reject_effects(job_id)
        } else if !self.probes.contains_key(job_id) {
            seq![]
        } else {
            self.serve_effects(source, job_id, self.probes[job_id].job)
        }
    }

    /// The client of an abandoned job is told, once.
    pub open spec fn abandon_effects(self, driver: Seq<char>, job_id: u64) -> Seq<Effect> {
        if self.is_working_on(driver, job_id) {
            seq![
                Effect::Abandon {
                    client: self.outstanding[driver].client,
                    update: lost_update(job_id),
                },
                Effect::Persist,
            ]
        } else {
            seq![]
        }
    }

    /// Whether `order` lists every candidate for `model` exactly once.
    pub open spec fn is_probe_order(self, model: Seq<char>, order: Seq<Seq<char>>) -> bool {
        order.no_duplicates() && order.to_set() == self.candidates(model)
    }

    /// Whether `order` is an order in which the router may probe on `input`.
    /// Only a new job is probed for.
    pub open spec fn admits(self, input: Input, order: Seq<Seq<char>>) -> bool {
        match input {
            Input::RunJob { source, job, job_id } => self.is_probe_order(job.model, order),
            _ => true,
        }
    }

    /// What the router does in answer to `input`, probing in `order` where
    /// it probes.
    pub open spec fn effects(self, input: Input, order: Seq<Seq<char>>) -> Seq<Effect> {
        match input {
            Input::RunJob { source, job, job_id } => self.run_job_effects(source, job_id, order),
            Input::SetIsAvailable { source, is_available, model } => self.set_is_available_effects(
                source,
                is_available,
            ),
            Input::JobUpdate { source, update } => self.job_update_effects(source.node, update),
            Input::QueryReady { source, client, job_id, is_ready } => self.query_ready_effects(
                source,
                job_id,
                is_ready,
            ),
            Input::ProbeLost { client, job_id } => self.reject_effects(job_id),
            Input::JobLost { driver, job_id } => self.abandon_effects(driver, job_id),
            Input::Quiet => seq![],
        }
    }
}

} // verus!
