//! The router's state and its message handlers.
//!
//! A handler takes the state and one message, changes the state and returns
//! what the router has to do in answer: the caller sends the envelopes and
//! writes the state to storage, in the order given.

use crate::address::{Address, ProcessId};
use crate::chance::{draw_u64, permute};
use crate::envelope::{
    ClientRequest, ClientResponse, DriverRequest, DriverResponse, JobUpdateRequestParams,
    RouterResponse, RunJobRequestParams, ToClientRequest, ToClientResponse,
};
use crate::node_map::{matching, names_of, NodeMap};
use crate::router::model::{Effect, Input, Probe, QueuedJob, Reply, RouterModel, Ticket};
use rand_pcg::Pcg64;
use std::collections::{HashMap, VecDeque};
use vstd::prelude::*;

verus! {

broadcast use vstd::std_specs::hash::group_hash_axioms;

/// How long the router waits for the answer to a probe.
pub const DEFAULT_QUEUE_RESPONSE_TIMEOUT_SECONDS: u8 = 5;

/// How long the router waits for a driver to take a job.
pub const DEFAULT_SERVE_TIMEOUT_SECONDS: u16 = 60;

/// How long the router waits for a client to acknowledge an update.
pub const DEFAULT_TIMEOUT_SECONDS: u64 = 30;

/// The process that drivers run as unless the router is told otherwise.
pub fn default_driver_process_id() -> (res: ProcessId)
    ensures
        res@ == crate::router::model::default_driver_process(),
{
    ProcessId::new("driver", "llm_provider", "nick1udwig.os")
}

/// A readiness sweep in flight.
#[derive(Debug, PartialEq, Eq)]
pub struct JobQuery {
    pub job: RunJobRequestParams,
    pub client: Address,
    pub num_rejections: u32,
    pub num_queried: u32,
}

impl View for JobQuery {
    type V = Probe;

    open spec fn view(&self) -> Probe {
        Probe {
            job: self.job@,
            client: self.client@,
            num_rejections: self.num_rejections,
            num_queried: self.num_queried,
        }
    }
}

/// What the router answers to the message it is handling.
#[derive(Debug, PartialEq, Eq)]
pub enum RouterReply {
    Client(ClientResponse),
    Driver(DriverResponse),
    ToClient(ToClientResponse),
}

impl View for RouterReply {
    type V = Reply;

    open spec fn view(&self) -> Reply {
        match self {
            RouterReply::Client(ClientResponse::RunJob(Ok(job_id))) => Reply::JobAccepted(*job_id),
            RouterReply::Client(ClientResponse::RunJob(Err(why))) => Reply::JobRefused(why@),
            RouterReply::Driver(DriverResponse::SetIsAvailable) => Reply::AvailabilityNoted,
            RouterReply::ToClient(ToClientResponse::JobUpdate) => Reply::UpdateNoted,
        }
    }
}

/// One thing the router has to do in answer to a message.
#[derive(Debug, PartialEq, Eq)]
pub enum RouterAction {
    /// Answer the message being handled.
    Respond(RouterReply),
    /// Send `RouterRequest::QueryReady` to `driver` and wait
    /// `timeout_seconds` for the answer; `Context::Probe` with `client` and
    /// `job_id` goes with the request and comes back with the answer.
    Query { driver: Address, client: Address, job_id: u64, timeout_seconds: u64 },
    /// Send `RouterRequest::RunJob` to `driver` and wait `timeout_seconds`
    /// for it to be taken; `Context::Job` with the driver's node and
    /// `job_id` goes with the request.
    Dispatch { driver: Address, job_id: u64, job: RunJobRequestParams, timeout_seconds: u64 },
    /// Send the update to `client`, with the blob of the message being
    /// handled, and wait `timeout_seconds` for the acknowledgement;
    /// `Context::Job` with `driver` and `job_id` goes with the request.
    Forward {
        client: Address,
        update: ToClientRequest,
        driver: String,
        job_id: u64,
        timeout_seconds: u64,
    },
    /// Send the update to `client` without a result: the job was lost.
    Abandon { client: Address, update: ToClientRequest },
    /// Write the state to durable storage.
    Persist,
}

impl View for RouterAction {
    type V = Effect;

    open spec fn view(&self) -> Effect {
        match self {
            RouterAction::Respond(reply) => Effect::Respond(reply@),
            RouterAction::Query { driver, client, job_id, timeout_seconds } => Effect::Query {
                driver: driver@,
                client: client@,
                job_id: *job_id,
                timeout_seconds: *timeout_seconds,
            },
            RouterAction::Dispatch { driver, job_id, job, timeout_seconds } => Effect::Dispatch {
                driver: driver@,
                job_id: *job_id,
                job: job@,
                timeout_seconds: *timeout_seconds,
            },
            RouterAction::Forward {
                client,
                update: ToClientRequest::JobUpdate(update),
                driver,
                job_id,
                timeout_seconds,
            } => Effect::Forward {
                client: client@,
                update: update@,
                driver: driver@,
                job_id: *job_id,
                timeout_seconds: *timeout_seconds,
            },
            RouterAction::Abandon { client, update: ToClientRequest::JobUpdate(update) } => {
                Effect::Abandon { client: client@, update: update@ }
            },
            RouterAction::Persist => Effect::Persist,
        }
    }
}

/// The effects that a list of actions stands for.
pub open spec fn effects_of(actions: Seq<RouterAction>) -> Seq<Effect> {
    actions.map_values(|a: RouterAction| a@)
}

/// The mathematical value of a queue entry.
pub open spec fn queued(entry: (Address, u64, RunJobRequestParams)) -> QueuedJob {
    QueuedJob { client: entry.0@, job_id: entry.1, job: entry.2@ }
}

/// The mathematical value of an entry of the outstanding jobs.
pub open spec fn ticket(entry: (Address, u64)) -> Ticket {
    Ticket { client: entry.0@, job_id: entry.1 }
}

/// The router's state.
pub struct State {
    pub driver_process_id: Option<ProcessId>,
    /// Driver node to the model it hosts.
    pub available_drivers: NodeMap<String>,
    /// Driver node to the client and id of the job it is working on.
    pub outstanding_jobs: NodeMap<(Address, u64)>,
    pub job_queue: VecDeque<(Address, u64, RunJobRequestParams)>,
    pub job_queries: HashMap<u64, JobQuery>,
    pub rng: Pcg64,
    pub queue_response_timeout_seconds: u8,
    pub serve_timeout_seconds: u16,
}

impl View for State {
    type V = RouterModel;

    open spec fn view(&self) -> RouterModel {
        RouterModel {
            driver_process_id: match self.driver_process_id {
                Some(p) => Some(p@),
                None => None,
            },
            available: self.available_drivers@.map_values(|m: String| m@),
            outstanding: self.outstanding_jobs@.map_values(|t: (Address, u64)| ticket(t)),
            queue: self.job_queue@.map_values(|e: (Address, u64, RunJobRequestParams)| queued(e)),
            probes: self.job_queries@.map_values(|q: JobQuery| q@),
            queue_response_timeout_seconds: self.queue_response_timeout_seconds,
            serve_timeout_seconds: self.serve_timeout_seconds,
        }
    }
}

impl State {
    /// Both maps keyed by node are well formed.
    pub open spec fn wf(&self) -> bool {
        self.available_drivers.wf() && self.outstanding_jobs.wf()
    }

    /// The state of a router that has seen nothing yet, with the generator
    /// it is to draw from.
    pub fn new(rng: Pcg64) -> (res: Self)
        ensures
            res.wf(),
            res@ == RouterModel::init(),
    {
        let res = State {
            driver_process_id: None,
            available_drivers: NodeMap::new(),
            outstanding_jobs: NodeMap::new(),
            job_queue: VecDeque::new(),
            job_queries: HashMap::new(),
            rng,
            queue_response_timeout_seconds: DEFAULT_QUEUE_RESPONSE_TIMEOUT_SECONDS,
            serve_timeout_seconds: DEFAULT_SERVE_TIMEOUT_SECONDS,
        };
        proof {
            assert(res@.available =~= Map::empty());
            assert(res@.outstanding =~= Map::empty());
            assert(res@.queue =~= Seq::empty());
            assert(res@.probes =~= Map::empty());
        }
        res
    }

    /// The view of a well-formed state keeps finitely many records.
    pub proof fn lemma_finite(&self)
        requires
            self.wf(),
        ensures
            self@.finite(),
    {
        self.available_drivers.lemma_names();
        self.outstanding_jobs.lemma_names();
        assert(self@.available.dom() =~= self.available_drivers@.dom());
        assert(self@.outstanding.dom() =~= self.outstanding_jobs@.dom());
        assert(self@.probes.dom() =~= self.job_queries@.dom());
    }
}

/// Hands `job` to `driver`: the driver leaves the index of available
/// drivers, the job is recorded as outstanding with it, and the job is
/// sent.
pub fn serve_job(
    driver: &Address,
    job_source: &Address,
    job_id: u64,
    job: RunJobRequestParams,
    state: &mut State,
) -> (res: Vec<RouterAction>)
    requires
        old(state).wf(),
    ensures
        final(state).wf(),
        final(state)@ == old(state)@.serve(driver@.node, job_source@, job_id),
        effects_of(res@) == old(state)@.serve_effects(driver@, job_id, job@),
{
    state.available_drivers.remove(&driver.node);
    state.outstanding_jobs.insert(driver.node.clone(), (job_source.clone(), job_id));
    let mut actions: Vec<RouterAction> = Vec::new();
    actions.push(
        RouterAction::Dispatch {
            driver: driver.clone(),
            job_id,
            job,
            timeout_seconds: state.serve_timeout_seconds as u64,
        },
    );
    actions.push(RouterAction::Persist);
    proof {
        let want = old(state)@.serve(driver@.node, job_source@, job_id);
        assert(state@.available =~= want.available);
        assert(state@.outstanding =~= want.outstanding);
        assert(effects_of(actions@) =~= old(state)@.serve_effects(driver@, job_id, job@));
    }
    actions
}

/// Places a new job under `job_id`: with no available driver for its model
/// it goes to the back of the queue; otherwise a probe is recorded for it.
/// Returns the nodes to probe, in the order in which they entered the
/// index; they are none when the job was queued.
pub fn place_job(
    source: &Address,
    job: &RunJobRequestParams,
    job_id: u64,
    state: &mut State,
) -> (res: Vec<String>)
    requires
        old(state).wf(),
    ensures
        final(state).wf(),
        final(state)@ == old(state)@.run_job(source@, job@, job_id),
        old(state)@.is_probe_order(job@.model, names_of(res@)),
        names_of(res@) == matching(
            old(state).available_drivers.names(),
            old(state).available_drivers.entries(),
            job@.model,
        ),
{
    let candidates = state.available_drivers.names_with(&job.model);
    proof {
        assert(names_of(candidates@).to_set() =~= state@.candidates(job@.model));
        names_of(candidates@).unique_seq_to_set();
    }
    if candidates.len() == 0 {
        state.job_queue.push_back((source.clone(), job_id, job.clone()));
        proof {
            let want = old(state)@.run_job(source@, job@, job_id);
            assert(old(state)@.candidates(job@.model) =~= Set::empty());
            assert(state@.queue =~= want.queue);
        }
    } else {
        let num_queried: u32 = if candidates.len() > u32::MAX as usize {
            u32::MAX
        } else {
            candidates.len() as u32
        };
        let query = JobQuery {
            job: job.clone(),
            client: source.clone(),
            num_rejections: 0,
            num_queried,
        };
        state.job_queries.insert(job_id, query);
        proof {
            let want = old(state)@.run_job(source@, job@, job_id);
            assert(names_of(candidates@).to_set().contains(names_of(candidates@)[0]));
            assert(!(old(state)@.candidates(job@.model) =~= Set::empty()));
            assert(state@.probes =~= want.probes);
        }
    }
    candidates
}

/// What the router attaches to a request that it sends, and gets back with
/// the answer or with the news that none came.
#[derive(Debug, PartialEq, Eq)]
pub enum Context {
    /// Goes with a readiness probe.
    Probe { client: Address, job_id: u64 },
    /// Goes with a job sent to the driver on node `driver`, and with an
    /// update on that job passed on to its client.
    Job { driver: String, job_id: u64 },
}

/// A request to the router.
#[derive(Debug, PartialEq, Eq)]
pub enum Req {
    ClientRequest(ClientRequest),
    DriverRequest(DriverRequest),
    ToClientRequest(ToClientRequest),
}

/// A response to a request that the router sent.
#[derive(Debug, PartialEq, Eq)]
pub enum Res {
    RouterResponse(RouterResponse),
    ToClientResponse(ToClientResponse),
}

/// What the transport delivers to the router.
#[derive(Debug, PartialEq, Eq)]
pub enum Message {
    Request { source: Address, request: Req },
    Response { source: Address, context: Option<Context>, response: Res },
    /// A request of the router could not be delivered, or no answer came in
    /// time.
    SendError { context: Option<Context> },
}

/// Why the router refuses a message.
#[derive(Debug, PartialEq, Eq)]
pub enum RouterError {
    /// A driver reports on a job, and the router has none on record for it.
    NoRecord { job_id: u64 },
    /// An answer to a probe, or the news that a request was lost, came
    /// without the context that the router had attached.
    BadContext,
}

/// The input that a message is to the router; `job_id` is the id drawn for
/// a new job.
pub open spec fn input_of(message: Message, job_id: u64) -> Input {
    match message {
        Message::Request { source, request: Req::ClientRequest(ClientRequest::RunJob(job)) } => {
            Input::RunJob { source: source@, job: job@, job_id }
        },
        Message::Request {
            source,
            request: Req::DriverRequest(DriverRequest::SetIsAvailable((is_available, model))),
        } => Input::SetIsAvailable { source: source@, is_available, model: model@ },
        Message::Request {
            source,
            request: Req::ToClientRequest(ToClientRequest::JobUpdate(update)),
        } => Input::JobUpdate { source: source@, update: update@ },
        Message::Response {
            source,
            context: Some(Context::Probe { client, job_id: probed }),
            response: Res::RouterResponse(RouterResponse::QueryReady(is_ready)),
        } => Input::QueryReady { source: source@, client: client@, job_id: probed, is_ready },
        Message::SendError { context: Some(Context::Probe { client, job_id: probed }) } => {
            Input::ProbeLost { client: client@, job_id: probed }
        },
        Message::SendError { context: Some(Context::Job { driver, job_id: sent }) } => {
            Input::JobLost { driver: driver@, job_id: sent }
        },
        _ => Input::Quiet,
    }
}

/// The error with which the router in state `s` refuses `message`, if it
/// does.
pub open spec fn refusal(s: RouterModel, message: Message) -> Option<RouterError> {
    match message {
        Message::Request {
            source,
            request: Req::ToClientRequest(ToClientRequest::JobUpdate(update)),
        } => if s.outstanding.contains_key(source@.node) {
            None
        } else {
            Some(RouterError::NoRecord { job_id: update.job_id })
        },
        Message::Response {
            source,
            context,
            response: Res::RouterResponse(RouterResponse::QueryReady(is_ready)),
        } => match context {
            Some(Context::Probe { .. }) => None,
            _ => Some(RouterError::BadContext),
        },
        Message::SendError { context: None } => Some(RouterError::BadContext),
        _ => None,
    }
}

/// The job that a client asks for.
pub open spec fn job_of(client_request: ClientRequest) -> crate::envelope::JobSpec {
    match client_request {
        ClientRequest::RunJob(job) => job@,
    }
}

/// The names at the places `places` of `names`.
pub open spec fn pick(names: Seq<Seq<char>>, places: Seq<usize>) -> Seq<Seq<char>> {
    Seq::new(places.len(), |i: int| names[places[i] as int])
}

/// Any rearrangement of the places `0..n` picks every name exactly once.
proof fn lemma_pick(names: Seq<Seq<char>>, places: Seq<usize>)
    requires
        names.no_duplicates(),
        places.to_multiset() == Seq::new(names.len(), |i: int| i as usize).to_multiset(),
        names.len() <= usize::MAX,
    ensures
        places.len() == names.len(),
        forall|i: int| 0 <= i < places.len() ==> 0 <= #[trigger] places[i] < names.len(),
        pick(names, places).no_duplicates(),
        pick(names, places).to_set() == names.to_set(),
{
    broadcast use vstd::multiset::group_multiset_axioms;

    let all = Seq::new(names.len(), |i: int| i as usize);
    all.to_multiset_ensures();
    places.to_multiset_ensures();
    assert(all.no_duplicates());
    all.lemma_multiset_has_no_duplicates();
    places.lemma_multiset_has_no_duplicates_conv();
    assert forall|i: int| 0 <= i < places.len() implies 0 <= #[trigger] places[i]
        < names.len() by {
        assert(places.contains(places[i]));
        assert(places.to_multiset().count(places[i]) > 0);
        assert(all.to_multiset().count(places[i]) > 0);
        assert(all.contains(places[i]));
        let k = choose|k: int| 0 <= k < all.len() && all[k] == places[i];
        assert(all[k] == k as usize);
    }
    let picked = pick(names, places);
    assert forall|n: Seq<char>| picked.to_set().contains(n) <==> names.to_set().contains(n) by {
        if picked.contains(n) {
            let i = choose|i: int| 0 <= i < picked.len() && picked[i] == n;
            assert(names[places[i] as int] == n);
        }
        if names.contains(n) {
            let j = choose|j: int| 0 <= j < names.len() && names[j] == n;
            assert(all[j] == j as usize);
            assert(all.contains(j as usize));
            assert(all.to_multiset().count(j as usize) > 0);
            assert(places.to_multiset().count(j as usize) > 0);
            assert(places.contains(j as usize));
            let i = choose|i: int| 0 <= i < places.len() && places[i] == j as usize;
            assert(picked[i] == n);
        }
    }
    assert(picked.to_set() =~= names.to_set());
}

/// The candidates in a random order.
fn probe_order(candidates: Vec<String>, rng: &mut Pcg64) -> (res: Vec<String>)
    requires
        names_of(candidates@).no_duplicates(),
    ensures
        names_of(res@).no_duplicates(),
        names_of(res@).to_set() == names_of(candidates@).to_set(),
{
    let n = candidates.len();
    let mut places: Vec<usize> = Vec::new();
    let mut i: usize = 0;
    while i < n
        invariant
            i <= n,
            places@ == Seq::new(i as nat, |k: int| k as usize),
        decreases n - i,
    {
        places.push(i);
        assert(places@ =~= Seq::new((i + 1) as nat, |k: int| k as usize));
        i += 1;
    }
    let places = permute(places, rng);
    proof {
        lemma_pick(names_of(candidates@), places@);
    }
    let mut res: Vec<String> = Vec::new();
    let mut i: usize = 0;
    while i < n
        invariant
            i <= n,
            n == candidates.len(),
            places.len() == n,
            forall|k: int| 0 <= k < places.len() ==> 0 <= #[trigger] places[k] < n,
            names_of(res@) == pick(names_of(candidates@), places@).take(i as int),
        decreases n - i,
    {
        let ghost before = names_of(res@);
        let name = candidates[places[i]].clone();
        res.push(name);
        proof {
            let picked = pick(names_of(candidates@), places@);
            assert(name@ == picked[i as int]);
            assert(names_of(res@) =~= before.push(name@));
            assert(picked.take(i + 1) =~= picked.take(i as int).push(picked[i as int]));
        }
        i += 1;
    }
    assert(names_of(res@) =~= pick(names_of(candidates@), places@));
    res
}

/// Handles a request from a client's driver. The job is given a fresh
/// random id, which is returned to the client at once; then the job is
/// placed, and every candidate is probed, in random order.
pub fn handle_client_request(
    source: &Address,
    client_request: &ClientRequest,
    state: &mut State,
) -> (res: Vec<RouterAction>)
    requires
        old(state).wf(),
    ensures
        final(state).wf(),
        exists|job_id: u64, order: Seq<Seq<char>>|
            {
                &&& old(state)@.is_probe_order(job_of(*client_request).model, order)
                &&& final(state)@ == old(state)@.run_job(source@, job_of(*client_request), job_id)
                &&& effects_of(res@) == #[trigger] old(state)@.run_job_effects(
                    source@,
                    job_id,
                    order,
                )
            },
{
    match client_request {
        ClientRequest::RunJob(job) => {
            let job_id = draw_u64(&mut state.rng);
            let candidates = place_job(source, job, job_id, state);
            let order = probe_order(candidates, &mut state.rng);
            let process_id = match &state.driver_process_id {
                Some(p) => p.clone(),
                None => default_driver_process_id(),
            };
            let timeout_seconds = state.queue_response_timeout_seconds as u64;
            let mut actions: Vec<RouterAction> = Vec::new();
            actions.push(RouterAction::Respond(RouterReply::Client(ClientResponse::RunJob(Ok(job_id)))));
            let ghost head = effects_of(actions@);
            let ghost before = old(state)@;
            let ghost probes = names_of(order@).map_values(
                |node: Seq<char>| before.query(node, source@, job_id),
            );
            let mut i: usize = 0;
            while i < order.len()
                invariant
                    i <= order.len(),
                    process_id@ == before.driver_process(),
                    timeout_seconds == before.queue_response_timeout_seconds as u64,
                    probes == names_of(order@).map_values(
                        |node: Seq<char>| before.query(node, source@, job_id),
                    ),
                    effects_of(actions@) == head + probes.take(i as int),
                decreases order.len() - i,
            {
                let ghost sent = effects_of(actions@);
                let query = RouterAction::Query {
                    driver: Address { node: order[i].clone(), process: process_id.clone() },
                    client: source.clone(),
                    job_id,
                    timeout_seconds,
                };
                actions.push(query);
                proof {
                    assert(query@ == probes[i as int]);
                    assert(effects_of(actions@) =~= sent.push(query@));
                    assert(probes.take(i + 1) =~= probes.take(i as int).push(probes[i as int]));
                    assert(effects_of(actions@) =~= head + probes.take(i + 1));
                }
                i += 1;
            }
            actions.push(RouterAction::Persist);
            proof {
                assert(probes.take(order.len() as int) =~= probes);
                assert(head =~= seq![Effect::Respond(Reply::JobAccepted(job_id))]);
                assert(effects_of(actions@) =~= before.run_job_effects(
                    source@,
                    job_id,
                    names_of(order@),
                ));
                assert(before.is_probe_order(job@.model, names_of(order@)));
            }
            actions
        },
    }
}

/// Handles a driver's report of its availability. A driver that withdraws
/// leaves the index. One that offers itself gets the job at the head of
/// the queue if any job waits, and enters the index if none does.
pub fn handle_driver_request(
    source: &Address,
    driver_request: &DriverRequest,
    state: &mut State,
) -> (res: Vec<RouterAction>)
    requires
        old(state).wf(),
    ensures
        final(state).wf(),
        ({
            let DriverRequest::SetIsAvailable((is_available, model)) = *driver_request;
            &&& final(state)@ == old(state)@.set_is_available(source@.node, is_available, model@)
            &&& effects_of(res@) == old(state)@.set_is_available_effects(source@, is_available)
        }),
{
    match driver_request {
        DriverRequest::SetIsAvailable((is_available, model_name)) => {
            let ghost want = old(state)@.set_is_available(source@.node, *is_available, model_name@);
            let mut actions: Vec<RouterAction>;
            if !*is_available {
                state.available_drivers.remove(&source.node);
                actions = Vec::new();
                actions.push(RouterAction::Persist);
                proof {
                    assert(state@.available =~= want.available);
                }
            } else if state.job_queue.len() > 0 {
                let (job_source, job_id, job) = state.job_queue.pop_front().unwrap();
                proof {
                    assert(state@.queue =~= old(state)@.queue.drop_first());
                    assert(old(state)@.queue[0] == queued((job_source, job_id, job)));
                }
                actions = serve_job(source, &job_source, job_id, job, state);
            } else {
                state.available_drivers.insert(source.node.clone(), model_name.clone());
                actions = Vec::new();
                actions.push(RouterAction::Persist);
                proof {
                    assert(state@.available =~= want.available);
                }
            }
            let ghost before = effects_of(actions@);
            actions.push(RouterAction::Respond(RouterReply::Driver(DriverResponse::SetIsAvailable)));
            proof {
                assert(effects_of(actions@) =~= before + seq![
                    Effect::Respond(Reply::AvailabilityNoted),
                ]);
                assert(effects_of(actions@) =~= old(state)@.set_is_available_effects(
                    source@,
                    *is_available,
                ));
            }
            actions
        },
    }
}

/// Handles an update from a driver. A driver without a job on record is
/// refused. Otherwise the update goes on to the job's client, under the id
/// that the driver gives, and a final update ends the job.
pub fn handle_to_client_request(
    source: &Address,
    to_client_request: &ToClientRequest,
    state: &mut State,
) -> (res: Result<Vec<RouterAction>, RouterError>)
    requires
        old(state).wf(),
    ensures
        final(state).wf(),
        ({
            let ToClientRequest::JobUpdate(update) = *to_client_request;
            match res {
                Ok(actions) => {
                    &&& old(state)@.outstanding.contains_key(source@.node)
                    &&& final(state)@ == old(state)@.job_update(source@.node, update@)
                    &&& effects_of(actions@) == old(state)@.job_update_effects(
                        source@.node,
                        update@,
                    )
                },
                Err(e) => {
                    &&& !old(state)@.outstanding.contains_key(source@.node)
                    &&& final(state)@ == old(state)@
                    &&& e == RouterError::NoRecord { job_id: update.job_id }
                },
            }
        }),
{
    match to_client_request {
        ToClientRequest::JobUpdate(update) => {
            let (client, job_id) = match state.outstanding_jobs.get(&source.node) {
                Some(entry) => (entry.0.clone(), entry.1),
                None => {
                    return Err(RouterError::NoRecord { job_id: update.job_id });
                },
            };
            let mut actions: Vec<RouterAction> = Vec::new();
            actions.push(
                RouterAction::Forward {
                    client,
                    update: ToClientRequest::JobUpdate(update.clone()),
                    driver: source.node.clone(),
                    job_id,
                    timeout_seconds: DEFAULT_TIMEOUT_SECONDS,
                },
            );
            if update.is_final {
                state.outstanding_jobs.remove(&source.node);
                actions.push(RouterAction::Persist);
            }
            actions.push(RouterAction::Respond(RouterReply::ToClient(ToClientResponse::JobUpdate)));
            proof {
                let want = old(state)@.job_update(source@.node, update@);
                assert(state@.outstanding =~= want.outstanding);
                assert(effects_of(actions@) =~= old(state)@.job_update_effects(
                    source@.node,
                    update@,
                ));
            }
            Ok(actions)
        },
    }
}

/// Counts one more driver that is not ready for `job_id`. When the last of
/// the drivers asked has said no, the probe ends and the job goes to the
/// back of the queue. A job that is no longer probed for is left alone.
pub fn note_rejection(client: &Address, job_id: u64, state: &mut State) -> (res: Vec<RouterAction>)
    requires
        old(state).wf(),
    ensures
        final(state).wf(),
        final(state)@ == old(state)@.reject(client@, job_id),
        effects_of(res@) == old(state)@.reject_effects(job_id),
{
    let mut actions: Vec<RouterAction> = Vec::new();
    match state.job_queries.remove(&job_id) {
        None => {
            proof {
                assert(state@.probes =~= old(state)@.probes);
            }
        },
        Some(job_query) => {
            let ghost want = old(state)@.reject(client@, job_id);
            if job_query.num_queried == 0 || job_query.num_rejections >= job_query.num_queried
                - 1 {
                state.job_queue.push_back((client.clone(), job_id, job_query.job));
                proof {
                    assert(state@.probes =~= want.probes);
                    assert(state@.queue =~= want.queue);
                }
            } else {
                let counted = JobQuery {
                    job: job_query.job,
                    client: job_query.client,
                    num_rejections: job_query.num_rejections + 1,
                    num_queried: job_query.num_queried,
                };
                state.job_queries.insert(job_id, counted);
                proof {
                    assert(state@.probes =~= want.probes);
                }
            }
            actions.push(RouterAction::Persist);
        },
    }
    proof {
        assert(effects_of(actions@) =~= old(state)@.reject_effects(job_id));
    }
    actions
}

/// Handles a driver's answer to a request of the router. An answer to a
/// job that was sent changes nothing. An answer to a probe counts as a
/// rejection if the driver is not ready; the first driver that is ready
/// gets the job, and later answers for the same job are dropped.
pub fn handle_router_response(
    source: &Address,
    context: &Option<Context>,
    router_response: &RouterResponse,
    state: &mut State,
) -> (res: Result<Vec<RouterAction>, RouterError>)
    requires
        old(state).wf(),
    ensures
        final(state).wf(),
        match *router_response {
            RouterResponse::RunJob(_) => {
                &&& final(state)@ == old(state)@
                &&& res is Ok
                &&& res->Ok_0@ == Seq::<RouterAction>::empty()
            },
            RouterResponse::QueryReady(is_ready) => match *context {
                Some(Context::Probe { client, job_id }) => {
                    &&& res is Ok
                    &&& final(state)@ == old(state)@.query_ready(
                        source@.node,
                        client@,
                        job_id,
                        is_ready,
                    )
                    &&& effects_of(res->Ok_0@) == old(state)@.query_ready_effects(
                        source@,
                        job_id,
                        is_ready,
                    )
                },
                _ => final(state)@ == old(state)@ && res == Err::<
                    Vec<RouterAction>,
                    RouterError,
                >(RouterError::BadContext),
            },
        },
{
    match router_response {
        RouterResponse::RunJob(_) => Ok(Vec::new()),
        RouterResponse::QueryReady(is_ready) => {
            match context {
                Some(Context::Probe { client, job_id }) => {
                    if !*is_ready {
                        return Ok(note_rejection(client, *job_id, state));
                    }
                    match state.job_queries.remove(job_id) {
                        None => {
                            let actions: Vec<RouterAction> = Vec::new();
                            proof {
                                assert(state@.probes =~= old(state)@.probes);
                                assert(effects_of(actions@) =~= Seq::<Effect>::empty());
                            }
                            Ok(actions)
                        },
                        Some(job_query) => {
                            proof {
                                assert(state@.probes =~= old(state)@.probes.remove(*job_id));
                            }
                            Ok(serve_job(source, client, *job_id, job_query.job, state))
                        },
                    }
                },
                _ => Err(RouterError::BadContext),
            }
        },
    }
}

/// Handles the acknowledgement of an update that was passed on to a client.
pub fn handle_to_client_response(to_client_response: &ToClientResponse) -> (res: Result<
    (),
    RouterError,
>)
    ensures
        res is Ok,
{
    match to_client_response {
        ToClientResponse::JobUpdate => {},
    }
    Ok(())
}

/// Gives up the job `job_id` that was sent to the driver on node `driver`,
/// if that job is still on record with it: the driver leaves the index and
/// the record, and the client is told, once, that the job was lost.
pub fn abandon_job(driver: &String, job_id: u64, state: &mut State) -> (res: Vec<RouterAction>)
    requires
        old(state).wf(),
    ensures
        final(state).wf(),
        final(state)@ == old(state)@.abandon(driver@, job_id),
        effects_of(res@) == old(state)@.abandon_effects(driver@, job_id),
{
    let mut actions: Vec<RouterAction> = Vec::new();
    let is_working_on = match state.outstanding_jobs.get(driver) {
        Some(entry) => entry.1 == job_id,
        None => false,
    };
    if is_working_on {
        let entry = state.outstanding_jobs.remove(driver).unwrap();
        state.available_drivers.remove(driver);
        actions.push(
            RouterAction::Abandon {
                client: entry.0,
                update: ToClientRequest::JobUpdate(
                    JobUpdateRequestParams { job_id, is_final: true, signature: None },
                ),
            },
        );
        actions.push(RouterAction::Persist);
        proof {
            let want = old(state)@.abandon(driver@, job_id);
            assert(state@.available =~= want.available);
            assert(state@.outstanding =~= want.outstanding);
        }
    }
    proof {
        assert(effects_of(actions@) =~= old(state)@.abandon_effects(driver@, job_id));
    }
    actions
}

/// Handles the news that a request of the router was lost or timed out. A
/// lost probe counts as a rejection; a job that was not taken, or whose
/// update did not reach the client, is given up if it is still on record.
pub fn handle_send_error(context: &Option<Context>, state: &mut State) -> (res: Result<
    Vec<RouterAction>,
    RouterError,
>)
    requires
        old(state).wf(),
    ensures
        final(state).wf(),
        match *context {
            Some(Context::Probe { client, job_id }) => {
                &&& res is Ok
                &&& final(state)@ == old(state)@.reject(client@, job_id)
                &&& effects_of(res->Ok_0@) == old(state)@.reject_effects(job_id)
            },
            Some(Context::Job { driver, job_id }) => {
                &&& res is Ok
                &&& final(state)@ == old(state)@.abandon(driver@, job_id)
                &&& effects_of(res->Ok_0@) == old(state)@.abandon_effects(driver@, job_id)
            },
            None => final(state)@ == old(state)@ && res == Err::<Vec<RouterAction>, RouterError>(
                RouterError::BadContext,
            ),
        },
{
    match context {
        Some(Context::Probe { client, job_id }) => Ok(note_rejection(client, *job_id, state)),
        Some(Context::Job { driver, job_id }) => Ok(abandon_job(driver, *job_id, state)),
        None => Err(RouterError::BadContext),
    }
}

/// Handles one message. The router refuses a message exactly when
/// [`refusal`] names an error for it, and then keeps its state. Otherwise
/// the state makes the step of the model for the message's input, and the
/// actions returned are the effects of that step. For a new job the id is
/// drawn at random and the candidates are probed in a random order.
pub fn handle_message(message: &Message, state: &mut State) -> (res: Result<
    Vec<RouterAction>,
    RouterError,
>)
    requires
        old(state).wf(),
    ensures
        final(state).wf(),
        match res {
            Ok(actions) => {
                &&& refusal(old(state)@, *message) is None
                &&& exists|job_id: u64, order: Seq<Seq<char>>|
                    {
                        &&& old(state)@.admits(input_of(*message, job_id), order)
                        &&& final(state)@ == old(state)@.step(input_of(*message, job_id))
                        &&& effects_of(actions@) == #[trigger] old(state)@.effects(
                            input_of(*message, job_id),
                            order,
                        )
                    }
            },
            Err(e) => refusal(old(state)@, *message) == Some(e) && final(state)@ == old(state)@,
        },
{
    let ghost before = state@;
    let ghost none = Seq::<Seq<char>>::empty();
    match message {
        Message::Request { source, request } => match request {
            Req::ClientRequest(client_request) => {
                let actions = handle_client_request(source, client_request, state);
                proof {
                    let (job_id, order) = choose|job_id: u64, order: Seq<Seq<char>>|
                        {
                            &&& before.is_probe_order(job_of(*client_request).model, order)
                            &&& state@ == before.run_job(source@, job_of(*client_request), job_id)
                            &&& effects_of(actions@) == #[trigger] before.run_job_effects(
                                source@,
                                job_id,
                                order,
                            )
                        };
                    assert(effects_of(actions@) == before.effects(
                        input_of(*message, job_id),
                        order,
                    ));
                }
                Ok(actions)
            },
            Req::DriverRequest(driver_request) => {
                let actions = handle_driver_request(source, driver_request, state);
                proof {
                    assert(effects_of(actions@) == before.effects(input_of(*message, 0), none));
                }
                Ok(actions)
            },
            Req::ToClientRequest(to_client_request) => {
                let actions = handle_to_client_request(source, to_client_request, state)?;
                proof {
                    assert(effects_of(actions@) == before.effects(input_of(*message, 0), none));
                }
                Ok(actions)
            },
        },
        Message::Response { source, context, response } => match response {
            Res::RouterResponse(router_response) => {
                let actions = handle_router_response(source, context, router_response, state)?;
                proof {
                    assert(effects_of(actions@) =~= before.effects(input_of(*message, 0), none));
                }
                Ok(actions)
            },
            Res::ToClientResponse(to_client_response) => {
                handle_to_client_response(to_client_response)?;
                let actions: Vec<RouterAction> = Vec::new();
                proof {
                    assert(effects_of(actions@) =~= before.effects(input_of(*message, 0), none));
                }
                Ok(actions)
            },
        },
        Message::SendError { context } => {
            let actions = handle_send_error(context, state)?;
            proof {
                assert(effects_of(actions@) == before.effects(input_of(*message, 0), none));
            }
            Ok(actions)
        },
    }
}

} // verus!
