//! The driver's state and its message handlers.
//!
//! A handler takes the state and one message, changes the state and returns
//! what the driver has to do in answer, in order. Where the driver needs
//! its sidecar, it returns [`DriverAction::Prompt`]; the caller runs the
//! prompt and comes back with the result to [`finish_job`].

use crate::address::{Address, AddressView, ProcessId};
use crate::driver::model::{
    refusal_message, refusal_reply, Answer, DriverModel, Duty, Input, Prompting, Refusal, Waiting,
};
use crate::envelope::{
    AdminRequest, ClientRequest, ClientResponse, DriverRequest, DriverResponse, JobUpdateRequestParams,
    LocalDriver, RouterRequest, RouterResponse, RunJobRequestParams, ToClientRequest,
    ToClientResponse,
};
use crate::llm::openai::{ChatResponse, Message as LLMMessage, MessageView};
use vstd::prelude::*;
use vstd::string::StringExecFns;

verus! {

/// How long the driver waits for its sidecar unless told otherwise.
pub const SIDECAR_TIMEOUT_SECONDS: u64 = 60;

/// How long the driver waits for the router to acknowledge what it sends.
pub const DEFAULT_TIMEOUT_SECONDS: u64 = 30;

/// How long the driver waits for a local client to acknowledge an update.
pub const UPDATE_TIMEOUT_SECONDS: u64 = 5;

/// The node of the router unless the driver is told otherwise.
pub fn default_router_node() -> (res: String)
    ensures
        res@ == crate::driver::model::default_router_node(),
{
    "nick1udwig.os".to_owned()
}

/// The process of the router unless the driver is told otherwise.
pub fn default_router_process_id() -> (res: ProcessId)
    ensures
        res@ == crate::driver::model::default_router_process(),
{
    ProcessId::new("router", "llm_provider", "nick1udwig.os")
}

/// The driver's state.
#[derive(Debug, PartialEq, Eq)]
pub struct State {
    pub router_process_id: Option<ProcessId>,
    pub router_node: Option<String>,
    pub local_driver: Option<LocalDriver>,
    /// The local client whose job is with the router.
    pub outstanding_job: Option<ProcessId>,
}

impl View for State {
    type V = DriverModel;

    open spec fn view(&self) -> DriverModel {
        DriverModel {
            router_process_id: match self.router_process_id {
                Some(p) => Some(p@),
                None => None,
            },
            router_node: match self.router_node {
                Some(n) => Some(n@),
                None => None,
            },
            local_driver: match self.local_driver {
                Some(d) => Some(d@),
                None => None,
            },
            outstanding_job: match self.outstanding_job {
                Some(p) => Some(p@),
                None => None,
            },
        }
    }
}

impl State {
    /// The state of a driver that has been told nothing yet.
    pub fn new() -> (res: Self)
        ensures
            res@ == DriverModel::init(),
    {
        State {
            router_process_id: None,
            router_node: None,
            local_driver: None,
            outstanding_job: None,
        }
    }

    /// The address of the router.
    pub fn router(&self) -> (res: Address)
        ensures
            res@ == self@.router(),
    {
        Address {
            node: match &self.router_node {
                Some(node) => node.clone(),
                None => default_router_node(),
            },
            process: match &self.router_process_id {
                Some(p) => p.clone(),
                None => default_router_process_id(),
            },
        }
    }

    /// Whether this driver serves jobs of the router.
    pub fn is_public(&self) -> (res: bool)
        ensures
            res == self@.is_public(),
    {
        match &self.local_driver {
            Some(local_driver) => local_driver.is_public,
            None => false,
        }
    }
}

/// Whose job the sidecar is running.
#[derive(Debug, PartialEq, Eq)]
pub enum Pending {
    /// A job of a local client, served on this node.
    Local { client: Address },
    /// A job that the router sent.
    Routed { router: Address, job_id: u64 },
}

impl View for Pending {
    type V = Waiting;

    open spec fn view(&self) -> Waiting {
        match self {
            Pending::Local { client } => Waiting::Local { client: client@ },
            Pending::Routed { router, job_id } => Waiting::Routed {
                router: router@,
                job_id: *job_id,
            },
        }
    }
}

/// The request that the driver makes of its sidecar: a chat with the given
/// messages on the given model.
#[derive(Debug, PartialEq, Eq)]
pub struct SidecarCall {
    pub target: Address,
    pub model: String,
    pub messages: Vec<LLMMessage>,
    pub seed: Option<i32>,
    pub timeout_seconds: u64,
}

impl View for SidecarCall {
    type V = Prompting;

    open spec fn view(&self) -> Prompting {
        Prompting {
            sidecar: self.target@,
            model: self.model@,
            messages: self.messages@.map_values(|m: LLMMessage| m@),
            seed: self.seed,
            timeout_seconds: self.timeout_seconds,
        }
    }
}

/// The mathematical value of the result of a job: the completion, or the
/// reason why there is none.
pub open spec fn outcome_view(outcome: Result<String, String>) -> Result<Seq<char>, Seq<char>> {
    match outcome {
        Ok(text) => Ok(text@),
        Err(why) => Err(why@),
    }
}

/// What the driver answers to the message it is handling.
#[derive(Debug, PartialEq, Eq)]
pub enum DriverReply {
    Client(ClientResponse),
    Router(RouterResponse),
}

impl View for DriverReply {
    type V = Answer;

    open spec fn view(&self) -> Answer {
        match self {
            DriverReply::Client(ClientResponse::RunJob(Ok(job_id))) => Answer::ClientJobAccepted(
                *job_id,
            ),
            DriverReply::Client(ClientResponse::RunJob(Err(why))) => Answer::ClientJobRefused(
                why@,
            ),
            DriverReply::Router(RouterResponse::RunJob(Ok(job_id))) => Answer::JobAccepted(
                *job_id,
            ),
            DriverReply::Router(RouterResponse::RunJob(Err(why))) => Answer::JobRefused(why@),
            DriverReply::Router(RouterResponse::QueryReady(ready)) => Answer::Ready(*ready),
        }
    }
}

/// One thing the driver has to do in answer to a message.
#[derive(Debug, PartialEq, Eq)]
pub enum DriverAction {
    /// Answer the message being handled.
    Respond(DriverReply),
    /// Send the request to the router and wait `timeout_seconds` for the
    /// acknowledgement.
    Announce { router: Address, request: DriverRequest, timeout_seconds: u64 },
    /// Send the client's job to the router and wait `timeout_seconds` for
    /// the acknowledgement.
    Submit { router: Address, request: ClientRequest, timeout_seconds: u64 },
    /// Run the call on the sidecar, wait for it, and hand what it returns
    /// to [`finish_job`] together with `pending`.
    Prompt { call: SidecarCall, pending: Pending },
    /// Send the update to `target`, with the completion as its blob or with
    /// the reason why there is none, and wait `timeout_seconds` for the
    /// acknowledgement.
    Deliver {
        target: Address,
        update: ToClientRequest,
        outcome: Result<String, String>,
        timeout_seconds: u64,
    },
    /// Send the update to `client`, with the blob of the message being
    /// handled.
    Relay { client: Address, update: ToClientRequest },
    /// Write the state to durable storage.
    Persist,
}

impl View for DriverAction {
    type V = Duty;

    open spec fn view(&self) -> Duty {
        match self {
            DriverAction::Respond(reply) => Duty::Respond(reply@),
            DriverAction::Announce {
                router,
                request: DriverRequest::SetIsAvailable((is_available, model)),
                timeout_seconds,
            } => Duty::Announce {
                router: router@,
                is_available: *is_available,
                model: model@,
                timeout_seconds: *timeout_seconds,
            },
            DriverAction::Submit {
                router,
                request: ClientRequest::RunJob(job),
                timeout_seconds,
            } => Duty::Submit {
                router: router@,
                job: job@,
                timeout_seconds: *timeout_seconds,
            },
            DriverAction::Prompt { call, pending } => Duty::Prompt {
                call: call@,
                waiting: pending@,
            },
            DriverAction::Deliver {
                target,
                update: ToClientRequest::JobUpdate(update),
                outcome,
                timeout_seconds,
            } => Duty::Deliver {
                target: target@,
                update: update@,
                outcome: outcome_view(*outcome),
                timeout_seconds: *timeout_seconds,
            },
            DriverAction::Relay { client, update: ToClientRequest::JobUpdate(update) } => {
                Duty::Relay { client: client@, update: update@ }
            },
            DriverAction::Persist => Duty::Persist,
        }
    }
}

/// The duties that a list of actions stands for.
pub open spec fn duties_of(actions: Seq<DriverAction>) -> Seq<Duty> {
    actions.map_values(|a: DriverAction| a@)
}

/// Why the driver refuses a message.
#[derive(Debug, PartialEq, Eq)]
pub enum DriverError {
    /// An admin request came from another node.
    AdminNotOurs { from: String },
    /// A client's job came from another node.
    ClientNotOurs { from: String },
    /// A router request came from a node that is not the router's.
    NotRouter { from: String, router: String },
    /// The router sent a job, and this driver does not serve the public.
    NotPublic,
    /// No local driver is set.
    NoLocalDriver,
    /// An update came from the router, and no client waits for one.
    NoOutstandingJob,
    /// The sidecar's answer does not hold exactly one completion.
    UnexpectedChatResponse,
}

impl View for DriverError {
    type V = Refusal;

    open spec fn view(&self) -> Refusal {
        match self {
            DriverError::AdminNotOurs { from } => Refusal::AdminNotOurs { from: from@ },
            DriverError::ClientNotOurs { from } => Refusal::ClientNotOurs { from: from@ },
            DriverError::NotRouter { from, router } => Refusal::NotRouter {
                from: from@,
                router: router@,
            },
            DriverError::NotPublic => Refusal::NotPublic,
            DriverError::NoLocalDriver => Refusal::NoLocalDriver,
            DriverError::NoOutstandingJob => Refusal::NoOutstandingJob,
            DriverError::UnexpectedChatResponse => Refusal::UnexpectedChatResponse,
        }
    }
}

impl DriverError {
    /// The error in words.
    pub fn message(&self) -> (res: String)
        ensures
            res@ == refusal_message(self@),
    {
        match self {
            DriverError::AdminNotOurs { from } => {
                "rejecting AdminRequest from ".to_owned().concat(from.as_str()).concat(
                    "; must be from our",
                )
            },
            DriverError::ClientNotOurs { from } => {
                "rejecting local ClientRequest from ".to_owned().concat(from.as_str()).concat(
                    "; must be from our",
                )
            },
            DriverError::NotRouter { from, router } => {
                "rejecting RouterRequest from ".to_owned().concat(from.as_str()).concat(
                    "; must be from router ",
                ).concat(router.as_str())
            },
            DriverError::NotPublic => "got request from router, but not public".to_owned(),
            DriverError::NoLocalDriver => {
                "LocalDriver must be set before availability can be set".to_owned()
            },
            DriverError::NoOutstandingJob => "no outstanding job; dropping".to_owned(),
            DriverError::UnexpectedChatResponse => "unexpected form of ChatResponse".to_owned(),
        }
    }

    /// The answer that goes out when a job is refused with this error: the
    /// client or the router that handed the job in is told why. Other
    /// errors are answered with nothing.
    pub fn reply(&self) -> (res: Option<DriverAction>)
        ensures
            match res {
                Some(action) => refusal_reply(self@) == Some(action@->Respond_0) && action@
                    is Respond,
                None => refusal_reply(self@) is None,
            },
    {
        match self {
            DriverError::ClientNotOurs { .. } => Some(
                DriverAction::Respond(
                    DriverReply::Client(ClientResponse::RunJob(Err(self.message()))),
                ),
            ),
            DriverError::NotRouter { .. } => Some(
                DriverAction::Respond(
                    DriverReply::Router(RouterResponse::RunJob(Err(self.message()))),
                ),
            ),
            DriverError::NotPublic => Some(
                DriverAction::Respond(
                    DriverReply::Router(RouterResponse::RunJob(Err(self.message()))),
                ),
            ),
            _ => None,
        }
    }
}

/// The request that runs `job` on the sidecar of the driver at `our`.
pub fn sidecar_request(our: &Address, job: &RunJobRequestParams, timeout: Option<u64>) -> (res:
    SidecarCall)
    ensures
        res@ == crate::driver::model::prompting(our@, job@, timeout),
{
    let target = Address {
        node: our.node.clone(),
        process: ProcessId {
            process_name: "openai".to_owned(),
            package_name: our.process.package_name.clone(),
            publisher_node: our.process.publisher_node.clone(),
        },
    };
    let mut messages: Vec<LLMMessage> = Vec::new();
    messages.push(LLMMessage { role: "user".to_owned(), content: job.prompt.clone() });
    let seed = match job.seed {
        Some(seed) => Some(
            #[verifier::truncate]
            (seed as i32),
        ),
        None => None,
    };
    let res = SidecarCall {
        target,
        model: job.model.clone(),
        messages,
        seed,
        timeout_seconds: match timeout {
            Some(t) => t,
            None => SIDECAR_TIMEOUT_SECONDS,
        },
    };
    proof {
        assert(res@.messages =~= seq![MessageView { role: "user"@, content: job@.prompt }]);
    }
    res
}

/// The text of the one completion that a chat response holds.
pub fn extract_chat_response_message(chat_response: &ChatResponse) -> (res: Result<
    String,
    DriverError,
>)
    ensures
        match res {
            Ok(text) => chat_response.choices.len() == 1 && text@
                == chat_response.choices[0].message.content@,
            Err(e) => chat_response.choices.len() != 1 && e == DriverError::UnexpectedChatResponse,
        },
{
    if chat_response.choices.len() != 1 {
        return Err(DriverError::UnexpectedChatResponse);
    }
    Ok(chat_response.choices[0].message.content.clone())
}

/// The announcement to the router that this driver is, or is not,
/// available for the model of its local driver.
pub fn set_is_available(is_available: bool, state: &State) -> (res: Result<
    DriverAction,
    DriverError,
>)
    ensures
        match res {
            Ok(action) => state@.announce(is_available) == Ok::<Duty, Refusal>(action@),
            Err(e) => state@.announce(is_available) == Err::<Duty, Refusal>(e@),
        },
{
    match &state.local_driver {
        None => Err(DriverError::NoLocalDriver),
        Some(local_driver) => Ok(
            DriverAction::Announce {
                router: state.router(),
                request: DriverRequest::SetIsAvailable((is_available, local_driver.model.clone())),
                timeout_seconds: DEFAULT_TIMEOUT_SECONDS,
            },
        ),
    }
}

/// Adds the announcement of a public driver to `actions`.
fn reannounce(state: &State, actions: &mut Vec<DriverAction>)
    ensures
        duties_of(final(actions)@) == duties_of(old(actions)@) + state@.reannounce(),
{
    if state.is_public() {
        match set_is_available(true, state) {
            Ok(action) => {
                actions.push(action);
                proof {
                    assert(duties_of(actions@) =~= duties_of(old(actions)@)
                        + state@.reannounce());
                }
            },
            Err(_) => {},
        }
    } else {
        proof {
            assert(duties_of(actions@) =~= duties_of(old(actions)@) + state@.reannounce());
        }
    }
}

/// Takes a job of a local client. A client on another node is refused. A
/// node with a local driver runs the job on its own sidecar; another hands
/// it to the router and remembers the client.
pub fn run_local_job(
    our: &Address,
    source: &Address,
    job: &RunJobRequestParams,
    timeout: Option<u64>,
    state: &mut State,
) -> (res: Result<Vec<DriverAction>, DriverError>)
    ensures
        match res {
            Ok(actions) => {
                &&& source@.node == our@.node
                &&& final(state)@ == old(state)@.take_local_job(source@)
                &&& duties_of(actions@) == old(state)@.local_job_duties(
                    our@,
                    source@,
                    job@,
                    timeout,
                )
            },
            Err(e) => {
                &&& source@.node != our@.node
                &&& final(state)@ == old(state)@
                &&& e@ == Refusal::ClientNotOurs { from: source@.node }
            },
        },
{
    if !(source.node == our.node) {
        return Err(DriverError::ClientNotOurs { from: source.node.clone() });
    }
    let mut actions: Vec<DriverAction> = Vec::new();
    actions.push(DriverAction::Respond(DriverReply::Client(ClientResponse::RunJob(Ok(0)))));
    if state.local_driver.is_some() {
        actions.push(
            DriverAction::Prompt {
                call: sidecar_request(our, job, timeout),
                pending: Pending::Local { client: source.clone() },
            },
        );
    } else {
        actions.push(
            DriverAction::Submit {
                router: state.router(),
                request: ClientRequest::RunJob(job.clone()),
                timeout_seconds: DEFAULT_TIMEOUT_SECONDS,
            },
        );
        actions.push(DriverAction::Persist);
        state.outstanding_job = Some(source.process.clone());
    }
    proof {
        assert(duties_of(actions@) =~= old(state)@.local_job_duties(our@, source@, job@, timeout));
    }
    Ok(actions)
}

/// Takes a job of the router. The job is refused if it does not come from
/// the router's node, or if this driver does not serve the public;
/// otherwise it is accepted at once and run on the sidecar.
pub fn run_job(
    our: &Address,
    source: &Address,
    job_id: &u64,
    job: &RunJobRequestParams,
    timeout: Option<u64>,
    state: &mut State,
) -> (res: Result<Vec<DriverAction>, DriverError>)
    ensures
        final(state)@ == old(state)@,
        match res {
            Ok(actions) => {
                &&& old(state)@.routed_job_refusal(source@) is None
                &&& duties_of(actions@) == old(state)@.routed_job_duties(
                    our@,
                    source@,
                    *job_id,
                    job@,
                    timeout,
                )
            },
            Err(e) => old(state)@.routed_job_refusal(source@) == Some(e@),
        },
{
    let router_node = match &state.router_node {
        Some(node) => node.clone(),
        None => default_router_node(),
    };
    if !(source.node == router_node) {
        return Err(DriverError::NotRouter { from: source.node.clone(), router: router_node });
    }
    if !state.is_public() {
        return Err(DriverError::NotPublic);
    }
    let mut actions: Vec<DriverAction> = Vec::new();
    actions.push(DriverAction::Respond(DriverReply::Router(RouterResponse::RunJob(Ok(0)))));
    actions.push(
        DriverAction::Prompt {
            call: sidecar_request(our, job, timeout),
            pending: Pending::Routed { router: source.clone(), job_id: *job_id },
        },
    );
    proof {
        assert(duties_of(actions@) =~= old(state)@.routed_job_duties(
            our@,
            source@,
            *job_id,
            job@,
            timeout,
        ));
    }
    Ok(actions)
}

/// Goes on after the sidecar has come back with `outcome`: the completion,
/// or the reason why there is none, goes out as the final update on the
/// job. After a job of the router the driver forgets what it waited for
/// and, if it is public, announces itself as available again.
pub fn finish_job(pending: Pending, outcome: Result<String, String>, state: &mut State) -> (res:
    Vec<DriverAction>)
    ensures
        final(state)@ == old(state)@.finish(pending@),
        duties_of(res@) == old(state)@.finish_duties(pending@, outcome_view(outcome)),
{
    let mut actions: Vec<DriverAction> = Vec::new();
    match pending {
        Pending::Local { client } => {
            actions.push(
                DriverAction::Deliver {
                    target: client,
                    update: ToClientRequest::JobUpdate(
                        JobUpdateRequestParams { job_id: 0, is_final: true, signature: None },
                    ),
                    outcome,
                    timeout_seconds: UPDATE_TIMEOUT_SECONDS,
                },
            );
            proof {
                assert(duties_of(actions@) =~= old(state)@.finish_duties(
                    pending@,
                    outcome_view(outcome),
                ));
            }
        },
        Pending::Routed { router, job_id } => {
            actions.push(
                DriverAction::Deliver {
                    target: router,
                    update: ToClientRequest::JobUpdate(
                        JobUpdateRequestParams { job_id, is_final: true, signature: None },
                    ),
                    outcome,
                    timeout_seconds: DEFAULT_TIMEOUT_SECONDS,
                },
            );
            actions.push(DriverAction::Persist);
            state.outstanding_job = None;
            reannounce(state, &mut actions);
            proof {
                assert(state@.reannounce() == old(state)@.reannounce());
                assert(duties_of(actions@) =~= old(state)@.finish_duties(
                    pending@,
                    outcome_view(outcome),
                ));
            }
        },
    }
    actions
}

/// A request to the driver.
#[derive(Debug, PartialEq, Eq)]
pub enum Req {
    AdminRequest(AdminRequest),
    ClientRequest(ClientRequest),
    RouterRequest(RouterRequest),
    ToClientRequest(ToClientRequest),
}

/// A response to a request that the driver sent.
#[derive(Debug, PartialEq, Eq)]
pub enum Res {
    DriverResponse(DriverResponse),
    ToClientResponse(ToClientResponse),
}

/// What the transport delivers to the driver.
#[derive(Debug, PartialEq, Eq)]
pub enum Message {
    Request { source: Address, request: Req },
    Response { source: Address, response: Res },
}

/// The mathematical value of an optional string.
pub open spec fn text_view(text: Option<String>) -> Option<Seq<char>> {
    match text {
        Some(t) => Some(t@),
        None => None,
    }
}

/// The mathematical value of an optional process id.
pub open spec fn process_view(process: Option<ProcessId>) -> Option<
    crate::address::ProcessIdView,
> {
    match process {
        Some(p) => Some(p@),
        None => None,
    }
}

/// The input that an admin request from `source` is to the driver.
pub open spec fn admin_input(source: Address, admin_request: AdminRequest) -> Input {
    match admin_request {
        AdminRequest::SetLocalDriver(local_driver) => Input::SetLocalDriver {
            source: source@,
            local_driver: local_driver@,
        },
        AdminRequest::SetRouter(router) => Input::SetRouter {
            source: source@,
            node: text_view(router.node),
            process_id: process_view(router.process_id),
        },
    }
}

/// The input that a router request from `source` is to the driver.
pub open spec fn router_input(source: Address, router_request: RouterRequest) -> Input {
    match router_request {
        RouterRequest::RunJob((job_id, job)) => Input::RoutedJob {
            source: source@,
            job_id,
            job: job@,
        },
        RouterRequest::QueryReady => Input::QueryReady,
    }
}

/// The update that a request to a client carries.
pub open spec fn update_of(to_client_request: ToClientRequest) -> crate::envelope::JobUpdate {
    match to_client_request {
        ToClientRequest::JobUpdate(update) => update@,
    }
}

/// The input that a message is to the driver.
pub open spec fn input_of(message: Message) -> Input {
    match message {
        Message::Request { source, request: Req::AdminRequest(admin_request) } => admin_input(
            source,
            admin_request,
        ),
        Message::Request {
            source,
            request: Req::ClientRequest(ClientRequest::RunJob(job)),
        } => Input::LocalJob { source: source@, job: job@ },
        Message::Request { source, request: Req::RouterRequest(router_request) } => router_input(
            source,
            router_request,
        ),
        Message::Request {
            source,
            request: Req::ToClientRequest(ToClientRequest::JobUpdate(update)),
        } => Input::Update { update: update@ },
        Message::Response { .. } => Input::Quiet,
    }
}

/// Whether a handler has done for `input` what the model says: it refuses
/// exactly what the model refuses, with the model's reason and without a
/// change; otherwise the state makes the model's step and the actions are
/// the model's duties.
pub open spec fn handled(
    before: DriverModel,
    after: DriverModel,
    our: AddressView,
    input: Input,
    res: Result<Vec<DriverAction>, DriverError>,
) -> bool {
    match res {
        Ok(actions) => {
            &&& before.refusal(our, input) is None
            &&& after == before.step(our, input)
            &&& duties_of(actions@) == before.duties(our, input)
        },
        Err(e) => before.refusal(our, input) == Some(e@) && after == before,
    }
}

/// Handles a request of the node's owner. A request from another node is
/// refused. A new local driver or a new router address is stored and
/// saved, and a driver that serves the public announces itself to the
/// router.
pub fn handle_admin_request(
    our: &Address,
    source: &Address,
    admin_request: &AdminRequest,
    state: &mut State,
) -> (res: Result<Vec<DriverAction>, DriverError>)
    ensures
        handled(old(state)@, final(state)@, our@, admin_input(*source, *admin_request), res),
{
    if !(source.node == our.node) {
        return Err(DriverError::AdminNotOurs { from: source.node.clone() });
    }
    match admin_request {
        AdminRequest::SetLocalDriver(local_driver) => {
            state.local_driver = Some(local_driver.clone());
        },
        AdminRequest::SetRouter(router) => {
            match &router.process_id {
                Some(process_id) => {
                    state.router_process_id = Some(process_id.clone());
                },
                None => {},
            }
            match &router.node {
                Some(node) => {
                    state.router_node = Some(node.clone());
                },
                None => {},
            }
        },
    }
    let mut actions: Vec<DriverAction> = Vec::new();
    actions.push(DriverAction::Persist);
    reannounce(state, &mut actions);
    proof {
        let input = admin_input(*source, *admin_request);
        assert(state@ == old(state)@.step(our@, input));
        assert(duties_of(actions@) =~= old(state)@.duties(our@, input));
    }
    Ok(actions)
}

/// Handles a request of a local client.
pub fn handle_client_request(
    our: &Address,
    source: &Address,
    client_request: &ClientRequest,
    state: &mut State,
) -> (res: Result<Vec<DriverAction>, DriverError>)
    ensures
        ({
            let ClientRequest::RunJob(job) = *client_request;
            handled(
                old(state)@,
                final(state)@,
                our@,
                Input::LocalJob { source: source@, job: job@ },
                res,
            )
        }),
{
    match client_request {
        ClientRequest::RunJob(job) => run_local_job(our, source, job, None, state),
    }
}

/// Handles a request of the router: a job to serve, or the question
/// whether this driver is ready, which it is if and only if it serves the
/// public and waits for no job of its own.
pub fn handle_router_request(
    our: &Address,
    source: &Address,
    router_request: &RouterRequest,
    state: &mut State,
) -> (res: Result<Vec<DriverAction>, DriverError>)
    ensures
        handled(old(state)@, final(state)@, our@, router_input(*source, *router_request), res),
{
    match router_request {
        RouterRequest::RunJob((job_id, job)) => run_job(our, source, job_id, job, None, state),
        RouterRequest::QueryReady => {
            let mut actions: Vec<DriverAction> = Vec::new();
            actions.push(
                DriverAction::Respond(
                    DriverReply::Router(
                        RouterResponse::QueryReady(
                            state.is_public() && state.outstanding_job.is_none(),
                        ),
                    ),
                ),
            );
            proof {
                assert(duties_of(actions@) =~= old(state)@.duties(our@, Input::QueryReady));
            }
            Ok(actions)
        },
    }
}

/// Handles an update of the router on the job of a local client: the
/// update goes on to the client that waits, and the driver waits no more.
/// Without a waiting client the update is refused.
pub fn handle_to_client_request(to_client_request: &ToClientRequest, state: &mut State) -> (res:
    Result<Vec<DriverAction>, DriverError>)
    ensures
        match res {
            Ok(actions) => {
                &&& old(state)@.outstanding_job is Some
                &&& final(state)@ == old(state)@.relay()
                &&& duties_of(actions@) == old(state)@.relay_duties(
                    old(state)@.outstanding_job->Some_0,
                    update_of(*to_client_request),
                )
            },
            Err(e) => {
                &&& old(state)@.outstanding_job is None
                &&& final(state)@ == old(state)@
                &&& e@ == Refusal::NoOutstandingJob
            },
        },
{
    match to_client_request {
        ToClientRequest::JobUpdate(update) => {
            let requestor = match &state.outstanding_job {
                Some(requestor) => requestor.clone(),
                None => {
                    return Err(DriverError::NoOutstandingJob);
                },
            };
            let mut actions: Vec<DriverAction> = Vec::new();
            actions.push(
                DriverAction::Relay {
                    client: Address { node: "our".to_owned(), process: requestor },
                    update: ToClientRequest::JobUpdate(update.clone()),
                },
            );
            actions.push(DriverAction::Persist);
            state.outstanding_job = None;
            reannounce(state, &mut actions);
            proof {
                assert(state@.reannounce() == old(state)@.reannounce());
                assert(duties_of(actions@) =~= old(state)@.relay_duties(requestor@, update@));
            }
            Ok(actions)
        },
    }
}

/// Handles the router's acknowledgement of an announcement.
pub fn handle_driver_response(driver_response: &DriverResponse, state: &mut State) -> (res: Result<
    (),
    DriverError,
>)
    ensures
        res is Ok,
        final(state)@ == old(state)@,
{
    match driver_response {
        DriverResponse::SetIsAvailable => {},
    }
    Ok(())
}

/// Handles the acknowledgement of an update.
pub fn handle_to_client_response(to_client_response: &ToClientResponse, state: &mut State) -> (res:
    Result<(), DriverError>)
    ensures
        res is Ok,
        final(state)@ == old(state)@,
{
    match to_client_response {
        ToClientResponse::JobUpdate => {},
    }
    Ok(())
}

/// Handles one message to the driver at `our`.
pub fn handle_message(our: &Address, message: &Message, state: &mut State) -> (res: Result<
    Vec<DriverAction>,
    DriverError,
>)
    ensures
        handled(old(state)@, final(state)@, our@, input_of(*message), res),
{
    match message {
        Message::Request { source, request } => match request {
            Req::AdminRequest(admin_request) => handle_admin_request(
                our,
                source,
                admin_request,
                state,
            ),
            Req::ClientRequest(client_request) => handle_client_request(
                our,
                source,
                client_request,
                state,
            ),
            Req::RouterRequest(router_request) => handle_router_request(
                our,
                source,
                router_request,
                state,
            ),
            Req::ToClientRequest(to_client_request) => {
                let res = handle_to_client_request(to_client_request, state);
                proof {
                    assert(handled(old(state)@, state@, our@, input_of(*message), res));
                }
                res
            },
        },
        Message::Response { source, response } => {
            match response {
                Res::DriverResponse(driver_response) => {
                    handle_driver_response(driver_response, state)?;
                },
                Res::ToClientResponse(to_client_response) => {
                    handle_to_client_response(to_client_response, state)?;
                },
            }
            let actions: Vec<DriverAction> = Vec::new();
            proof {
                assert(duties_of(actions@) =~= old(state)@.duties(our@, Input::Quiet));
            }
            Ok(actions)
        },
    }
}

} // verus!
