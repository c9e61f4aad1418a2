//! The driver as a mathematical state machine.

use crate::address::{AddressView, ProcessIdView};
use crate::envelope::{JobSpec, JobUpdate, LocalDriverView};
use crate::llm::openai::MessageView;
use vstd::prelude::*;

verus! {

/// The driver's state.
pub ghost struct DriverModel {
    pub router_process_id: Option<ProcessIdView>,
    pub router_node: Option<Seq<char>>,
    pub local_driver: Option<LocalDriverView>,
    /// The local client whose job is with the router.
    pub outstanding_job: Option<ProcessIdView>,
}

/// Whose job the sidecar is running.
pub ghost enum Waiting {
    /// A job of a local client, served on this node.
    Local { client: AddressView },
    /// A job that the router sent.
    Routed { router: AddressView, job_id: u64 },
}

/// What the driver answers to the message it is handling.
pub ghost enum Answer {
    /// To a local client: its job was taken.
    ClientJobAccepted(u64),
    /// To a local client: its job was refused.
    ClientJobRefused(Seq<char>),
    /// To the router: its job was taken.
    JobAccepted(u64),
    /// To the router: its job was refused.
    JobRefused(Seq<char>),
    /// To the router: whether this driver is ready.
    Ready(bool),
}

/// The request that the driver makes of its sidecar.
pub ghost struct Prompting {
    pub sidecar: AddressView,
    pub model: Seq<char>,
    pub messages: Seq<MessageView>,
    pub seed: Option<i32>,
    pub timeout_seconds: u64,
}

/// One thing the driver does in answer to an input.
pub ghost enum Duty {
    /// Answer the message being handled.
    Respond(Answer),
    /// Tell the router whether this driver is available, and for which
    /// model.
    Announce { router: AddressView, is_available: bool, model: Seq<char>, timeout_seconds: u64 },
    /// Hand a client's job to the router.
    Submit { router: AddressView, job: JobSpec, timeout_seconds: u64 },
    /// Run a prompt on the sidecar and come back with what it returns.
    Prompt { call: Prompting, waiting: Waiting },
    /// Send a final update with the result of a job, or with the reason why
    /// there is none.
    Deliver {
        target: AddressView,
        update: JobUpdate,
        outcome: Result<Seq<char>, Seq<char>>,
        timeout_seconds: u64,
    },
    /// Pass an update, with its blob, on to the local client.
    Relay { client: AddressView, update: JobUpdate },
    /// Write the state to durable storage.
    Persist,
}

/// Why the driver refuses a message.
pub ghost enum Refusal {
    /// An admin request came from another node.
    AdminNotOurs { from: Seq<char> },
    /// A client's job came from another node.
    ClientNotOurs { from: Seq<char> },
    /// A router request came from a node that is not the router's.
    NotRouter { from: Seq<char>, router: Seq<char> },
    /// The router sent a job, and this driver does not serve the public.
    NotPublic,
    /// No local driver is set.
    NoLocalDriver,
    /// An update came from the router, and no client waits for one.
    NoOutstandingJob,
    /// The sidecar's answer does not hold exactly one completion.
    UnexpectedChatResponse,
}

/// One message to the driver.
pub ghost enum Input {
    /// The owner sets what this node serves.
    SetLocalDriver { source: AddressView, local_driver: LocalDriverView },
    /// The owner sets where the router is.
    SetRouter { source: AddressView, node: Option<Seq<char>>, process_id: Option<ProcessIdView> },
    /// A local client hands in a job.
    LocalJob { source: AddressView, job: JobSpec },
    /// The router sends a job to serve.
    RoutedJob { source: AddressView, job_id: u64, job: JobSpec },
    /// The router asks whether this driver is ready.
    QueryReady,
    /// The router reports on the job of the local client.
    Update { update: JobUpdate },
    /// An acknowledgement, which changes nothing.
    Quiet,
}

/// The node of the router unless the driver is told otherwise.
pub open spec fn default_router_node() -> Seq<char> {
    "nick1udwig.os"@
}

/// The process of the router unless the driver is told otherwise.
pub open spec fn default_router_process() -> ProcessIdView {
    ProcessIdView {
        process_name: "router"@,
        package_name: "llm_provider"@,
        publisher_node: "nick1udwig.os"@,
    }
}

/// How long the driver waits for its sidecar unless told otherwise.
pub open spec fn sidecar_timeout_seconds() -> u64 {
    60
}

/// How long the driver waits for the router to acknowledge what it sends.
pub open spec fn default_timeout_seconds() -> u64 {
    30
}

/// How long the driver waits for a local client to acknowledge an update.
pub open spec fn update_timeout_seconds() -> u64 {
    5
}

/// The sidecar of the driver at `our`: the process `openai` of the driver's
/// package, on the driver's node.
pub open spec fn sidecar_of(our: AddressView) -> AddressView {
    AddressView {
        node: our.node,
        process: ProcessIdView {
            process_name: "openai"@,
            package_name: our.process.package_name,
            publisher_node: our.process.publisher_node,
        },
    }
}

/// The request that runs `job` on the sidecar of `our`: one message of the
/// user with the prompt, and the seed cut to 32 bits.
pub open spec fn prompting(our: AddressView, job: JobSpec, timeout: Option<u64>) -> Prompting {
    Prompting {
        sidecar: sidecar_of(our),
        model: job.model,
        messages: seq![MessageView { role: "user"@, content: job.prompt }],
        seed: match job.seed {
            Some(seed) => Some(seed as i32),
            None => None,
        },
        timeout_seconds: match timeout {
            Some(t) => t,
            None => sidecar_timeout_seconds(),
        },
    }
}

/// The final update on `job_id`.
pub open spec fn final_update(job_id: u64) -> JobUpdate {
    JobUpdate { job_id, is_final: true, signature: None }
}

/// The local client that runs as `process`.
pub open spec fn local_client(process: ProcessIdView) -> AddressView {
    AddressView { node: "our"@, process }
}

impl DriverModel {
    /// The state of a driver that has been told nothing yet.
    pub open spec fn init() -> DriverModel {
        DriverModel {
            router_process_id: None,
            router_node: None,
            local_driver: None,
            outstanding_job: None,
        }
    }

    /// The node that the router runs on.
    pub open spec fn router_node(self) -> Seq<char> {
        match self.router_node {
            Some(node) => node,
            None => default_router_node(),
        }
    }

    /// The address of the router.
    pub open spec fn router(self) -> AddressView {
        AddressView {
            node: self.router_node(),
            process: match self.router_process_id {
                Some(p) => p,
                None => default_router_process(),
            },
        }
    }

    /// Whether this driver serves jobs of the router.
    pub open spec fn is_public(self) -> bool {
        self.local_driver matches Some(local_driver) && local_driver.is_public
    }

    /// Whether this driver would take a job of the router now.
    pub open spec fn is_ready(self) -> bool {
        self.is_public() && self.outstanding_job is None
    }

    /// The announcement that this driver is, or is not, available. There is
    /// none without a local driver.
    pub open spec fn announce(self, is_available: bool) -> Result<Duty, Refusal> {
        match self.local_driver {
            Some(local_driver) => Ok(
                Duty::Announce {
                    router: self.router(),
                    is_available,
                    model: local_driver.model,
                    timeout_seconds: default_timeout_seconds(),
                },
            ),
            None => Err(Refusal::NoLocalDriver),
        }
    }

    /// A public driver announces itself as available; another does nothing.
    pub open spec fn reannounce(self) -> Seq<Duty> {
        if self.is_public() {
            seq![self.announce(true)->Ok_0]
        } else {
            seq![]
        }
    }

    /// The driver with a new local driver.
    pub open spec fn set_local_driver(self, local_driver: LocalDriverView) -> DriverModel {
        DriverModel { local_driver: Some(local_driver), ..self }
    }

    /// The driver with a new router address; a part that is not given stays.
    pub open spec fn set_router(
        self,
        node: Option<Seq<char>>,
        process_id: Option<ProcessIdView>,
    ) -> DriverModel {
        DriverModel {
            router_node: if node is Some {
                node
            } else {
                self.router_node
            },
            router_process_id: if process_id is Some {
                process_id
            } else {
                self.router_process_id
            },
            ..self
        }
    }

    /// What the driver does when its configuration has become `self`: the
    /// state is saved, and a public driver announces itself.
    pub open spec fn configured_duties(self) -> Seq<Duty> {
        seq![Duty::Persist] + self.reannounce()
    }

    /// The driver after it has taken a job of the local client `client`:
    /// with a local driver nothing changes, without one the client is
    /// remembered until the router's update comes.
    pub open spec fn take_local_job(self, client: AddressView) -> DriverModel {
        if self.local_driver is Some {
            self
        } else {
            DriverModel { outstanding_job: Some(client.process), ..self }
        }
    }

    /// What the driver does with a job of a local client: the client gets
    /// the id 0 at once; then the job is run on the sidecar, or handed to
    /// the router.
    pub open spec fn local_job_duties(
        self,
        our: AddressView,
        client: AddressView,
        job: JobSpec,
        timeout: Option<u64>,
    ) -> Seq<Duty> {
        if self.local_driver is Some {
            seq![
                Duty::Respond(Answer::ClientJobAccepted(0)),
                Duty::Prompt { call: prompting(our, job, timeout), waiting: Waiting::Local { client } },
            ]
        } else {
            seq![
                Duty::Respond(Answer::ClientJobAccepted(0)),
                Duty::Submit {
                    router: self.router(),
                    job,
                    timeout_seconds: default_timeout_seconds(),
                },
                Duty::Persist,
            ]
        }
    }

    /// Why the driver refuses a job that comes from `source` as a job of
    /// the router, if it does.
    pub open spec fn routed_job_refusal(self, source: AddressView) -> Option<Refusal> {
        if source.node != self.router_node() {
            Some(Refusal::NotRouter { from: source.node, router: self.router_node() })
        } else if !self.is_public() {
            Some(Refusal::NotPublic)
        } else {
            None
        }
    }

    /// What the driver does with a job of the router that it takes: the
    /// router gets the id 0 at once, and the job is run on the sidecar.
    pub open spec fn routed_job_duties(
        self,
        our: AddressView,
        source: AddressView,
        job_id: u64,
        job: JobSpec,
        timeout: Option<u64>,
    ) -> Seq<Duty> {
        seq![
            Duty::Respond(Answer::JobAccepted(0)),
            Duty::Prompt {
                call: prompting(our, job, timeout),
                waiting: Waiting::Routed { router: source, job_id },
            },
        ]
    }

    /// The driver after the sidecar has come back: a job of the router is
    /// over, and no client is waited for any more.
    pub open spec fn finish(self, waiting: Waiting) -> DriverModel {
        match waiting {
            Waiting::Local { client } => self,
            Waiting::Routed { router, job_id } => DriverModel { outstanding_job: None, ..self },
        }
    }

    /// What the driver does when the sidecar has come back: the result, or
    /// the reason why there is none, goes out as a final update. After a
    /// job of the router the state is saved and a public driver announces
    /// itself again.
    pub open spec fn finish_duties(
        self,
        waiting: Waiting,
        outcome: Result<Seq<char>, Seq<char>>,
    ) -> Seq<Duty> {
        match waiting {
            Waiting::Local { client } => seq![
                Duty::Deliver {
                    target: client,
                    update: final_update(0),
                    outcome,
                    timeout_seconds: update_timeout_seconds(),
                },
            ],
            Waiting::Routed { router, job_id } => seq![
                Duty::Deliver {
                    target: router,
                    update: final_update(job_id),
                    outcome,
                    timeout_seconds: default_timeout_seconds(),
                },
                Duty::Persist,
            ] + self.reannounce(),
        }
    }

    /// The driver after it has passed the router's update on: no client is
    /// waited for any more.
    pub open spec fn relay(self) -> DriverModel {
        DriverModel { outstanding_job: None, ..self }
    }

    /// What the driver does with an update of the router while the client
    /// that runs as `requestor` waits: the update goes on to the client,
    /// the state is saved, and a public driver announces itself again.
    pub open spec fn relay_duties(self, requestor: ProcessIdView, update: JobUpdate) -> Seq<Duty> {
        seq![Duty::Relay { client: local_client(requestor), update }, Duty::Persist]
            + self.reannounce()
    }

    /// Why the driver at `our` refuses `input`, if it does.
    pub open spec fn refusal(self, our: AddressView, input: Input) -> Option<Refusal> {
        match input {
            Input::SetLocalDriver { source, local_driver } => if source.node != our.node {
                Some(Refusal::AdminNotOurs { from: source.node })
            } else {
                None
            },
            Input::SetRouter { source, node, process_id } => if source.node != our.node {
                Some(Refusal::AdminNotOurs { from: source.node })
            } else {
                None
            },
            Input::LocalJob { source, job } => if source.node != our.node {
                Some(Refusal::ClientNotOurs { from: source.node })
            } else {
                None
            },
            Input::RoutedJob { source, job_id, job } => self.routed_job_refusal(source),
            Input::QueryReady => None,
            Input::Update { update } => if self.outstanding_job is None {
                Some(Refusal::NoOutstandingJob)
            } else {
                None
            },
            Input::Quiet => None,
        }
    }

    /// The state after `input`. A message that the driver refuses leaves
    /// the state as it is.
    pub open spec fn step(self, our: AddressView, input: Input) -> DriverModel {
        if self.refusal(our, input) is Some {
            self
        } else {
            match input {
                Input::SetLocalDriver { source, local_driver } => self.set_local_driver(
                    local_driver,
                ),
                Input::SetRouter { source, node, process_id } => self.set_router(node, process_id),
                Input::LocalJob { source, job } => self.take_local_job(source),
                Input::Update { update } => self.relay(),
                _ => self,
            }
        }
    }

    /// What the driver at `our` does in answer to an `input` that it does
    /// not refuse.
    pub open spec fn duties(self, our: AddressView, input: Input) -> Seq<Duty> {
        match input {
            Input::SetLocalDriver { source, local_driver } => self.set_local_driver(
                local_driver,
            ).configured_duties(),
            Input::SetRouter { source, node, process_id } => self.set_router(
                node,
                process_id,
            ).configured_duties(),
            Input::LocalJob { source, job } => self.local_job_duties(our, source, job, None),
            Input::RoutedJob { source, job_id, job } => self.routed_job_duties(
                our,
                source,
                job_id,
                job,
                None,
            ),
            Input::QueryReady => seq![Duty::Respond(Answer::Ready(self.is_ready()))],
            Input::Update { update } => match self.outstanding_job {
                Some(requestor) => self.relay_duties(requestor, update),
                None => seq![],
            },
            Input::Quiet => seq![],
        }
    }
}

/// The words of a refusal.
pub open spec fn refusal_message(refusal: Refusal) -> Seq<char> {
    match refusal {
        Refusal::AdminNotOurs { from } => "rejecting AdminRequest from "@ + from
            + "; must be from our"@,
        Refusal::ClientNotOurs { from } => "rejecting local ClientRequest from "@ + from
            + "; must be from our"@,
        Refusal::NotRouter { from, router } => "rejecting RouterRequest from "@ + from
            + "; must be from router "@ + router,
        Refusal::NotPublic => "got request from router, but not public"@,
        Refusal::NoLocalDriver => "LocalDriver must be set before availability can be set"@,
        Refusal::NoOutstandingJob => "no outstanding job; dropping"@,
        Refusal::UnexpectedChatResponse => "unexpected form of ChatResponse"@,
    }
}

/// The answer that goes out with a refusal: whoever hands in a job that
/// is refused is told why. Other refusals are answered with nothing.
pub open spec fn refusal_reply(refusal: Refusal) -> Option<Answer> {
    match refusal {
        Refusal::ClientNotOurs { .. } => Some(
            Answer::ClientJobRefused(refusal_message(refusal)),
        ),
        Refusal::NotRouter { .. } => Some(Answer::JobRefused(refusal_message(refusal))),
        Refusal::NotPublic => Some(Answer::JobRefused(refusal_message(refusal))),
        _ => None,
    }
}

} // verus!
