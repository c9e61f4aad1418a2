//! The envelopes exchanged between clients, drivers and the router.

use vstd::prelude::*;

verus! {

/// A unit of work: run `prompt` on `model`, with an optional sampling seed.
#[derive(Debug, PartialEq, Eq)]
pub struct RunJobRequestParams {
    pub model: String,
    pub prompt: String,
    pub seed: Option<u64>,
}

/// The mathematical value of a job.
pub ghost struct JobSpec {
    pub model: Seq<char>,
    pub prompt: Seq<char>,
    pub seed: Option<u64>,
}

impl View for RunJobRequestParams {
    type V = JobSpec;

    open spec fn view(&self) -> JobSpec {
        JobSpec { model: self.model@, prompt: self.prompt@, seed: self.seed }
    }
}

impl Clone for RunJobRequestParams {
    fn clone(&self) -> (res: Self)
        ensures
            res == *self,
    {
        RunJobRequestParams {
            model: self.model.clone(),
            prompt: self.prompt.clone(),
            seed: self.seed,
        }
    }
}

/// News about a job on its way back to the client. The result itself travels
/// beside the envelope as a blob.
#[derive(Debug, PartialEq, Eq)]
pub struct JobUpdateRequestParams {
    pub job_id: u64,
    pub is_final: bool,
    pub signature: Option<String>,
}

/// The mathematical value of a job update.
pub ghost struct JobUpdate {
    pub job_id: u64,
    pub is_final: bool,
    pub signature: Option<Seq<char>>,
}

impl View for JobUpdateRequestParams {
    type V = JobUpdate;

    open spec fn view(&self) -> JobUpdate {
        JobUpdate {
            job_id: self.job_id,
            is_final: self.is_final,
            signature: match self.signature {
                Some(s) => Some(s@),
                None => None,
            },
        }
    }
}

impl Clone for JobUpdateRequestParams {
    fn clone(&self) -> (res: Self)
        ensures
            res == *self,
    {
        JobUpdateRequestParams {
            job_id: self.job_id,
            is_final: self.is_final,
            signature: match &self.signature {
                Some(s) => Some(s.clone()),
                None => None,
            },
        }
    }
}

/// What a driver can serve, and whether it offers that to the router.
#[derive(Debug, PartialEq, Eq)]
pub struct LocalDriver {
    pub model: String,
    pub is_public: bool,
}

/// The mathematical value of a [`LocalDriver`].
pub ghost struct LocalDriverView {
    pub model: Seq<char>,
    pub is_public: bool,
}

impl View for LocalDriver {
    type V = LocalDriverView;

    open spec fn view(&self) -> LocalDriverView {
        LocalDriverView { model: self.model@, is_public: self.is_public }
    }
}

impl Clone for LocalDriver {
    fn clone(&self) -> (res: Self)
        ensures
            res == *self,
    {
        LocalDriver { model: self.model.clone(), is_public: self.is_public }
    }
}

/// A new router address for a driver; a part left out stays as it is.
#[derive(Debug, PartialEq, Eq)]
pub struct SetRouterRequestParams {
    pub node: Option<String>,
    pub process_id: Option<crate::address::ProcessId>,
}

/// What the owner of a node asks of its driver.
#[derive(Debug, PartialEq, Eq)]
pub enum AdminRequest {
    SetLocalDriver(LocalDriver),
    SetRouter(SetRouterRequestParams),
}

/// The driver's answer to an [`AdminRequest`].
#[derive(Debug, PartialEq, Eq)]
pub enum AdminResponse {
    SetLocalDriver,
    SetRouter,
}

/// What a client asks of its driver, and a driver of the router.
#[derive(Debug, PartialEq, Eq)]
pub enum ClientRequest {
    RunJob(RunJobRequestParams),
}

/// The answer to a [`ClientRequest`]: the job's id, or why it was refused.
#[derive(Debug, PartialEq, Eq)]
pub enum ClientResponse {
    RunJob(Result<u64, String>),
}

/// What a driver tells the router: whether it is available, and for which
/// model.
#[derive(Debug, PartialEq, Eq)]
pub enum DriverRequest {
    SetIsAvailable((bool, String)),
}

/// The router's answer to a [`DriverRequest`].
#[derive(Debug, PartialEq, Eq)]
pub enum DriverResponse {
    SetIsAvailable,
}

/// What the router asks of a serving driver.
#[derive(Debug, PartialEq, Eq)]
pub enum RouterRequest {
    RunJob((u64, RunJobRequestParams)),
    QueryReady,
}

/// A serving driver's answer to a [`RouterRequest`].
#[derive(Debug, PartialEq, Eq)]
pub enum RouterResponse {
    RunJob(Result<u64, String>),
    QueryReady(bool),
}

/// What travels from the serving driver back towards the client.
#[derive(Debug, PartialEq, Eq)]
pub enum ToClientRequest {
    JobUpdate(JobUpdateRequestParams),
}

/// The acknowledgement of a [`ToClientRequest`].
#[derive(Debug, PartialEq, Eq)]
pub enum ToClientResponse {
    JobUpdate,
}

} // verus!
