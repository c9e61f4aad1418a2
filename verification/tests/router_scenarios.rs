use llm_provider::address::{Address, ProcessId};
use llm_provider::envelope::{
    ClientRequest, ClientResponse, DriverRequest, DriverResponse, JobUpdateRequestParams,
    RouterResponse, RunJobRequestParams, ToClientRequest, ToClientResponse,
};
use llm_provider::router::state::{
    abandon_job, handle_client_request, handle_driver_request, handle_message,
    handle_router_response, handle_send_error, handle_to_client_request,
    handle_to_client_response, note_rejection, place_job, serve_job, Context, Message, Req, Res,
    RouterAction, RouterError, RouterReply, State,
};
use rand::SeedableRng;
use rand_pcg::Pcg64;

fn driver_process() -> ProcessId {
    ProcessId::new("driver", "llm_provider", "nick1udwig.os")
}

fn node(name: &str) -> Address {
    Address::new(name, driver_process())
}

fn job(model: &str, prompt: &str) -> RunJobRequestParams {
    RunJobRequestParams { model: model.to_string(), prompt: prompt.to_string(), seed: None }
}

fn router() -> State {
    State::new(Pcg64::seed_from_u64(7))
}

fn offer(state: &mut State, driver: &Address, model: &str) -> Vec<RouterAction> {
    handle_driver_request(
        driver,
        &DriverRequest::SetIsAvailable((true, model.to_string())),
        state,
    )
}

fn final_update(job_id: u64) -> ToClientRequest {
    ToClientRequest::JobUpdate(JobUpdateRequestParams { job_id, is_final: true, signature: None })
}

fn accepted_id(actions: &[RouterAction]) -> u64 {
    match &actions[0] {
        RouterAction::Respond(RouterReply::Client(ClientResponse::RunJob(Ok(job_id)))) => *job_id,
        other => panic!("the first action is not the id: {:?}", other),
    }
}

#[test]
fn new_router_is_empty() {
    let state = router();
    assert!(state.available_drivers.is_empty());
    assert!(state.outstanding_jobs.is_empty());
    assert_eq!(state.job_queue.len(), 0);
    assert_eq!(state.job_queries.len(), 0);
    assert_eq!(state.driver_process_id, None);
    assert_eq!(state.queue_response_timeout_seconds, 5);
    assert_eq!(state.serve_timeout_seconds, 60);
}

#[test]
fn happy_path_single_driver() {
    let mut state = router();
    let d = node("d.os");
    let c = node("c.os");

    // The router learns that D is available with m1.
    let actions = handle_message(
        &Message::Request {
            source: d.clone(),
            request: Req::DriverRequest(DriverRequest::SetIsAvailable((true, "m1".to_string()))),
        },
        &mut state,
    )
    .unwrap();
    assert_eq!(
        actions,
        vec![
            RouterAction::Persist,
            RouterAction::Respond(RouterReply::Driver(DriverResponse::SetIsAvailable)),
        ]
    );
    assert_eq!(state.available_drivers.get(&"d.os".to_string()), Some(&"m1".to_string()));

    // C hands in a job; the router answers with an id and probes D.
    let actions = handle_message(
        &Message::Request {
            source: c.clone(),
            request: Req::ClientRequest(ClientRequest::RunJob(job("m1", "hi"))),
        },
        &mut state,
    )
    .unwrap();
    let j = accepted_id(&actions);
    assert_eq!(
        actions,
        vec![
            RouterAction::Respond(RouterReply::Client(ClientResponse::RunJob(Ok(j)))),
            RouterAction::Query {
                driver: d.clone(),
                client: c.clone(),
                job_id: j,
                timeout_seconds: 5,
            },
            RouterAction::Persist,
        ]
    );
    let probe = state.job_queries.get(&j).unwrap();
    assert_eq!(probe.num_queried, 1);
    assert_eq!(probe.num_rejections, 0);
    assert_eq!(probe.job, job("m1", "hi"));
    assert_eq!(probe.client, c);
    assert_eq!(state.job_queue.len(), 0);

    // D is ready: the router dispatches.
    let actions = handle_message(
        &Message::Response {
            source: d.clone(),
            context: Some(Context::Probe { client: c.clone(), job_id: j }),
            response: Res::RouterResponse(RouterResponse::QueryReady(true)),
        },
        &mut state,
    )
    .unwrap();
    assert_eq!(
        actions,
        vec![
            RouterAction::Dispatch {
                driver: d.clone(),
                job_id: j,
                job: job("m1", "hi"),
                timeout_seconds: 60,
            },
            RouterAction::Persist,
        ]
    );
    assert!(!state.available_drivers.contains_key(&"d.os".to_string()));
    assert_eq!(state.outstanding_jobs.get(&"d.os".to_string()), Some(&(c.clone(), j)));
    assert_eq!(state.job_queries.len(), 0);

    // D accepts the job: nothing changes.
    let actions = handle_message(
        &Message::Response {
            source: d.clone(),
            context: Some(Context::Job { driver: "d.os".to_string(), job_id: j }),
            response: Res::RouterResponse(RouterResponse::RunJob(Ok(0))),
        },
        &mut state,
    )
    .unwrap();
    assert_eq!(actions, vec![]);
    assert_eq!(state.outstanding_jobs.len(), 1);

    // D reports the result: the router forwards it to C.
    let actions = handle_message(
        &Message::Request { source: d.clone(), request: Req::ToClientRequest(final_update(j)) },
        &mut state,
    )
    .unwrap();
    assert_eq!(
        actions,
        vec![
            RouterAction::Forward {
                client: c.clone(),
                update: final_update(j),
                driver: "d.os".to_string(),
                job_id: j,
                timeout_seconds: 30,
            },
            RouterAction::Persist,
            RouterAction::Respond(RouterReply::ToClient(ToClientResponse::JobUpdate)),
        ]
    );
    assert!(state.outstanding_jobs.is_empty());

    // C acknowledges; D offers itself again.
    let actions = handle_message(
        &Message::Response {
            source: c.clone(),
            context: Some(Context::Job { driver: "d.os".to_string(), job_id: j }),
            response: Res::ToClientResponse(ToClientResponse::JobUpdate),
        },
        &mut state,
    )
    .unwrap();
    assert_eq!(actions, vec![]);
    offer(&mut state, &d, "m1");

    assert_eq!(state.available_drivers.get(&"d.os".to_string()), Some(&"m1".to_string()));
    assert_eq!(state.available_drivers.len(), 1);
    assert!(state.outstanding_jobs.is_empty());
    assert_eq!(state.job_queries.len(), 0);
    assert_eq!(state.job_queue.len(), 0);
}

#[test]
fn no_drivers_then_one_appears() {
    let mut state = router();
    let d = node("d.os");
    let c = node("c.os");
    assert!(state.available_drivers.is_empty());

    let actions =
        handle_client_request(&c, &ClientRequest::RunJob(job("m1", "hi")), &mut state);
    let j = accepted_id(&actions);
    assert_eq!(
        actions,
        vec![
            RouterAction::Respond(RouterReply::Client(ClientResponse::RunJob(Ok(j)))),
            RouterAction::Persist,
        ]
    );
    assert_eq!(state.job_queue.len(), 1);
    assert_eq!(state.job_queue[0], (c.clone(), j, job("m1", "hi")));
    assert_eq!(state.job_queries.len(), 0);

    // D appears: the head of the queue goes to it.
    let actions = offer(&mut state, &d, "m1");
    assert_eq!(
        actions,
        vec![
            RouterAction::Dispatch {
                driver: d.clone(),
                job_id: j,
                job: job("m1", "hi"),
                timeout_seconds: 60,
            },
            RouterAction::Persist,
            RouterAction::Respond(RouterReply::Driver(DriverResponse::SetIsAvailable)),
        ]
    );
    assert_eq!(state.job_queue.len(), 0);
    assert!(!state.available_drivers.contains_key(&"d.os".to_string()));
    assert_eq!(state.outstanding_jobs.get(&"d.os".to_string()), Some(&(c.clone(), j)));

    // From here on as on the happy path.
    let actions = handle_to_client_request(&d, &final_update(j), &mut state).unwrap();
    assert_eq!(
        actions[0],
        RouterAction::Forward {
            client: c,
            update: final_update(j),
            driver: "d.os".to_string(),
            job_id: j,
            timeout_seconds: 30,
        }
    );
    assert!(state.outstanding_jobs.is_empty());
}

#[test]
fn probe_race_first_ready_driver_wins() {
    let mut state = router();
    let d1 = node("d1.os");
    let d2 = node("d2.os");
    let c = node("c.os");
    offer(&mut state, &d1, "m1");
    offer(&mut state, &d2, "m1");

    let candidates = place_job(&c, &job("m1", "hi"), 41, &mut state);
    assert_eq!(candidates, vec!["d1.os".to_string(), "d2.os".to_string()]);
    assert_eq!(state.job_queries.get(&41).unwrap().num_queried, 2);

    let context = Some(Context::Probe { client: c.clone(), job_id: 41 });
    let actions =
        handle_router_response(&d1, &context, &RouterResponse::QueryReady(true), &mut state)
            .unwrap();
    assert_eq!(
        actions,
        vec![
            RouterAction::Dispatch {
                driver: d1.clone(),
                job_id: 41,
                job: job("m1", "hi"),
                timeout_seconds: 60,
            },
            RouterAction::Persist,
        ]
    );
    assert!(!state.available_drivers.contains_key(&"d1.os".to_string()));
    assert!(!state.job_queries.contains_key(&41));

    // The late answer of D2 finds no probe and is dropped.
    let actions =
        handle_router_response(&d2, &context, &RouterResponse::QueryReady(true), &mut state)
            .unwrap();
    assert_eq!(actions, vec![]);
    assert_eq!(state.available_drivers.get(&"d2.os".to_string()), Some(&"m1".to_string()));
    assert_eq!(state.outstanding_jobs.len(), 1);
    assert_eq!(state.outstanding_jobs.get(&"d1.os".to_string()), Some(&(c, 41)));
    assert!(!state.outstanding_jobs.contains_key(&"d2.os".to_string()));
}

#[test]
fn all_drivers_reject() {
    let mut state = router();
    let d1 = node("d1.os");
    let d2 = node("d2.os");
    let c = node("c.os");
    offer(&mut state, &d1, "m1");
    offer(&mut state, &d2, "m1");
    place_job(&c, &job("m1", "hi"), 9, &mut state);

    let context = Some(Context::Probe { client: c.clone(), job_id: 9 });
    let actions =
        handle_router_response(&d1, &context, &RouterResponse::QueryReady(false), &mut state)
            .unwrap();
    assert_eq!(actions, vec![RouterAction::Persist]);
    assert_eq!(state.job_queries.get(&9).unwrap().num_rejections, 1);
    assert_eq!(state.job_queries.get(&9).unwrap().num_queried, 2);
    assert_eq!(state.job_queue.len(), 0);

    let actions =
        handle_router_response(&d2, &context, &RouterResponse::QueryReady(false), &mut state)
            .unwrap();
    assert_eq!(actions, vec![RouterAction::Persist]);
    assert!(!state.job_queries.contains_key(&9));
    assert_eq!(state.job_queue.len(), 1);
    assert_eq!(state.job_queue[0], (c, 9, job("m1", "hi")));
    // Not ready is not offline.
    assert!(state.available_drivers.contains_key(&"d1.os".to_string()));
    assert!(state.available_drivers.contains_key(&"d2.os".to_string()));
}

#[test]
fn serving_driver_crashes_mid_job() {
    let mut state = router();
    let d = node("d.os");
    let c = node("c.os");
    offer(&mut state, &d, "m1");
    place_job(&c, &job("m1", "hi"), 5, &mut state);
    handle_router_response(
        &d,
        &Some(Context::Probe { client: c.clone(), job_id: 5 }),
        &RouterResponse::QueryReady(true),
        &mut state,
    )
    .unwrap();
    // D offers itself once more, and then never answers.
    state.available_drivers.insert("d.os".to_string(), "m1".to_string());

    let actions = handle_message(
        &Message::SendError {
            context: Some(Context::Job { driver: "d.os".to_string(), job_id: 5 }),
        },
        &mut state,
    )
    .unwrap();
    assert_eq!(
        actions,
        vec![
            RouterAction::Abandon { client: c, update: final_update(5) },
            RouterAction::Persist,
        ]
    );
    assert!(state.outstanding_jobs.is_empty());
    assert!(state.available_drivers.is_empty());
    // The job is not retried.
    assert_eq!(state.job_queue.len(), 0);
    assert_eq!(state.job_queries.len(), 0);

    // The same news a second time changes nothing and tells nobody.
    let actions = abandon_job(&"d.os".to_string(), 5, &mut state);
    assert_eq!(actions, vec![]);
}

#[test]
fn stale_timeout_does_not_touch_a_newer_job() {
    let mut state = router();
    let d = node("d.os");
    let c = node("c.os");
    serve_job(&d, &c, 2, job("m1", "second"), &mut state);
    let actions = handle_send_error(
        &Some(Context::Job { driver: "d.os".to_string(), job_id: 1 }),
        &mut state,
    )
    .unwrap();
    assert_eq!(actions, vec![]);
    assert_eq!(state.outstanding_jobs.get(&"d.os".to_string()), Some(&(c, 2)));
}

#[test]
fn stray_update_is_refused() {
    let mut state = router();
    let d = node("d.os");
    let res = handle_to_client_request(&d, &final_update(77), &mut state);
    assert_eq!(res, Err(RouterError::NoRecord { job_id: 77 }));
    let res = handle_message(
        &Message::Request { source: d, request: Req::ToClientRequest(final_update(78)) },
        &mut state,
    );
    assert_eq!(res, Err(RouterError::NoRecord { job_id: 78 }));
    assert!(state.outstanding_jobs.is_empty());
}

#[test]
fn update_that_is_not_final_keeps_the_job() {
    let mut state = router();
    let d = node("d.os");
    let c = node("c.os");
    serve_job(&d, &c, 3, job("m1", "hi"), &mut state);
    let update = ToClientRequest::JobUpdate(JobUpdateRequestParams {
        job_id: 3,
        is_final: false,
        signature: None,
    });
    let actions = handle_to_client_request(&d, &update, &mut state).unwrap();
    assert_eq!(
        actions,
        vec![
            RouterAction::Forward {
                client: c.clone(),
                update,
                driver: "d.os".to_string(),
                job_id: 3,
                timeout_seconds: 30,
            },
            RouterAction::Respond(RouterReply::ToClient(ToClientResponse::JobUpdate)),
        ]
    );
    assert_eq!(state.outstanding_jobs.get(&"d.os".to_string()), Some(&(c, 3)));
}

#[test]
fn update_with_another_id_goes_out_under_the_claimed_id() {
    let mut state = router();
    let d = node("d.os");
    let c = node("c.os");
    serve_job(&d, &c, 3, job("m1", "hi"), &mut state);
    let actions = handle_to_client_request(&d, &final_update(4), &mut state).unwrap();
    assert_eq!(
        actions[0],
        RouterAction::Forward {
            client: c,
            update: final_update(4),
            driver: "d.os".to_string(),
            job_id: 3,
            timeout_seconds: 30,
        }
    );
    assert!(state.outstanding_jobs.is_empty());
}

#[test]
fn withdrawal_removes_the_driver() {
    let mut state = router();
    let d = node("d.os");
    offer(&mut state, &d, "m1");
    let actions = handle_driver_request(
        &d,
        &DriverRequest::SetIsAvailable((false, "m1".to_string())),
        &mut state,
    );
    assert_eq!(
        actions,
        vec![
            RouterAction::Persist,
            RouterAction::Respond(RouterReply::Driver(DriverResponse::SetIsAvailable)),
        ]
    );
    assert!(state.available_drivers.is_empty());
}

#[test]
fn offer_overwrites_the_model() {
    let mut state = router();
    let d = node("d.os");
    offer(&mut state, &d, "m1");
    offer(&mut state, &d, "m2");
    assert_eq!(state.available_drivers.len(), 1);
    assert_eq!(state.available_drivers.get(&"d.os".to_string()), Some(&"m2".to_string()));
}

#[test]
fn model_names_are_compared_exactly() {
    let mut state = router();
    let c = node("c.os");
    offer(&mut state, &node("d1.os"), "m1");
    offer(&mut state, &node("d2.os"), "M1");
    offer(&mut state, &node("d3.os"), "m1 ");
    let candidates = place_job(&c, &job("m1", "hi"), 1, &mut state);
    assert_eq!(candidates, vec!["d1.os".to_string()]);
    assert_eq!(state.job_queries.get(&1).unwrap().num_queried, 1);
}

#[test]
fn probe_goes_to_the_configured_driver_process() {
    let mut state = router();
    state.driver_process_id = Some(ProcessId::new("worker", "pkg", "pub.os"));
    state.queue_response_timeout_seconds = 9;
    let c = node("c.os");
    offer(&mut state, &node("d.os"), "m1");
    let actions = handle_client_request(&c, &ClientRequest::RunJob(job("m1", "hi")), &mut state);
    let j = accepted_id(&actions);
    assert_eq!(
        actions[1],
        RouterAction::Query {
            driver: Address::new("d.os", ProcessId::new("worker", "pkg", "pub.os")),
            client: c,
            job_id: j,
            timeout_seconds: 9,
        }
    );
}

#[test]
fn lost_probe_counts_as_rejection() {
    let mut state = router();
    let c = node("c.os");
    offer(&mut state, &node("d1.os"), "m1");
    offer(&mut state, &node("d2.os"), "m1");
    place_job(&c, &job("m1", "hi"), 11, &mut state);
    let context = Some(Context::Probe { client: c.clone(), job_id: 11 });
    assert_eq!(handle_send_error(&context, &mut state), Ok(vec![RouterAction::Persist]));
    assert_eq!(state.job_queries.get(&11).unwrap().num_rejections, 1);
    assert_eq!(handle_send_error(&context, &mut state), Ok(vec![RouterAction::Persist]));
    assert_eq!(state.job_queue.len(), 1);
    assert_eq!(state.job_queue[0], (c.clone(), 11, job("m1", "hi")));
    // A third one finds no probe.
    assert_eq!(handle_send_error(&context, &mut state), Ok(vec![]));
    assert_eq!(note_rejection(&c, 11, &mut state), vec![]);
    assert_eq!(state.job_queue.len(), 1);
}

#[test]
fn answers_without_context_are_refused() {
    let mut state = router();
    let d = node("d.os");
    let c = node("c.os");
    offer(&mut state, &d, "m1");
    place_job(&c, &job("m1", "hi"), 1, &mut state);
    assert_eq!(
        handle_router_response(&d, &None, &RouterResponse::QueryReady(true), &mut state),
        Err(RouterError::BadContext)
    );
    assert_eq!(
        handle_router_response(
            &d,
            &Some(Context::Job { driver: "d.os".to_string(), job_id: 1 }),
            &RouterResponse::QueryReady(false),
            &mut state
        ),
        Err(RouterError::BadContext)
    );
    assert_eq!(handle_send_error(&None, &mut state), Err(RouterError::BadContext));
    assert_eq!(
        handle_message(&Message::SendError { context: None }, &mut state),
        Err(RouterError::BadContext)
    );
    assert!(state.job_queries.contains_key(&1));
    assert_eq!(state.job_queries.get(&1).unwrap().num_rejections, 0);
}

#[test]
fn refusal_of_a_dispatched_job_is_ignored() {
    let mut state = router();
    let d = node("d.os");
    let c = node("c.os");
    serve_job(&d, &c, 3, job("m1", "hi"), &mut state);
    let actions = handle_router_response(
        &d,
        &None,
        &RouterResponse::RunJob(Err("got request from router, but not public".to_string())),
        &mut state,
    )
    .unwrap();
    assert_eq!(actions, vec![]);
    assert_eq!(state.outstanding_jobs.len(), 1);
}

#[test]
fn acknowledgement_of_an_update_does_nothing() {
    assert_eq!(handle_to_client_response(&ToClientResponse::JobUpdate), Ok(()));
}
