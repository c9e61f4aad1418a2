use llm_provider::address::{Address, ProcessId};
use llm_provider::envelope::{
    ClientRequest, ClientResponse, DriverRequest, JobUpdateRequestParams, RouterResponse,
    RunJobRequestParams, ToClientRequest,
};
use llm_provider::router::state::{
    handle_client_request, handle_message, place_job, Context, Message, Req, Res, RouterAction,
    RouterReply, State,
};
use rand::SeedableRng;
use rand_pcg::Pcg64;

fn node(name: &str) -> Address {
    Address::new(name, ProcessId::new("driver", "llm_provider", "nick1udwig.os"))
}

fn job(model: &str, prompt: &str) -> RunJobRequestParams {
    RunJobRequestParams { model: model.to_string(), prompt: prompt.to_string(), seed: None }
}

fn offer(driver: &str, model: &str) -> Message {
    Message::Request {
        source: node(driver),
        request: Req::DriverRequest(DriverRequest::SetIsAvailable((true, model.to_string()))),
    }
}

fn withdraw(driver: &str) -> Message {
    Message::Request {
        source: node(driver),
        request: Req::DriverRequest(DriverRequest::SetIsAvailable((false, String::new()))),
    }
}

fn run_job(client: &str, model: &str) -> Message {
    Message::Request {
        source: node(client),
        request: Req::ClientRequest(ClientRequest::RunJob(job(model, "p"))),
    }
}

fn answer(driver: &str, client: &str, job_id: u64, is_ready: bool) -> Message {
    Message::Response {
        source: node(driver),
        context: Some(Context::Probe { client: node(client), job_id }),
        response: Res::RouterResponse(RouterResponse::QueryReady(is_ready)),
    }
}

fn update(driver: &str, job_id: u64, is_final: bool) -> Message {
    Message::Request {
        source: node(driver),
        request: Req::ToClientRequest(ToClientRequest::JobUpdate(JobUpdateRequestParams {
            job_id,
            is_final,
            signature: None,
        })),
    }
}

fn lost(driver: &str, job_id: u64) -> Message {
    Message::SendError { context: Some(Context::Job { driver: driver.to_string(), job_id }) }
}

/// In how many places the router holds the job.
fn places(state: &State, job_id: u64) -> usize {
    let queued = state.job_queue.iter().filter(|e| e.1 == job_id).count();
    let probing = if state.job_queries.contains_key(&job_id) { 1 } else { 0 };
    let mut dispatched = 0;
    for i in 0..state.outstanding_jobs.len() {
        if state.outstanding_jobs.value_at(i).1 == job_id {
            dispatched += 1;
        }
    }
    queued + probing + dispatched
}

fn check_invariants(state: &State, ids: &[u64], seen: &[&str]) {
    for id in ids {
        assert!(places(state, *id) <= 1, "job {} is held {} times", id, places(state, *id));
    }
    for i in 0..state.available_drivers.len() {
        assert!(!state.outstanding_jobs.contains_key(state.available_drivers.key_at(i)));
    }
    for probe in state.job_queries.values() {
        assert!(probe.num_rejections <= probe.num_queried);
        assert!(probe.num_rejections < probe.num_queried);
    }
    assert!(state.outstanding_jobs.len() <= seen.len());
    for i in 0..state.outstanding_jobs.len() {
        assert!(seen.contains(&state.outstanding_jobs.key_at(i).as_str()));
    }
}

fn finals(actions: &[RouterAction], job_id: u64) -> usize {
    actions
        .iter()
        .filter(|a| match a {
            RouterAction::Forward { update: ToClientRequest::JobUpdate(u), .. } => {
                u.is_final && u.job_id == job_id
            }
            RouterAction::Abandon { update: ToClientRequest::JobUpdate(u), .. } => {
                u.job_id == job_id
            }
            _ => false,
        })
        .count()
}

#[test]
fn invariants_hold_along_a_run() {
    let mut state = State::new(Pcg64::seed_from_u64(3));
    let mut ids: Vec<u64> = Vec::new();
    let mut seen: Vec<&str> = Vec::new();
    let mut delivered = 0;

    // Two jobs arrive before any driver: both are queued.
    for _ in 0..2 {
        let actions = handle_message(&run_job("c.os", "m1"), &mut state).unwrap();
        match &actions[0] {
            RouterAction::Respond(RouterReply::Client(ClientResponse::RunJob(Ok(id)))) => {
                ids.push(*id)
            }
            other => panic!("no id: {:?}", other),
        }
        check_invariants(&state, &ids, &seen);
    }
    assert_ne!(ids[0], ids[1]);
    assert_eq!(state.job_queue.len(), 2);

    // D1 and D2 appear and get the two jobs, oldest first.
    seen.push("d1.os");
    handle_message(&offer("d1.os", "m1"), &mut state).unwrap();
    check_invariants(&state, &ids, &seen);
    assert_eq!(state.outstanding_jobs.get(&"d1.os".to_string()).unwrap().1, ids[0]);
    seen.push("d2.os");
    handle_message(&offer("d2.os", "m1"), &mut state).unwrap();
    check_invariants(&state, &ids, &seen);
    assert_eq!(state.outstanding_jobs.get(&"d2.os".to_string()).unwrap().1, ids[1]);

    // D3 appears with nothing to do; a third job is probed for and refused.
    seen.push("d3.os");
    handle_message(&offer("d3.os", "m1"), &mut state).unwrap();
    check_invariants(&state, &ids, &seen);
    let actions = handle_message(&run_job("c.os", "m1"), &mut state).unwrap();
    match &actions[0] {
        RouterAction::Respond(RouterReply::Client(ClientResponse::RunJob(Ok(id)))) => ids.push(*id),
        other => panic!("no id: {:?}", other),
    }
    check_invariants(&state, &ids, &seen);
    handle_message(&answer("d3.os", "c.os", ids[2], false), &mut state).unwrap();
    check_invariants(&state, &ids, &seen);
    assert_eq!(state.job_queue.len(), 1);

    // D1 finishes, D2 is lost, D3 withdraws.
    let actions = handle_message(&update("d1.os", ids[0], true), &mut state).unwrap();
    delivered += finals(&actions, ids[0]);
    check_invariants(&state, &ids, &seen);
    let actions = handle_message(&lost("d2.os", ids[1]), &mut state).unwrap();
    assert_eq!(finals(&actions, ids[1]), 1);
    check_invariants(&state, &ids, &seen);
    handle_message(&withdraw("d3.os"), &mut state).unwrap();
    check_invariants(&state, &ids, &seen);

    // Late news of both jobs deliver nothing more.
    assert!(handle_message(&update("d1.os", ids[0], true), &mut state).is_err());
    let actions = handle_message(&lost("d1.os", ids[0]), &mut state).unwrap();
    delivered += finals(&actions, ids[0]);
    let actions = handle_message(&lost("d2.os", ids[1]), &mut state).unwrap();
    assert_eq!(finals(&actions, ids[1]), 0);
    assert_eq!(delivered, 1);
    check_invariants(&state, &ids, &seen);
    assert!(state.outstanding_jobs.is_empty());
    assert_eq!(places(&state, ids[0]), 0);
    assert_eq!(places(&state, ids[1]), 0);
    assert_eq!(places(&state, ids[2]), 1);
}

#[test]
fn queue_is_first_in_first_out() {
    let mut state = State::new(Pcg64::seed_from_u64(3));
    let c = node("c.os");
    place_job(&c, &job("m1", "first"), 1, &mut state);
    place_job(&c, &job("m2", "second"), 2, &mut state);
    place_job(&c, &job("m1", "third"), 3, &mut state);
    assert_eq!(state.job_queue.iter().map(|e| e.1).collect::<Vec<u64>>(), vec![1, 2, 3]);

    // The oldest job with model m1 is the head: it goes to the driver.
    let actions = handle_message(&offer("d1.os", "m1"), &mut state).unwrap();
    assert_eq!(
        actions[0],
        RouterAction::Dispatch {
            driver: node("d1.os"),
            job_id: 1,
            job: job("m1", "first"),
            timeout_seconds: 60,
        }
    );
    assert_eq!(state.job_queue.iter().map(|e| e.1).collect::<Vec<u64>>(), vec![2, 3]);

    // The head goes to whoever offers itself next, whatever it hosts.
    let actions = handle_message(&offer("d2.os", "m1"), &mut state).unwrap();
    assert_eq!(
        actions[0],
        RouterAction::Dispatch {
            driver: node("d2.os"),
            job_id: 2,
            job: job("m2", "second"),
            timeout_seconds: 60,
        }
    );
    assert_eq!(state.job_queue.iter().map(|e| e.1).collect::<Vec<u64>>(), vec![3]);
}

#[test]
fn offering_again_changes_nothing() {
    let mut state = State::new(Pcg64::seed_from_u64(3));
    handle_message(&offer("d1.os", "m1"), &mut state).unwrap();
    handle_message(&offer("d2.os", "m2"), &mut state).unwrap();
    let actions = handle_message(&offer("d1.os", "m1"), &mut state).unwrap();
    assert!(actions.contains(&RouterAction::Persist));
    assert_eq!(state.available_drivers.len(), 2);
    assert_eq!(state.available_drivers.get(&"d1.os".to_string()), Some(&"m1".to_string()));
    assert_eq!(state.available_drivers.get(&"d2.os".to_string()), Some(&"m2".to_string()));
    assert_eq!(state.available_drivers.key_at(0), "d1.os");
    assert_eq!(state.job_queue.len(), 0);
    assert!(state.outstanding_jobs.is_empty());
}

#[test]
fn every_change_is_persisted() {
    let mut state = State::new(Pcg64::seed_from_u64(3));
    let steps = vec![
        run_job("c.os", "m1"),
        offer("d1.os", "m1"),
        offer("d2.os", "m1"),
        withdraw("d2.os"),
    ];
    for step in &steps {
        let actions = handle_message(step, &mut state).unwrap();
        assert!(actions.contains(&RouterAction::Persist));
    }
    let id = state.outstanding_jobs.get(&"d1.os".to_string()).unwrap().1;
    // An update that is not final changes nothing and is not persisted.
    let actions = handle_message(&update("d1.os", id, false), &mut state).unwrap();
    assert!(!actions.contains(&RouterAction::Persist));
    assert_eq!(state.outstanding_jobs.len(), 1);
    let actions = handle_message(&update("d1.os", id, true), &mut state).unwrap();
    assert!(actions.contains(&RouterAction::Persist));
    // Answers for a job that is not probed for change nothing.
    let actions = handle_message(&answer("d1.os", "c.os", id, true), &mut state).unwrap();
    assert_eq!(actions, vec![]);
    let actions = handle_message(&answer("d1.os", "c.os", id, false), &mut state).unwrap();
    assert_eq!(actions, vec![]);
}

#[test]
fn driver_that_offers_itself_while_busy_is_in_both_maps() {
    // The one way in which a driver can be on offer and at work at once.
    let mut state = State::new(Pcg64::seed_from_u64(3));
    place_job(&node("c.os"), &job("m1", "p"), 1, &mut state);
    handle_message(&offer("d1.os", "m1"), &mut state).unwrap();
    assert!(state.outstanding_jobs.contains_key(&"d1.os".to_string()));
    handle_message(&offer("d1.os", "m1"), &mut state).unwrap();
    assert!(state.outstanding_jobs.contains_key(&"d1.os".to_string()));
    assert!(state.available_drivers.contains_key(&"d1.os".to_string()));
}

#[test]
fn probes_go_to_every_candidate_once_in_shuffled_order() {
    let mut state = State::new(Pcg64::seed_from_u64(11));
    let names: Vec<String> = (0..12).map(|i| format!("d{}.os", i)).collect();
    for name in &names {
        handle_message(&offer(name, "m1"), &mut state).unwrap();
    }
    handle_message(&offer("other.os", "m2"), &mut state).unwrap();
    let c = node("c.os");
    let actions = handle_client_request(&c, &ClientRequest::RunJob(job("m1", "p")), &mut state);
    assert_eq!(actions.len(), 14);
    let id = match &actions[0] {
        RouterAction::Respond(RouterReply::Client(ClientResponse::RunJob(Ok(id)))) => *id,
        other => panic!("no id: {:?}", other),
    };
    let mut probed: Vec<String> = Vec::new();
    for action in &actions[1..13] {
        match action {
            RouterAction::Query { driver, client, job_id, timeout_seconds } => {
                assert_eq!(client, &c);
                assert_eq!(*job_id, id);
                assert_eq!(*timeout_seconds, 5);
                assert_eq!(driver.process, ProcessId::new("driver", "llm_provider", "nick1udwig.os"));
                probed.push(driver.node.clone());
            }
            other => panic!("not a probe: {:?}", other),
        }
    }
    assert_eq!(actions[13], RouterAction::Persist);
    // Not the order of arrival ...
    assert_ne!(probed, names);
    // ... but the same drivers, each once.
    let mut sorted = probed.clone();
    sorted.sort();
    let mut expected = names.clone();
    expected.sort();
    assert_eq!(sorted, expected);
    assert_eq!(state.job_queries.get(&id).unwrap().num_queried, 12);
}

#[test]
fn ids_are_drawn_from_the_generator() {
    let mut a = State::new(Pcg64::seed_from_u64(5));
    let mut b = State::new(Pcg64::seed_from_u64(5));
    let mut c = State::new(Pcg64::seed_from_u64(6));
    let mut ids_a: Vec<u64> = Vec::new();
    let mut ids_b: Vec<u64> = Vec::new();
    let mut ids_c: Vec<u64> = Vec::new();
    for _ in 0..4 {
        for (state, ids) in [(&mut a, &mut ids_a), (&mut b, &mut ids_b), (&mut c, &mut ids_c)] {
            let actions = handle_message(&run_job("c.os", "m1"), state).unwrap();
            match &actions[0] {
                RouterAction::Respond(RouterReply::Client(ClientResponse::RunJob(Ok(id)))) => {
                    ids.push(*id)
                }
                other => panic!("no id: {:?}", other),
            }
        }
    }
    // The same generator gives the same ids; another gives others.
    assert_eq!(ids_a, ids_b);
    assert_ne!(ids_a, ids_c);
    // No id comes twice.
    let mut sorted = ids_a.clone();
    sorted.sort();
    sorted.dedup();
    assert_eq!(sorted.len(), 4);
    // The ids of the queue are those that were returned, in order.
    assert_eq!(a.job_queue.iter().map(|e| e.1).collect::<Vec<u64>>(), ids_a);
}
