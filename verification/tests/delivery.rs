use apub_delivery::actors::{Actor, ActorKind};
use apub_delivery::activity::Activity;
use apub_delivery::errors::FederationError;
use apub_delivery::queue::{
    backoff_delay, create_activity_queue, next_ready, outcome_error, process_outcome,
    record_attempt, send_activity, AttemptOutcome, DeliveryTask, TaskState, MAX_RETRIES,
};
use apub_delivery::relay::send_activity_to_community;
use apub_delivery::urls::{Destination, FederationSettings};

fn inbox_on(host: &str) -> Destination {
    Destination {
        scheme: "https".to_string(),
        host: host.to_string(),
        path: "/inbox".to_string(),
    }
}

fn enabled_settings(blocked: Vec<String>) -> FederationSettings {
    FederationSettings {
        enabled: true,
        hostname: "home.example".to_string(),
        tls_enabled: true,
        blocked_hosts: blocked,
    }
}

fn local_person(id: &str, key: Option<&str>) -> Actor {
    Actor {
        kind: ActorKind::Person,
        local: true,
        actor_id: id.to_string(),
        private_key: key.map(|k| k.to_string()),
    }
}

fn community_actor(id: &str, local: bool, key: Option<&str>) -> Actor {
    Actor {
        kind: ActorKind::Community,
        local,
        actor_id: id.to_string(),
        private_key: key.map(|k| k.to_string()),
    }
}

#[test]
fn test_gate_disabled_builds_no_task() {
    let mut queue = create_activity_queue();
    let settings = FederationSettings {
        enabled: false,
        hostname: "home.example".to_string(),
        tls_enabled: true,
        blocked_hosts: vec![],
    };
    let actor = local_person("https://home.example/u/alice", Some("pem"));
    let to = vec![inbox_on("remote.example")];
    let r = send_activity(
        &mut queue,
        &settings,
        &"{\"type\":\"Note\"}".to_string(),
        &actor,
        &to,
        100,
    );
    assert!(r.is_ok());
    assert_eq!(r.unwrap().len(), 0);
    assert_eq!(queue.tasks.len(), 0);
}

#[test]
fn test_missing_key_rejected_immediately() {
    let mut queue = create_activity_queue();
    let settings = enabled_settings(vec![]);
    let actor = local_person("https://home.example/u/alice", None);
    let to = vec![inbox_on("remote.example")];
    let r = send_activity(
        &mut queue,
        &settings,
        &"{\"type\":\"Note\"}".to_string(),
        &actor,
        &to,
        100,
    );
    assert_eq!(r, Err(FederationError::MissingKeyMaterial));
    assert_eq!(queue.tasks.len(), 0);
}

#[test]
fn test_invalid_destination_skips_only_that() {
    let mut queue = create_activity_queue();
    let settings = enabled_settings(vec!["bad.example".to_string()]);
    let actor = local_person("https://home.example/u/alice", Some("pem"));
    let to = vec![inbox_on("bad.example"), inbox_on("good.example")];
    let reports = send_activity(
        &mut queue,
        &settings,
        &"{\"type\":\"Note\"}".to_string(),
        &actor,
        &to,
        100,
    )
    .unwrap();
    assert_eq!(reports.len(), 2);
    assert_eq!(reports[0], Err(FederationError::InvalidDestination));
    assert_eq!(reports[1], Ok(()));
    assert_eq!(queue.tasks.len(), 1);
    assert_eq!(queue.tasks[0].inbox.host, "good.example");
    assert_eq!(queue.tasks[0].state, TaskState::Pending);
}

#[test]
fn test_wrong_scheme_is_invalid() {
    let mut queue = create_activity_queue();
    let settings = enabled_settings(vec![]);
    let actor = local_person("https://home.example/u/alice", Some("pem"));
    let mut plain = inbox_on("remote.example");
    plain.scheme = "http".to_string();
    let reports = send_activity(
        &mut queue,
        &settings,
        &"{}".to_string(),
        &actor,
        &vec![plain],
        100,
    )
    .unwrap();
    assert_eq!(reports[0], Err(FederationError::InvalidDestination));
    assert_eq!(queue.tasks.len(), 0);
}

#[test]
fn test_backoff_values_exact() {
    assert_eq!(backoff_delay(0), 2);
    assert_eq!(backoff_delay(1), 4);
    assert_eq!(backoff_delay(2), 8);
    assert_eq!(backoff_delay(5), 64);
    assert_eq!(backoff_delay(10), 2048);
    assert_eq!(backoff_delay(11), 3600);
    assert_eq!(backoff_delay(100), 3600);
    let mut prev: u64 = 0;
    let mut n: u64 = 0;
    while n < 30 {
        let d = backoff_delay(n);
        assert!(d >= prev);
        assert!(d <= 3600);
        prev = d;
        n += 1;
    }
}

#[test]
fn test_two_destinations_independent_retries() {
    // One destination answers 200 at once; the other times out three
    // times and then answers 200. The first task ends after one attempt,
    // the second after four, with growing delays in between.
    let mut queue = create_activity_queue();
    let settings = enabled_settings(vec![]);
    let actor = local_person("https://home.example/u/p", Some("pem"));
    let to = vec![inbox_on("x.example"), inbox_on("y.example")];
    let reports = send_activity(
        &mut queue,
        &settings,
        &"{\"type\":\"Create\"}".to_string(),
        &actor,
        &to,
        100,
    )
    .unwrap();
    assert_eq!(reports, vec![Ok(()), Ok(())]);
    assert_eq!(queue.tasks.len(), 2);

    // inboxX: one attempt, success, task discarded.
    let ix = next_ready(&mut queue, 100).unwrap();
    assert_eq!(queue.tasks[ix].inbox.host, "x.example");
    let st = process_outcome(&mut queue, ix, &AttemptOutcome::Http(200), 100);
    assert_eq!(st, TaskState::Succeeded);
    assert_eq!(queue.tasks.len(), 1);

    // inboxY: three timeouts with growing delays, then success.
    let mut now: u64 = 100;
    let mut delays: Vec<u64> = vec![];
    for _attempt in 0..3 {
        let iy = next_ready(&mut queue, now).unwrap();
        assert_eq!(queue.tasks[iy].inbox.host, "y.example");
        let st = process_outcome(&mut queue, iy, &AttemptOutcome::TransportError, now);
        assert_eq!(st, TaskState::Retrying);
        let eligible_at = queue.tasks[0].next_eligible;
        delays.push(eligible_at - now);
        // Not eligible before its backoff deadline.
        assert!(next_ready(&mut queue, eligible_at - 1).is_none());
        now = eligible_at;
    }
    assert_eq!(delays, vec![4, 8, 16]);
    assert_eq!(queue.tasks[0].attempts, 3);
    let iy = next_ready(&mut queue, now).unwrap();
    let st = process_outcome(&mut queue, iy, &AttemptOutcome::Http(201), now);
    assert_eq!(st, TaskState::Succeeded);
    assert_eq!(queue.tasks.len(), 0);
    // The queue holds nothing, so the succeeded task is never retried.
    assert!(next_ready(&mut queue, now + 10_000).is_none());
}

#[test]
fn test_retry_ceiling_exhausts_task() {
    let mut queue = create_activity_queue();
    let settings = enabled_settings(vec![]);
    let actor = local_person("https://home.example/u/p", Some("pem"));
    let to = vec![inbox_on("down.example")];
    send_activity(&mut queue, &settings, &"{}".to_string(), &actor, &to, 0).unwrap();
    let mut now: u64 = 0;
    let mut failures: u64 = 0;
    loop {
        let idx = next_ready(&mut queue, now).unwrap();
        let st = process_outcome(&mut queue, idx, &AttemptOutcome::Http(503), now);
        failures += 1;
        if failures <= MAX_RETRIES {
            assert_eq!(st, TaskState::Retrying);
            // While the task lives, its attempt count stays within the ceiling.
            assert!(queue.tasks[0].attempts <= MAX_RETRIES);
            now = queue.tasks[0].next_eligible;
        } else {
            assert_eq!(st, TaskState::Exhausted);
            break;
        }
    }
    assert_eq!(failures, MAX_RETRIES + 1);
    assert_eq!(queue.tasks.len(), 0);
}

#[test]
fn test_empty_destination_list() {
    let mut queue = create_activity_queue();
    let settings = enabled_settings(vec![]);
    let actor = local_person("https://home.example/u/alice", Some("pem"));
    let reports = send_activity(&mut queue, &settings, &"{}".to_string(), &actor, &vec![], 100)
        .unwrap();
    assert!(reports.is_empty());
    assert_eq!(queue.tasks.len(), 0);
    assert!(next_ready(&mut queue, 100).is_none());
}

#[test]
fn test_outcome_error_classification() {
    assert_eq!(outcome_error(&AttemptOutcome::Http(200)), None);
    assert_eq!(outcome_error(&AttemptOutcome::Http(299)), None);
    assert_eq!(
        outcome_error(&AttemptOutcome::Http(404)),
        Some(FederationError::DeliveryFailure)
    );
    assert_eq!(
        outcome_error(&AttemptOutcome::Http(301)),
        Some(FederationError::DeliveryFailure)
    );
    assert_eq!(
        outcome_error(&AttemptOutcome::TransportError),
        Some(FederationError::DeliveryFailure)
    );
    assert_eq!(
        outcome_error(&AttemptOutcome::SigningFailure),
        Some(FederationError::SigningError)
    );
}

#[test]
fn test_record_attempt_counts_up() {
    let mut task = DeliveryTask {
        activity: "{}".to_string(),
        inbox: inbox_on("remote.example"),
        actor_id: "https://home.example/u/p".to_string(),
        private_key: "pem".to_string(),
        created_at: 5,
        attempts: 0,
        state: TaskState::InFlight,
        next_eligible: 5,
    };
    record_attempt(&mut task, &AttemptOutcome::SigningFailure, 5);
    assert_eq!(task.attempts, 1);
    assert_eq!(task.state, TaskState::Retrying);
    assert_eq!(task.next_eligible, 9);
    task.state = TaskState::InFlight;
    record_attempt(&mut task, &AttemptOutcome::Http(204), 9);
    assert_eq!(task.attempts, 2);
    assert_eq!(task.state, TaskState::Succeeded);
}

#[test]
fn test_announce_from_local_community() {
    let mut queue = create_activity_queue();
    let settings = enabled_settings(vec![]);
    let creator = local_person("https://other.example/u/author", None);
    let community = community_actor("https://home.example/c/main", true, Some("community-pem"));
    let activity = Activity {
        id: "https://other.example/activities/like/1".to_string(),
        kind: "Like".to_string(),
        actor_id: creator.actor_id.clone(),
        body: "{\"type\":\"Like\",\"id\":\"https://other.example/activities/like/1\"}"
            .to_string(),
    };
    let announce_id = "https://home.example/activities/announce/42".to_string();
    let to = vec![inbox_on("follower.example")];
    let reports = send_activity_to_community(
        &mut queue,
        &settings,
        &creator,
        &community,
        &to,
        &activity,
        announce_id.clone(),
        50,
    )
    .unwrap();
    assert_eq!(reports, vec![Ok(())]);
    assert_eq!(queue.tasks.len(), 1);
    let task = &queue.tasks[0];
    // The outbound document is an Announce whose actor is the community,
    // wrapping the original activity document.
    let expected = format!(
        "{{\"type\":\"Announce\",\"id\":\"{}\",\"actor\":\"{}\",\"object\":{}}}",
        announce_id, community.actor_id, activity.body
    );
    assert_eq!(task.activity, expected);
    // Delivery is signed with the community's identity and key, never
    // the original author's.
    assert_eq!(task.actor_id, "https://home.example/c/main");
    assert_eq!(task.private_key, "community-pem");
}

#[test]
fn test_remote_community_delivers_directly() {
    let mut queue = create_activity_queue();
    let settings = enabled_settings(vec![]);
    let creator = local_person("https://home.example/u/author", Some("author-pem"));
    let community = community_actor("https://far.example/c/main", false, None);
    let activity = Activity {
        id: "https://home.example/activities/like/1".to_string(),
        kind: "Like".to_string(),
        actor_id: creator.actor_id.clone(),
        body: "{\"type\":\"Like\"}".to_string(),
    };
    let to = vec![inbox_on("far.example")];
    let reports = send_activity_to_community(
        &mut queue,
        &settings,
        &creator,
        &community,
        &to,
        &activity,
        "https://home.example/activities/announce/x".to_string(),
        50,
    )
    .unwrap();
    assert_eq!(reports, vec![Ok(())]);
    assert_eq!(queue.tasks.len(), 1);
    // No envelope: the original document, signed by its author.
    assert_eq!(queue.tasks[0].activity, "{\"type\":\"Like\"}");
    assert_eq!(queue.tasks[0].actor_id, "https://home.example/u/author");
    assert_eq!(queue.tasks[0].private_key, "author-pem");
}

#[test]
fn test_announce_needs_community_key() {
    let mut queue = create_activity_queue();
    let settings = enabled_settings(vec![]);
    let creator = local_person("https://home.example/u/author", Some("author-pem"));
    let community = community_actor("https://home.example/c/main", true, None);
    let activity = Activity {
        id: "https://home.example/activities/like/1".to_string(),
        kind: "Like".to_string(),
        actor_id: creator.actor_id.clone(),
        body: "{}".to_string(),
    };
    let r = send_activity_to_community(
        &mut queue,
        &settings,
        &creator,
        &community,
        &vec![inbox_on("follower.example")],
        &activity,
        "https://home.example/activities/announce/y".to_string(),
        50,
    );
    assert_eq!(r, Err(FederationError::MissingKeyMaterial));
    assert_eq!(queue.tasks.len(), 0);
}
