//! The delivery queue: one retryable task per destination inbox, a pure
//! capped-exponential backoff policy, and the task state machine
//! `Pending -> InFlight -> Succeeded | Retrying | Exhausted`. Execution
//! (the actual HTTP posting) lives outside; the queue only decides.

use vstd::prelude::*;
use crate::actors::Actor;
use crate::errors::FederationError;
use crate::signer::{rsa_key_ok, sign, signed_headers_text, HttpMethod, SignedHeaders};
use crate::urls::{dest_valid, url_text, Destination, DestinationView, FederationSettings};
use crate::urls::check_is_apub_id_valid;

verus! {

/// Retry ceiling: a task is dropped once its attempt count would pass this.
pub const MAX_RETRIES: u64 = 10;

/// Base delay of the exponential backoff, in seconds.
pub const BACKOFF_BASE_SECS: u64 = 2;

/// Upper bound on any backoff delay, in seconds.
pub const MAX_BACKOFF_SECS: u64 = 3600;

/// Largest clock value the queue accepts, so that `now + delay` never
/// overflows a `u64`.
pub const MAX_CLOCK_SECS: u64 = 0xffff_ffff_0000_0000;

/// Lifecycle of one delivery task.
#[derive(Clone, Copy, Debug, PartialEq, Eq, Structural)]
pub enum TaskState {
    /// Enqueued, awaiting a free worker slot.
    Pending,
    /// A worker is performing signing and the HTTP post.
    InFlight,
    /// A failed attempt was recorded; eligible again at `next_eligible`.
    Retrying,
    /// Terminal: a 2xx response was received; the task is discarded.
    Succeeded,
    /// Terminal: the retry ceiling was passed; the task is dropped.
    Exhausted,
}

/// What one delivery attempt came to.
#[derive(Clone, Copy, Debug, PartialEq, Eq, Structural)]
pub enum AttemptOutcome {
    /// An HTTP response with this status code was received.
    Http(u16),
    /// Timeout or connection error; indistinguishable for retry purposes.
    TransportError,
    /// The signer failed; retryable, since it may be transient.
    SigningFailure,
}

/// Only a 2xx response counts as a successful delivery.
pub open spec fn outcome_success(o: AttemptOutcome) -> bool {
    o matches AttemptOutcome::Http(code) && 200 <= code < 300
}

/// Classifies an attempt outcome: success exactly on HTTP 2xx.
pub fn is_success(o: &AttemptOutcome) -> (r: bool)
    ensures
        r == outcome_success(*o),
{
    match o {
        AttemptOutcome::Http(code) => 200 <= *code && *code < 300,
        AttemptOutcome::TransportError => false,
        AttemptOutcome::SigningFailure => false,
    }
}

/// The error a failed attempt is recorded under, for observation: a
/// timeout, connection error or non-2xx response is a delivery failure,
/// a signer refusal a signing error; a success maps to no error.
pub fn outcome_error(o: &AttemptOutcome) -> (r: Option<FederationError>)
    ensures
        outcome_success(*o) ==> r is None,
        !outcome_success(*o) ==> match *o {
            AttemptOutcome::SigningFailure => r == Some(FederationError::SigningError),
            _ => r == Some(FederationError::DeliveryFailure),
        },
{
    if is_success(o) {
        None
    } else {
        match o {
            AttemptOutcome::SigningFailure => Some(FederationError::SigningError),
            _ => Some(FederationError::DeliveryFailure),
        }
    }
}

/// One unit of retryable work: one signed activity bound for one inbox.
pub struct DeliveryTask {
    /// The serialized activity document to deliver.
    pub activity: String,
    /// The one destination inbox the delivery is bound for.
    pub inbox: Destination,
    /// Identity URL of the signing actor.
    pub actor_id: String,
    /// PEM private key the attempt signs with.
    pub private_key: String,
    /// Clock value at task creation.
    pub created_at: u64,
    /// Number of attempts performed so far.
    pub attempts: u64,
    /// Where the task stands in its lifecycle.
    pub state: TaskState,
    /// Earliest clock value at which the next attempt may start.
    pub next_eligible: u64,
}

/// The mathematical value of a delivery task.
pub struct TaskView {
    pub activity: Seq<char>,
    pub inbox: DestinationView,
    pub actor_id: Seq<char>,
    pub private_key: Seq<char>,
    pub created_at: int,
    pub attempts: int,
    pub state: TaskState,
    pub next_eligible: int,
}

impl View for DeliveryTask {
    type V = TaskView;

    open spec fn view(&self) -> TaskView {
        TaskView {
            activity: self.activity@,
            inbox: self.inbox@,
            actor_id: self.actor_id@,
            private_key: self.private_key@,
            created_at: self.created_at as int,
            attempts: self.attempts as int,
            state: self.state,
            next_eligible: self.next_eligible as int,
        }
    }
}

impl TaskView {
    /// A live task still owned by the queue: not yet terminal, attempt
    /// count within the ceiling, well-formed strings.
    pub open spec fn live(self) -> bool {
        &&& self.inbox.wf()
        &&& url_text(self.actor_id)
        &&& 0 <= self.attempts <= MAX_RETRIES
        &&& 0 <= self.created_at
        &&& 0 <= self.next_eligible
        &&& self.state is Pending || self.state is InFlight || self.state is Retrying
    }

    /// Whether a worker may pick the work up at clock value `now`:
    /// fresh, or due for a retry. An in-flight or terminal entry is never
    /// eligible, so retries of one delivery cannot overlap.
    pub open spec fn eligible(self, now: u64) -> bool {
        ||| self.state is Pending
        ||| (self.state is Retrying && self.next_eligible <= now)
    }
}

/// The backoff delay after `n` attempts: doubling from the base, capped.
/// Equals `min(BACKOFF_BASE_SECS * 2^n, MAX_BACKOFF_SECS)`.
pub open spec fn backoff_delay_spec(n: nat) -> nat
    decreases n,
{
    if n == 0 {
        BACKOFF_BASE_SECS as nat
    } else if 2 * backoff_delay_spec((n - 1) as nat) >= MAX_BACKOFF_SECS as nat {
        MAX_BACKOFF_SECS as nat
    } else {
        2 * backoff_delay_spec((n - 1) as nat)
    }
}

/// Every backoff delay stays within the cap.
pub proof fn lemma_backoff_bounded(n: nat)
    ensures
        BACKOFF_BASE_SECS as nat <= backoff_delay_spec(n) <= MAX_BACKOFF_SECS as nat,
    decreases n,
{
    if n > 0 {
        lemma_backoff_bounded((n - 1) as nat);
    }
}

/// The delay never shrinks from one attempt to the next, and is bounded:
/// waiting between attempts is monotonically non-decreasing and capped.
pub proof fn lemma_backoff_monotone(n: nat, m: nat)
    requires
        n <= m,
    ensures
        backoff_delay_spec(n) <= backoff_delay_spec(m),
        backoff_delay_spec(m) <= MAX_BACKOFF_SECS as nat,
    decreases m,
{
    lemma_backoff_bounded(m);
    if n < m {
        lemma_backoff_monotone(n, (m - 1) as nat);
        lemma_backoff_bounded((m - 1) as nat);
    }
}

/// Computes the backoff delay after `attempts` attempts.
pub fn backoff_delay(attempts: u64) -> (r: u64)
    ensures
        r as nat == backoff_delay_spec(attempts as nat),
        r <= MAX_BACKOFF_SECS,
{
    let mut d: u64 = BACKOFF_BASE_SECS;
    let mut i: u64 = 0;
    while i < attempts
        invariant
            i <= attempts,
            d as nat == backoff_delay_spec(i as nat),
            d <= MAX_BACKOFF_SECS,
        decreases attempts - i,
    {
        if 2 * d >= MAX_BACKOFF_SECS {
            d = MAX_BACKOFF_SECS;
        } else {
            d = 2 * d;
        }
        i = i + 1;
    }
    proof {
        lemma_backoff_bounded(attempts as nat);
    }
    d
}

/// How recording one attempt outcome moves a task: the payload is
/// untouched, the attempt count grows by exactly one, and the state
/// becomes `Succeeded` on success, `Retrying` with a backoff deadline
/// while the ceiling is not passed, and `Exhausted` past it.
pub open spec fn attempt_result(pre: TaskView, success: bool, now: u64) -> TaskView {
    TaskView {
        attempts: pre.attempts + 1,
        state: if success {
            TaskState::Succeeded
        } else if pre.attempts + 1 <= MAX_RETRIES {
            TaskState::Retrying
        } else {
            TaskState::Exhausted
        },
        next_eligible: if !success && pre.attempts + 1 <= MAX_RETRIES {
            now + backoff_delay_spec((pre.attempts + 1) as nat)
        } else {
            pre.next_eligible
        },
        ..pre
    }
}

/// The relational form of `attempt_result`.
pub open spec fn attempt_transition(pre: TaskView, post: TaskView, success: bool, now: u64) -> bool {
    post == attempt_result(pre, success, now)
}

/// Attempt counts are monotonically non-decreasing, and a task that is
/// still live after a recorded attempt is within the retry ceiling.
pub proof fn lemma_attempts_monotone_bounded(pre: TaskView, post: TaskView, success: bool, now: u64)
    requires
        attempt_transition(pre, post, success, now),
        0 <= pre.attempts <= MAX_RETRIES,
    ensures
        post.attempts >= pre.attempts,
        post.state is Retrying ==> post.attempts <= MAX_RETRIES,
        post.state is Exhausted ==> post.attempts == MAX_RETRIES + 1,
{
}

/// A task that has succeeded is terminal: at no clock value is it ever
/// eligible for another attempt.
pub proof fn lemma_succeeded_never_eligible(t: TaskView, now: u64)
    ensures
        t.state is Succeeded ==> !t.eligible(now),
{
}

/// Records the outcome of one attempt on an in-flight task.
pub fn record_attempt(task: &mut DeliveryTask, outcome: &AttemptOutcome, now: u64)
    requires
        old(task).attempts <= MAX_RETRIES,
        old(task).state is InFlight,
        now <= MAX_CLOCK_SECS,
    ensures
        attempt_transition(old(task)@, final(task)@, outcome_success(*outcome), now),
        final(task).attempts >= old(task).attempts,
{
    task.attempts = task.attempts + 1;
    if is_success(outcome) {
        task.state = TaskState::Succeeded;
    } else if task.attempts <= MAX_RETRIES {
        let d = backoff_delay(task.attempts);
        task.state = TaskState::Retrying;
        task.next_eligible = now + d;
    } else {
        task.state = TaskState::Exhausted;
    }
}

/// The same task, marked as picked up by a worker.
pub open spec fn inflight_of(t: TaskView) -> TaskView {
    TaskView { state: TaskState::InFlight, ..t }
}

/// Whether a worker may pick the entry up now.
fn task_eligible(t: &DeliveryTask, now: u64) -> (r: bool)
    ensures
        r == t@.eligible(now),
{
    match t.state {
        TaskState::Pending => true,
        TaskState::Retrying => t.next_eligible <= now,
        _ => false,
    }
}

/// The in-process delivery queue. It owns every task from enqueue to
/// terminal success or exhaustion; workers borrow one task per attempt
/// through `next_ready` and hand the outcome back through
/// `process_outcome`.
pub struct ActivityQueue {
    /// The queued tasks, all of them live.
    pub tasks: Vec<DeliveryTask>,
}

impl View for ActivityQueue {
    type V = Seq<TaskView>;

    open spec fn view(&self) -> Seq<TaskView> {
        self.tasks@.map_values(|t: DeliveryTask| t@)
    }
}

impl ActivityQueue {
    /// Queue invariant: every task it holds is live.
    pub open spec fn wf(self) -> bool {
        forall|i: int| 0 <= i < self@.len() ==> (#[trigger] self@[i]).live()
    }
}

/// Starts an empty delivery queue; the worker pool around it is the
/// caller's to run.
pub fn create_activity_queue() -> (q: ActivityQueue)
    ensures
        q@.len() == 0,
        q.wf(),
{
    ActivityQueue { tasks: Vec::new() }
}

/// The task minted for one destination of a fan-out.
pub open spec fn spec_new_task(
    activity: Seq<char>,
    dest: DestinationView,
    actor_id: Seq<char>,
    key: Seq<char>,
    now: u64,
) -> TaskView {
    TaskView {
        activity: activity,
        inbox: dest,
        actor_id: actor_id,
        private_key: key,
        created_at: now as int,
        attempts: 0,
        state: TaskState::Pending,
        next_eligible: now as int,
    }
}

/// The tasks a fan-out creates: one fresh pending task per destination
/// that passes the policy pre-check, in destination order; invalid
/// destinations contribute nothing.
pub open spec fn fanout(
    activity: Seq<char>,
    actor_id: Seq<char>,
    key: Seq<char>,
    to: Seq<DestinationView>,
    settings: FederationSettings,
    now: u64,
) -> Seq<TaskView>
    decreases to.len(),
{
    if to.len() == 0 {
        Seq::empty()
    } else {
        let rest = fanout(activity, actor_id, key, to.drop_last(), settings, now);
        if dest_valid(to.last(), settings) {
            rest.push(spec_new_task(activity, to.last(), actor_id, key, now))
        } else {
            rest
        }
    }
}

/// Every task of a fan-out carries the fanned-out activity, the signing
/// actor's identity and key, a zero attempt count, and a destination
/// that passed the policy check. In particular, when a community fans
/// out an announce, every resulting task signs with the community's key
/// and never with the original author's.
pub proof fn lemma_fanout_tasks(
    activity: Seq<char>,
    actor_id: Seq<char>,
    key: Seq<char>,
    to: Seq<DestinationView>,
    settings: FederationSettings,
    now: u64,
)
    ensures
        forall|i: int|
            0 <= i < fanout(activity, actor_id, key, to, settings, now).len() ==> {
                let t = #[trigger] fanout(activity, actor_id, key, to, settings, now)[i];
                &&& t.activity == activity
                &&& t.actor_id == actor_id
                &&& t.private_key == key
                &&& t.attempts == 0
                &&& t.state is Pending
                &&& dest_valid(t.inbox, settings)
                &&& exists|j: int| 0 <= j < to.len() && to[j] == t.inbox
            },
    decreases to.len(),
{
    if to.len() > 0 {
        lemma_fanout_tasks(activity, actor_id, key, to.drop_last(), settings, now);
        assert forall|j: int|
            0 <= j < to.len() - 1 implies to.drop_last()[j] == to[j] by {}
    }
}

/// The destination views of a destination list.
pub open spec fn dest_views(to: Seq<Destination>) -> Seq<DestinationView> {
    to.map_values(|d: Destination| d@)
}

/// The entry point of outbound federation: takes one serialized
/// activity, the signing actor and the destination inboxes, and
/// enqueues one delivery task per destination that passes the policy
/// pre-check.
///
/// The federation gate is read first: with federation disabled this is
/// a short-circuit success that builds no task at all. A keyless actor
/// is refused whole with `MissingKeyMaterial` before any task is built.
/// Otherwise the per-destination reports mark exactly the invalid
/// destinations with `InvalidDestination`, and the valid ones are
/// enqueued regardless of their invalid siblings. Delivery itself is
/// fire-and-forget: failures surface later, never to this caller.
pub fn send_activity(
    queue: &mut ActivityQueue,
    settings: &FederationSettings,
    activity: &String,
    actor: &Actor,
    to: &Vec<Destination>,
    now: u64,
) -> (r: Result<Vec<Result<(), FederationError>>, FederationError>)
    requires
        old(queue).wf(),
        actor.wf(),
        forall|i: int| 0 <= i < to@.len() ==> (#[trigger] to@[i]).wf(),
        now <= MAX_CLOCK_SECS,
    ensures
        final(queue).wf(),
        !settings.enabled ==> r is Ok && r->Ok_0@.len() == 0 && final(queue)@ == old(queue)@,
        settings.enabled && !actor.spec_has_key() ==> r == Err::<
            Vec<Result<(), FederationError>>,
            FederationError,
        >(FederationError::MissingKeyMaterial) && final(queue)@ == old(queue)@,
        settings.enabled && actor.spec_has_key() ==> {
            &&& r is Ok
            &&& final(queue)@ == old(queue)@ + fanout(
                activity@,
                actor.actor_id@,
                actor.private_key->0@,
                dest_views(to@),
                *settings,
                now,
            )
            &&& r->Ok_0@.len() == to@.len()
            &&& forall|i: int|
                0 <= i < to@.len() ==> ((#[trigger] r->Ok_0@[i]) is Ok <==> dest_valid(
                    to@[i]@,
                    *settings,
                ))
            &&& forall|i: int|
                0 <= i < to@.len() && !dest_valid(to@[i]@, *settings)
                    ==> (#[trigger] r->Ok_0@[i]) == Err::<(), FederationError>(
                    FederationError::InvalidDestination,
                )
        },
{
    if !settings.enabled {
        return Ok(Vec::new());
    }
    let key = match actor.signing_key() {
        Ok(k) => k,
        Err(_) => {
            return Err(FederationError::MissingKeyMaterial);
        },
    };
    let ghost old_view = queue@;
    let ghost dviews = dest_views(to@);
    let mut reports: Vec<Result<(), FederationError>> = Vec::new();
    let n = to.len();
    for i in 0..n
        invariant
            n == to@.len(),
            queue.wf(),
            actor.wf(),
            forall|k: int| 0 <= k < to@.len() ==> (#[trigger] to@[k]).wf(),
            now <= MAX_CLOCK_SECS,
            dviews == dest_views(to@),
            key@ == actor.private_key->0@,
            queue@ == old_view + fanout(
                activity@,
                actor.actor_id@,
                actor.private_key->0@,
                dviews.take(i as int),
                *settings,
                now,
            ),
            reports@.len() == i,
            forall|k: int|
                0 <= k < i ==> ((#[trigger] reports@[k]) is Ok <==> dest_valid(
                    to@[k]@,
                    *settings,
                )),
            forall|k: int|
                0 <= k < i && !dest_valid(to@[k]@, *settings) ==> (#[trigger] reports@[k])
                    == Err::<(), FederationError>(FederationError::InvalidDestination),
    {
        let ghost step_fan = fanout(
            activity@,
            actor.actor_id@,
            actor.private_key->0@,
            dviews.take(i + 1),
            *settings,
            now,
        );
        let ghost prev_fan = fanout(
            activity@,
            actor.actor_id@,
            actor.private_key->0@,
            dviews.take(i as int),
            *settings,
            now,
        );
        proof {
            assert(dviews.take(i + 1).drop_last() =~= dviews.take(i as int));
            assert(dviews.take(i + 1).last() == to@[i as int]@);
        }
        match check_is_apub_id_valid(&to[i], settings) {
            Ok(_) => {
                let task = DeliveryTask {
                    activity: activity.clone(),
                    inbox: to[i].duplicate(),
                    actor_id: actor.actor_id.clone(),
                    private_key: key.clone(),
                    created_at: now,
                    attempts: 0,
                    state: TaskState::Pending,
                    next_eligible: now,
                };
                proof {
                    assert(task@ == spec_new_task(
                        activity@,
                        to@[i as int]@,
                        actor.actor_id@,
                        actor.private_key->0@,
                        now,
                    ));
                    assert(step_fan == prev_fan.push(task@));
                }
                let ghost gtask = task;
                let ghost pre_tasks = queue.tasks@;
                let ghost pre_q = queue@;
                queue.tasks.push(task);
                reports.push(Ok(()));
                proof {
                    pre_tasks.lemma_push_map_commute(|t: DeliveryTask| t@, gtask);
                    assert(queue@ =~= pre_q.push(gtask@));
                    assert(queue@ =~= old_view + step_fan);
                }
            },
            Err(_) => {
                reports.push(Err(FederationError::InvalidDestination));
                proof {
                    assert(step_fan == prev_fan);
                }
            },
        }
    }
    proof {
        assert(dviews.take(n as int) =~= dviews);
    }
    Ok(reports)
}

/// Hands the first due task to a worker: the earliest task that is
/// pending, or retrying past its backoff deadline, is marked in-flight
/// and its index returned. Terminal and in-flight tasks are never
/// picked, so retries of one task cannot overlap and a succeeded task
/// performs no further attempts.
pub fn next_ready(queue: &mut ActivityQueue, now: u64) -> (r: Option<usize>)
    requires
        old(queue).wf(),
    ensures
        final(queue).wf(),
        match r {
            Some(idx) => {
                &&& idx < old(queue)@.len()
                &&& old(queue)@[idx as int].eligible(now)
                &&& final(queue)@ == old(queue)@.update(
                    idx as int,
                    inflight_of(old(queue)@[idx as int]),
                )
                &&& forall|j: int| 0 <= j < idx ==> !(#[trigger] old(queue)@[j]).eligible(now)
            },
            None => {
                &&& final(queue)@ == old(queue)@
                &&& forall|j: int|
                    0 <= j < old(queue)@.len() ==> !(#[trigger] old(queue)@[j]).eligible(now)
            },
        },
{
    let n = queue.tasks.len();
    let mut idx: usize = 0;
    let mut found = false;
    while idx < n && !found
        invariant
            n == queue@.len(),
            idx <= n,
            queue.wf(),
            !found ==> forall|j: int| 0 <= j < idx ==> !(#[trigger] queue@[j]).eligible(now),
            found ==> idx < n && queue@[idx as int].eligible(now) && (forall|j: int|
                0 <= j < idx ==> !(#[trigger] queue@[j]).eligible(now)),
        decreases n - idx, (if found { 0int } else { 1int }),
    {
        if task_eligible(&queue.tasks[idx], now) {
            found = true;
        } else {
            idx = idx + 1;
        }
    }
    if !found {
        return None;
    }
    let ghost pre_q = queue@;
    let ghost pre_tasks = queue.tasks@;
    let mut task = queue.tasks.remove(idx);
    task.state = TaskState::InFlight;
    let ghost gtask = task;
    queue.tasks.insert(idx, task);
    proof {
        assert(gtask@ == inflight_of(pre_q[idx as int]));
        assert(queue.tasks@ =~= pre_tasks.update(idx as int, gtask));
        assert(queue@ =~= pre_q.update(idx as int, gtask@));
    }
    Some(idx)
}

/// Records what one delivery attempt came to, and settles the task:
/// a succeeded or exhausted task leaves the queue for good — in
/// particular, a task that succeeds is never attempted again — while a
/// failed one within the ceiling stays, rescheduled after its backoff
/// delay. The recorded state is returned for observation; no failure
/// ever propagates to the application request that produced the
/// activity.
pub fn process_outcome(
    queue: &mut ActivityQueue,
    idx: usize,
    outcome: &AttemptOutcome,
    now: u64,
) -> (r: TaskState)
    requires
        old(queue).wf(),
        idx < old(queue)@.len(),
        old(queue)@[idx as int].state is InFlight,
        now <= MAX_CLOCK_SECS,
    ensures
        final(queue).wf(),
        r == attempt_result(old(queue)@[idx as int], outcome_success(*outcome), now).state,
        r is Retrying ==> final(queue)@ == old(queue)@.update(
            idx as int,
            attempt_result(old(queue)@[idx as int], outcome_success(*outcome), now),
        ),
        !(r is Retrying) ==> final(queue)@ == old(queue)@.remove(idx as int),
        outcome_success(*outcome) ==> r is Succeeded,
        !outcome_success(*outcome) && old(queue)@[idx as int].attempts < MAX_RETRIES ==> r
            is Retrying,
        !outcome_success(*outcome) && old(queue)@[idx as int].attempts == MAX_RETRIES ==> r
            is Exhausted,
{
    let ghost pre_q = queue@;
    let ghost pre_tasks = queue.tasks@;
    let mut task = queue.tasks.remove(idx);
    proof {
        assert(queue@ =~= pre_q.remove(idx as int));
    }
    record_attempt(&mut task, outcome, now);
    let st = task.state;
    let keep = match st {
        TaskState::Retrying => true,
        _ => false,
    };
    if keep {
        let ghost gtask = task;
        queue.tasks.insert(idx, task);
        proof {
            assert(queue.tasks@ =~= pre_tasks.update(idx as int, gtask));
            assert(queue@ =~= pre_q.update(idx as int, gtask@));
        }
    }
    st
}

/// The compute half of one worker attempt: signs the task's activity
/// for its single destination inbox, with a freshly injected date —
/// signing happens per attempt because a signature is only valid for a
/// short while. The HTTP post that follows is the execution loop's job,
/// outside the engine.
pub fn sign_task(task: &DeliveryTask, date: &String) -> (r: Result<SignedHeaders, FederationError>)
    ensures
        r is Ok <==> rsa_key_ok(task.private_key@),
        r is Ok ==> signed_headers_text(
            HttpMethod::Post,
            task.inbox,
            task.activity@,
            task.actor_id@,
            task.private_key@,
            date@,
            r->Ok_0,
        ),
        r is Err ==> r->Err_0 == FederationError::SigningError,
{
    sign(
        HttpMethod::Post,
        &task.inbox,
        task.activity.as_str(),
        &task.actor_id,
        &task.private_key,
        date,
    )
}

} // verus!



