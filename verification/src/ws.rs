//! Websocket actors: the bounded queue of websocket messages being handled,
//! and the life of each such message.
use vstd::prelude::*;

use std::collections::VecDeque;

use crate::Error;

verus! {

broadcast use vstd::seq_lib::group_to_multiset_ensures;

/// How many received websocket messages may wait for their handling at once.
pub const WS_QUEUE_SIZE: usize = 128;

/// An actor that can get access to a websocket: its sink and its stream.
/// `Error` is the error type of the stream's items.
pub trait WsActor<M, Str, Sin> {
    /// The error type of the underlying websocket implementation.
    type Error;

    fn websocket(&mut self) -> (Sin, Str);
}

/// `VecDeque::swap_remove_front`: removes the element at `index` and returns
/// it, putting the first element in its place (at index 0 it simply pops the
/// front); `None` when `index` is out of bounds.
#[verifier::external_body]
fn deque_swap_remove_front<T>(queue: &mut VecDeque<T>, index: usize) -> (r: Option<T>)
    ensures
        index < old(queue)@.len() ==> r == Some(old(queue)@[index as int])
            && final(queue)@ == old(queue)@.update(index as int, old(queue)@[0]).drop_first(),
        index >= old(queue)@.len() ==> r is None && final(queue)@ == old(queue)@,
{
    queue.swap_remove_front(index)
}

/// `VecDeque::get_mut`: the element at `index`, borrowed mutably; whatever is
/// written through the borrow lands at that index. `None` when `index` is out
/// of bounds.
#[verifier::external_body]
fn deque_get_mut<T>(queue: &mut VecDeque<T>, index: usize) -> (r: Option<&mut T>)
    ensures
        index < old(queue)@.len() ==> (r matches Some(x) && *x == old(queue)@[index as int]
            && final(queue)@ == old(queue)@.update(index as int, *final(x))),
        index >= old(queue)@.len() ==> r is None && final(queue)@ == old(queue)@,
{
    queue.get_mut(index)
}

/// A received websocket message on its way through the actor's handler: the
/// message itself until handling starts, then the handling in progress (`F`).
#[verifier::reject_recursive_types(M)]
#[verifier::reject_recursive_types(F)]
pub struct WebsocketJob<M, F> {
    message: Option<M>,
    future: Option<F>,
}

impl<M, F> WebsocketJob<M, F> {
    pub closed spec fn message(&self) -> Option<M> {
        self.message
    }

    pub closed spec fn handling(&self) -> Option<F> {
        self.future
    }

    /// A job holds its message until handling starts, and its handling from
    /// then on.
    pub open spec fn wf(&self) -> bool {
        self.message() is Some <==> self.handling() is None
    }

    pub fn new(message: M) -> (j: Self)
        ensures
            j.message() == Some(message),
            j.handling() is None,
            j.wf(),
    {
        WebsocketJob { message: Some(message), future: None }
    }

    /// The job's handling, started first with `start` on the job's message if
    /// it has not started yet. From then on the job holds its handling and no
    /// message.
    pub fn handling_for<G: FnOnce(M) -> F>(&mut self, start: G) -> (f: &mut F)
        requires
            old(self).wf(),
            old(self).message() matches Some(m) ==> call_requires(start, (m,)),
        ensures
            final(self).wf(),
            final(self).message() is None,
            final(self).handling() == Some(*final(f)),
            old(self).message() matches Some(m) ==> call_ensures(start, (m,), *f),
            old(self).message() is None ==> Some(*f) == old(self).handling(),
    {
        match self.message.take() {
            Some(m) => {
                self.future = Some(start(m));
            },
            None => {},
        }
        self.future.as_mut().unwrap()
    }

    /// The handling in progress, if it has started.
    pub fn handling_mut(&mut self) -> (r: Option<&mut F>)
        ensures
            old(self).handling() is None ==> r is None && *final(self) == *old(self),
            old(self).handling() matches Some(f) ==> r matches Some(g) && *g == f
                && final(self).handling() == Some(*final(g))
                && final(self).message() == old(self).message(),
    {
        self.future.as_mut()
    }
}

/// The outcome of looking once at a job's handling.
#[derive(Debug, PartialEq, Eq)]
pub enum JobPoll<R> {
    Ready(R),
    Pending,
}

/// What a sweep over the queue does after looking at the job at `idx`.
#[derive(Debug, PartialEq, Eq)]
pub enum Settled<J, M> {
    /// The job is still being handled; look at the job at the next index.
    Next(usize),
    /// The job is done and left the queue; its response, if any, goes to the
    /// sink. The job at the same index comes next.
    Finished { next: usize, job: J, response: Option<M> },
    /// The handling failed; the job left the queue, and the job at the same
    /// index comes next.
    Failed { next: usize, job: J, error: Error },
}

/// Whether the queue has room for another received message.
pub fn has_room<J>(queue: &VecDeque<J>) -> (b: bool)
    ensures
        b == (queue@.len() < WS_QUEUE_SIZE),
{
    queue.len() < WS_QUEUE_SIZE
}

/// Appends a received message's job to the queue, which must have room.
/// Returns whether there is room left for another.
pub fn enqueue<J>(queue: &mut VecDeque<J>, job: J) -> (room_left: bool)
    requires
        old(queue)@.len() < WS_QUEUE_SIZE,
    ensures
        final(queue)@ == old(queue)@.push(job),
        room_left == (final(queue)@.len() < WS_QUEUE_SIZE),
{
    queue.push_back(job);
    queue.len() < WS_QUEUE_SIZE
}

/// What reading the websocket does after one look at its stream.
#[derive(Debug, PartialEq, Eq)]
pub enum Intake {
    /// Look at the stream again.
    Continue,
    /// Stop reading for now: the queue is full, or the stream has nothing
    /// ready.
    Stop,
}

/// Takes one look at the websocket stream into account; called only while
/// the queue has room. A received message joins the queue as a new job, and
/// reading goes on while room is left; an item that is an error is skipped;
/// a stream with nothing ready, or ended, stops the reading. The queue never
/// grows beyond [WS_QUEUE_SIZE].
pub fn intake<M, E, F>(queue: &mut VecDeque<WebsocketJob<M, F>>, item: Option<Result<M, E>>) -> (i: Intake)
    requires
        old(queue)@.len() < WS_QUEUE_SIZE,
    ensures
        final(queue)@.len() <= WS_QUEUE_SIZE,
        match item {
            Some(Ok(m)) => final(queue)@.len() == old(queue)@.len() + 1
                && final(queue)@.drop_last() == old(queue)@
                && final(queue)@.last().message() == Some(m)
                && final(queue)@.last().handling() is None
                && (i is Continue <==> final(queue)@.len() < WS_QUEUE_SIZE),
            Some(Err(_)) => final(queue)@ == old(queue)@ && i is Continue,
            None => final(queue)@ == old(queue)@ && i is Stop,
        },
{
    match item {
        Some(Ok(message)) => {
            let job = WebsocketJob::new(message);
            if enqueue(queue, job) {
                Intake::Continue
            } else {
                Intake::Stop
            }
        },
        Some(Err(_)) => Intake::Continue,
        None => Intake::Stop,
    }
}

/// Takes the outcome of looking at the job at `idx` into account. A pending
/// job stays and the sweep moves on; a finished or failed job leaves the
/// queue, the first job taking its place, and the sweep stays at the same
/// index, where the next job not yet looked at now stands. A finished job's
/// response is handed out.
pub fn settle<J, M>(queue: &mut VecDeque<J>, idx: usize, outcome: JobPoll<Result<Option<M>, Error>>) -> (s: Settled<J, M>)
    requires
        idx < old(queue)@.len(),
    ensures
        match outcome {
            JobPoll::Pending => s == Settled::<J, M>::Next((idx + 1) as usize) && final(queue)@ == old(queue)@,
            JobPoll::Ready(Err(e)) => s == Settled::<J, M>::Failed { next: idx, job: old(queue)@[idx as int], error: e }
                && final(queue)@ == old(queue)@.update(idx as int, old(queue)@[0]).drop_first(),
            JobPoll::Ready(Ok(response)) => s == Settled::<J, M>::Finished { next: idx, job: old(queue)@[idx as int], response }
                && final(queue)@ == old(queue)@.update(idx as int, old(queue)@[0]).drop_first(),
        },
{
    let len = queue.len();
    assert(idx < len);
    match outcome {
        JobPoll::Pending => Settled::Next(idx + 1),
        JobPoll::Ready(Err(error)) => {
            let removed = deque_swap_remove_front(queue, idx);
            match removed {
                Some(job) => Settled::Failed { next: idx, job, error },
                None => Settled::Next(idx + 1),
            }
        },
        JobPoll::Ready(Ok(response)) => {
            let removed = deque_swap_remove_front(queue, idx);
            match removed {
                Some(job) => Settled::Finished { next: idx, job, response },
                None => Settled::Next(idx + 1),
            }
        },
    }
}

/// Looks at the handling of a job; implemented by whoever drives the jobs'
/// handling.
pub trait JobPoller<J, M> {
    /// Whether looking at a job can take it from `pre` to `post` with
    /// `outcome`: what the implementation's `poll_job` does, as a relation.
    /// An implementation that states nothing keeps the default, which allows
    /// any outcome.
    open spec fn polled(pre: J, post: J, outcome: JobPoll<Result<Option<M>, Error>>) -> bool {
        true
    }

    fn poll_job(&mut self, job: &mut J) -> (outcome: JobPoll<Result<Option<M>, Error>>)
        ensures
            Self::polled(*old(job), *final(job), outcome);
}

/// The job was last looked at and found still pending.
pub open spec fn seen_pending<J, M, P: JobPoller<J, M>>(job: J) -> bool {
    exists|pre: J| #[trigger] P::polled(pre, job, JobPoll::Pending)
}

/// An outcome that looking at some job can give.
pub open spec fn seen_outcome<J, M, P: JobPoller<J, M>>(outcome: JobPoll<Result<Option<M>, Error>>) -> bool {
    exists|pre: J, post: J| #[trigger] P::polled(pre, post, outcome)
}

/// The responses of the finished jobs among `outcomes`, in order.
pub open spec fn answers<M>(outcomes: Seq<JobPoll<Result<Option<M>, Error>>>) -> Seq<M>
    decreases outcomes.len(),
{
    if outcomes.len() == 0 {
        Seq::empty()
    } else {
        let rest = answers(outcomes.drop_last());
        match outcomes.last() {
            JobPoll::Ready(Ok(Some(m))) => rest.push(m),
            _ => rest,
        }
    }
}

/// The errors of the failed jobs among `outcomes`, in order.
pub open spec fn errors<M>(outcomes: Seq<JobPoll<Result<Option<M>, Error>>>) -> Seq<Error>
    decreases outcomes.len(),
{
    if outcomes.len() == 0 {
        Seq::empty()
    } else {
        let rest = errors(outcomes.drop_last());
        match outcomes.last() {
            JobPoll::Ready(Err(e)) => rest.push(e),
            _ => rest,
        }
    }
}

/// How many of `outcomes` are finished jobs.
pub open spec fn finishes<M>(outcomes: Seq<JobPoll<Result<Option<M>, Error>>>) -> nat
    decreases outcomes.len(),
{
    if outcomes.len() == 0 {
        0
    } else {
        finishes(outcomes.drop_last()) + match outcomes.last() {
            JobPoll::Ready(Ok(_)) => 1nat,
            _ => 0nat,
        }
    }
}

/// How many of `outcomes` are pending jobs.
pub open spec fn pendings<M>(outcomes: Seq<JobPoll<Result<Option<M>, Error>>>) -> nat
    decreases outcomes.len(),
{
    if outcomes.len() == 0 {
        0
    } else {
        pendings(outcomes.drop_last()) + match outcomes.last() {
            JobPoll::Pending => 1nat,
            _ => 0nat,
        }
    }
}

/// `outcomes`, one per job looked at and in the order they were looked at,
/// account for a sweep: each is one the poller can give; the jobs left are
/// the pending ones; the finished jobs are counted; their responses, and the
/// errors of the failed jobs, are collected in order and nothing else is.
pub open spec fn sweep_accounts<J, M, P: JobPoller<J, M>>(
    outcomes: Seq<JobPoll<Result<Option<M>, Error>>>,
    looked: nat,
    left: nat,
    responses: Seq<M>,
    finished: nat,
    failures: Seq<Error>,
) -> bool {
    &&& outcomes.len() == looked
    &&& forall|i: int| 0 <= i < outcomes.len() ==> #[trigger] seen_outcome::<J, M, P>(outcomes[i])
    &&& pendings(outcomes) == left
    &&& finishes(outcomes) == finished
    &&& answers(outcomes) == responses
    &&& errors(outcomes) == failures
}

/// Looking at `job` can give `outcome`.
pub open spec fn looked_at<J, M, P: JobPoller<J, M>>(job: J, outcome: JobPoll<Result<Option<M>, Error>>) -> bool {
    exists|post: J| #[trigger] P::polled(job, post, outcome)
}

/// The `i`-th of `outcomes` came from looking at the `i`-th of `jobs`: the
/// jobs were looked at in their order.
pub open spec fn looked_in_order<J, M, P: JobPoller<J, M>>(outcomes: Seq<JobPoll<Result<Option<M>, Error>>>, jobs: Seq<J>) -> bool {
    forall|i: int| 0 <= i < outcomes.len() ==> #[trigger] looked_at::<J, M, P>(jobs[i], outcomes[i])
}

/// One more outcome adds to exactly one of the collections it is counted in.
pub proof fn lemma_outcome_appended<M>(outcomes: Seq<JobPoll<Result<Option<M>, Error>>>, outcome: JobPoll<Result<Option<M>, Error>>)
    ensures
        answers(outcomes.push(outcome)) == match outcome {
            JobPoll::Ready(Ok(Some(m))) => answers(outcomes).push(m),
            _ => answers(outcomes),
        },
        errors(outcomes.push(outcome)) == match outcome {
            JobPoll::Ready(Err(e)) => errors(outcomes).push(e),
            _ => errors(outcomes),
        },
        finishes(outcomes.push(outcome)) == finishes(outcomes) + match outcome {
            JobPoll::Ready(Ok(_)) => 1nat,
            _ => 0nat,
        },
        pendings(outcomes.push(outcome)) == pendings(outcomes) + match outcome {
            JobPoll::Pending => 1nat,
            _ => 0nat,
        },
{
    assert(outcomes.push(outcome).drop_last() =~= outcomes);
}

/// The result of one sweep over the queue.
#[derive(Debug, PartialEq, Eq)]
pub struct Swept<M> {
    /// The responses of the finished jobs that had one, in the order the jobs
    /// finished; each goes to the sink.
    pub responses: Vec<M>,
    /// How many jobs finished and left the queue.
    pub finished: usize,
    /// The errors of the jobs whose handling failed; they left the queue.
    pub failures: Vec<Error>,
}

/// Looks at every job in the queue exactly once, from the front: a pending
/// job stays, a finished job leaves the queue (the front job taking its place)
/// and its response is collected, and a failed job leaves the queue and its
/// error is collected. The outcomes seen, in order, account for the result:
/// every job left was found pending, every finished job is counted, and the
/// responses and errors collected are exactly those the jobs gave, in order.
pub fn sweep<J, M, P: JobPoller<J, M>>(queue: &mut VecDeque<J>, poller: &mut P) -> (r: Swept<M>)
    ensures
        final(queue)@.len() + r.finished + r.failures@.len() == old(queue)@.len(),
        forall|k: int| 0 <= k < final(queue)@.len() ==> #[trigger] seen_pending::<J, M, P>(final(queue)@[k]),
        exists|outcomes: Seq<JobPoll<Result<Option<M>, Error>>>|
            #[trigger] sweep_accounts::<J, M, P>(
                outcomes,
                old(queue)@.len(),
                final(queue)@.len(),
                r.responses@,
                r.finished as nat,
                r.failures@,
            ) && looked_in_order::<J, M, P>(outcomes, old(queue)@),
{
    let mut responses: Vec<M> = Vec::new();
    let mut failures: Vec<Error> = Vec::new();
    let mut finished: usize = 0;
    let mut idx: usize = 0;
    let total: usize = queue.len();
    let ghost mut log: Seq<JobPoll<Result<Option<M>, Error>>> = Seq::empty();
    while idx < queue.len()
        invariant
            total == old(queue)@.len(),
            queue@.len() + finished + failures@.len() == old(queue)@.len(),
            idx <= queue@.len(),
            forall|k: int| 0 <= k < idx ==> #[trigger] seen_pending::<J, M, P>(queue@[k]),
            sweep_accounts::<J, M, P>(log, (idx + finished + failures@.len()) as nat, idx as nat, responses@, finished as nat, failures@),
            looked_in_order::<J, M, P>(log, old(queue)@),
            forall|k: int| idx <= k < queue@.len() ==> #[trigger] queue@[k] == old(queue)@[log.len() + k - idx],
        decreases queue@.len() - idx,
    {
        let ghost before = queue@;
        let outcome = match deque_get_mut(queue, idx) {
            Some(job) => poller.poll_job(job),
            None => JobPoll::Pending,
        };
        let ghost polled = queue@;
        assert(P::polled(before[idx as int], polled[idx as int], outcome));
        assert(seen_outcome::<J, M, P>(outcome));
        assert(before[idx as int] == old(queue)@[log.len() as int]);
        assert(looked_at::<J, M, P>(old(queue)@[log.len() as int], outcome));
        proof {
            lemma_outcome_appended(log, outcome);
            log = log.push(outcome);
        }
        assert forall|i: int| 0 <= i < log.len() implies #[trigger] seen_outcome::<J, M, P>(log[i]) by {
            if i < log.len() - 1 {
                assert(log[i] == log.drop_last()[i]);
            }
        }
        assert forall|i: int| 0 <= i < log.len() implies #[trigger] looked_at::<J, M, P>(old(queue)@[i], log[i]) by {
            if i < log.len() - 1 {
                assert(log[i] == log.drop_last()[i]);
            }
        }
        assert forall|k: int| 0 <= k < idx implies #[trigger] seen_pending::<J, M, P>(polled[k]) by {
            assert(polled[k] == before[k]);
        }
        match settle(queue, idx, outcome) {
            Settled::Next(next) => {
                assert(seen_pending::<J, M, P>(polled[idx as int]));
                idx = next;
            },
            Settled::Finished { next, job: _, response } => {
                finished = finished + 1;
                assert forall|k: int| 0 <= k < idx implies #[trigger] seen_pending::<J, M, P>(queue@[k]) by {
                    if k + 1 < idx {
                        assert(queue@[k] == polled[k + 1]);
                    } else {
                        assert(queue@[k] == polled[0]);
                    }
                }
                match response {
                    Some(m) => {
                        responses.push(m);
                    },
                    None => {},
                }
                idx = next;
            },
            Settled::Failed { next, job: _, error } => {
                assert forall|k: int| 0 <= k < idx implies #[trigger] seen_pending::<J, M, P>(queue@[k]) by {
                    if k + 1 < idx {
                        assert(queue@[k] == polled[k + 1]);
                    } else {
                        assert(queue@[k] == polled[0]);
                    }
                }
                failures.push(error);
                idx = next;
            },
        }
    }
    let r = Swept { responses, finished, failures };
    assert(sweep_accounts::<J, M, P>(log, old(queue)@.len(), queue@.len(), r.responses@, r.finished as nat, r.failures@));
    r
}

/// Outcomes that all finish with a response collect exactly those responses,
/// in order, and count no pending job and no failure.
pub proof fn lemma_all_answering<M>(outcomes: Seq<JobPoll<Result<Option<M>, Error>>>, responses: Seq<M>)
    requires
        outcomes.len() == responses.len(),
        forall|i: int| 0 <= i < outcomes.len() ==> #[trigger] outcomes[i] == JobPoll::<Result<Option<M>, Error>>::Ready(Ok(Some(responses[i]))),
    ensures
        answers(outcomes) == responses,
        errors(outcomes).len() == 0,
        pendings(outcomes) == 0,
        finishes(outcomes) == outcomes.len(),
    decreases outcomes.len(),
{
    if outcomes.len() > 0 {
        let shorter = outcomes.drop_last();
        assert forall|i: int| 0 <= i < shorter.len() implies #[trigger] shorter[i] == JobPoll::<Result<Option<M>, Error>>::Ready(Ok(Some(responses.drop_last()[i]))) by {
            assert(shorter[i] == outcomes[i]);
        }
        lemma_all_answering(shorter, responses.drop_last());
        assert(outcomes.last() == outcomes[outcomes.len() - 1]);
        assert(responses.drop_last().push(responses.last()) =~= responses);
    }
}

/// A sweep looks at the jobs in the order they stand in the queue, from the
/// front: when looking at any job finishes it with `response(job)`, the
/// responses a sweep collects are the jobs' responses in queue order, every
/// job finishes, and none fails.
pub proof fn lemma_sweep_keeps_queue_order<J, M, P: JobPoller<J, M>>(
    outcomes: Seq<JobPoll<Result<Option<M>, Error>>>,
    jobs: Seq<J>,
    left: nat,
    responses: Seq<M>,
    finished: nat,
    failures: Seq<Error>,
    response: spec_fn(J) -> M,
)
    requires
        sweep_accounts::<J, M, P>(outcomes, jobs.len(), left, responses, finished, failures),
        looked_in_order::<J, M, P>(outcomes, jobs),
        forall|job: J, post: J, outcome: JobPoll<Result<Option<M>, Error>>|
            #[trigger] P::polled(job, post, outcome) ==> outcome == JobPoll::<Result<Option<M>, Error>>::Ready(Ok(Some(response(job)))),
    ensures
        responses == jobs.map_values(response),
        left == 0,
        finished == jobs.len(),
        failures.len() == 0,
{
    let expected = jobs.map_values(response);
    assert forall|i: int| 0 <= i < outcomes.len() implies #[trigger] outcomes[i] == JobPoll::<Result<Option<M>, Error>>::Ready(Ok(Some(expected[i]))) by {
        assert(looked_at::<J, M, P>(jobs[i], outcomes[i]));
        let post = choose|post: J| #[trigger] P::polled(jobs[i], post, outcomes[i]);
        assert(P::polled(jobs[i], post, outcomes[i]));
    }
    lemma_all_answering(outcomes, expected);
}

/// The queue stays within [WS_QUEUE_SIZE]: a message's job is enqueued only
/// while there is room, and settling a job never makes the queue longer.
pub proof fn lemma_queue_stays_bounded<J>(queue: Seq<J>, job: J, idx: int)
    requires
        queue.len() <= WS_QUEUE_SIZE,
    ensures
        queue.len() < WS_QUEUE_SIZE ==> queue.push(job).len() <= WS_QUEUE_SIZE,
        0 <= idx < queue.len() ==> queue.update(idx, queue[0]).drop_first().len() < queue.len(),
{
}

/// Settling a finished job takes exactly that job out of the queue: the other
/// jobs stay, none is lost or duplicated, and the queue is one shorter.
pub proof fn lemma_finished_job_leaves_queue<J>(queue: Seq<J>, idx: int)
    requires
        0 <= idx < queue.len(),
    ensures
        queue.update(idx, queue[0]).drop_first().to_multiset() == queue.to_multiset().remove(queue[idx]),
        queue.update(idx, queue[0]).drop_first().len() == queue.len() - 1,
{
    let u = queue.update(idx, queue[0]);
    assert(u.drop_first() == u.remove(0));
    assert(u[0] == queue[0]) by {
        if idx == 0 {
        }
    }
    assert(u.to_multiset() == queue.to_multiset().insert(queue[0]).remove(queue[idx]));
    assert(u.remove(0).to_multiset() == u.to_multiset().remove(u[0]));
    assert(queue.to_multiset().insert(queue[0]).remove(queue[idx]).remove(queue[0])
        =~= queue.to_multiset().remove(queue[idx]));
}

} // verus!
