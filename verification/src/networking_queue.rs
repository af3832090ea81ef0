//! The request/response queue: typed requests, the command and completion
//! units that cross between the caller-facing side and the worker, and the
//! decisions both sides take.
//!
//! The queue owns one dedicated background execution context.  The worker
//! thread, the task scheduler, the channels and the HTTP client are driven
//! by the unverified shell; this module fixes what they must do: which
//! command a submission turns into, when submissions are refused, what the
//! worker does with each command, which transport outcomes yield a
//! completion, and how many receive attempts a bounded drain performs.

use vstd::prelude::*;
use crate::config::InitError;

verus! {

/// The supported request methods — a single variant at present, extensible
/// later.
#[derive(Clone, Copy, Debug, PartialEq, Eq, Structural)]
pub enum RequestType {
    Get,
}

/// Whether the transport's URI parser accepts the text.  It relies on
/// `hyper::Uri`, whose acceptance is a function of the characters alone.
pub uninterp spec fn uri_ok(s: Seq<char>) -> bool;

/// Relies on `hyper::Uri`'s `FromStr` parser: whether the text is accepted
/// as a URI, a deterministic function of the characters.
#[verifier::external_body]
pub(crate) fn parse_uri_ok(s: &str) -> (r: bool)
    ensures
        r == uri_ok(s@),
{
    match s.parse::<hyper::Uri>() {
        Ok(_) => true,
        Err(_) => false,
    }
}

/// A request: caller-assigned correlation id, method, and target URI.
/// Immutable after construction, and only constructed over a URI the
/// transport's parser accepts.
#[derive(Clone, Debug)]
pub struct Request {
    pub id: isize,
    pub http_type: RequestType,
    pub uri: String,
}

impl Request {
    /// The construction-time guarantee: the URI text was validated.
    pub open spec fn wf(&self) -> bool {
        uri_ok(self.uri@)
    }

    pub fn new(id: isize, http_type: RequestType, uri: String) -> (r: Request)
        requires
            uri_ok(uri@),
        ensures
            r.id == id,
            r.http_type == http_type,
            r.uri == uri,
            r.wf(),
    {
        Request { id, http_type, uri }
    }
}

/// A finished request: the originating request and the raw result bytes.
/// There is no status field — success is modeled by the existence of a
/// response, failure by its absence.
#[derive(Debug)]
pub struct Response {
    pub base_request: Request,
    pub body: Vec<u8>,
}

impl Response {
    pub fn new(base_request: Request, body: Vec<u8>) -> (r: Response)
        ensures
            r.base_request == base_request,
            r.body == body,
    {
        Response { base_request, body }
    }
}

/// A callable plus the opaque caller-supplied payload, captured at
/// submission time and owned by the queue until invoked exactly once.  The
/// callable itself cannot enter verified code; it is carried as an opaque
/// token chosen by the host — for a foreign caller, the function pointer's
/// address.
#[derive(Debug)]
pub struct PendingCallback {
    pub handler: usize,
    pub user_data: Vec<u8>,
}

/// The unit sent from the caller-facing API to the worker.
pub enum Command {
    Submit(Request, PendingCallback),
    Shutdown,
}

/// The unit sent from the worker back to the caller-facing side: a response
/// paired with its callback, ready for synchronous delivery.
pub struct Completion {
    pub response: Response,
    pub callback: PendingCallback,
}

/// Why a submission was refused.
#[derive(Clone, Copy, Debug, PartialEq, Eq, Structural)]
pub enum SubmitError {
    /// The submission raced with shutdown: once shutdown has been initiated
    /// no command is accepted, so the request can cause no network activity.
    ShutdownRace,
}

/// The caller-facing queue state.  It decides which commands leave the
/// caller-facing side and refuses submissions once shutdown has begun.
pub struct Queue {
    stopped: bool,
}

impl Queue {
    /// Whether shutdown has been initiated.
    pub closed spec fn is_stopped(&self) -> bool {
        self.stopped
    }

    /// Starts a queue around a positive worker-concurrency hint (the
    /// resolver/connection sizing of the shared network client).  A zero
    /// hint is a fatal initialization error, never a silently degraded
    /// queue.
    pub fn new(number_of_dns_threads: usize) -> (r: Result<Queue, InitError>)
        ensures
            number_of_dns_threads == 0 ==> r == Err::<Queue, InitError>(
                InitError::InvalidConcurrency,
            ),
            number_of_dns_threads > 0 ==> (r matches Ok(q) && !q.is_stopped()),
    {
        if number_of_dns_threads == 0 {
            Err(InitError::InvalidConcurrency)
        } else {
            Ok(Queue { stopped: false })
        }
    }

    /// Accepts a request plus callback and emits the `Submit` command bound
    /// for the worker.  After shutdown has been initiated nothing is
    /// accepted: no command is produced, so no later submission results in
    /// network activity.
    pub fn send_request(&mut self, request: Request, callback: PendingCallback) -> (r: Result<
        Command,
        SubmitError,
    >)
        ensures
            !old(self).is_stopped() ==> (r == Ok::<Command, SubmitError>(
                Command::Submit(request, callback),
            ) && !final(self).is_stopped()),
            old(self).is_stopped() ==> (r == Err::<Command, SubmitError>(
                SubmitError::ShutdownRace,
            ) && final(self).is_stopped()),
    {
        if self.stopped {
            Err(SubmitError::ShutdownRace)
        } else {
            Ok(Command::Submit(request, callback))
        }
    }

    /// Initiates shutdown and emits the `Shutdown` command; the shell sends
    /// it and then joins the worker thread, so that by the time its `stop`
    /// returns the worker has terminated.  Idempotent on its first call; a
    /// second call is a caller error and is excluded here.
    pub fn stop(&mut self) -> (cmd: Command)
        requires
            !old(self).is_stopped(),
        ensures
            final(self).is_stopped(),
            cmd == Command::Shutdown,
    {
        self.stopped = true;
        Command::Shutdown
    }
}

/// What the worker does with one received command: perform the request
/// against the network, or terminate and receive nothing further.
pub enum WorkerStep {
    Perform(Request, PendingCallback),
    Terminate,
}

/// The worker's dispatch: every `Submit` becomes exactly the network
/// operation for its request, and `Shutdown` terminates the worker.
pub fn plan_command(cmd: Command) -> (step: WorkerStep)
    ensures
        cmd matches Command::Submit(r, c) ==> step == WorkerStep::Perform(r, c),
        cmd is Shutdown ==> step is Terminate,
{
    match cmd {
        Command::Submit(request, callback) => WorkerStep::Perform(request, callback),
        Command::Shutdown => WorkerStep::Terminate,
    }
}

/// Folds a transport outcome into at most one completion.  A body yields
/// the completion whose response carries the originating request — and so
/// its correlation id — together with the captured callback; a transport
/// failure yields nothing, so the callback never fires and the correlation
/// id is never resolved.
pub fn complete_request(request: Request, callback: PendingCallback, outcome: Option<Vec<u8>>) -> (c:
    Option<Completion>)
    ensures
        outcome matches Some(body) ==> (c matches Some(comp) && comp.response.base_request
            == request && comp.response.body == body && comp.callback == callback),
        outcome is None ==> c is None,
{
    match outcome {
        Some(body) => Some(
            Completion { response: Response { base_request: request, body }, callback },
        ),
        None => None,
    }
}

/// The attempt budget of a bounded drain.  A drain with limit `n` performs
/// receive attempts while the count has not passed `n`, so it performs
/// exactly `n + 1` of them — the documented off-by-one — whether or not
/// anything is pending.
pub struct DrainBudget {
    attempts_done: usize,
    limit: usize,
}

impl DrainBudget {
    pub closed spec fn spec_limit(&self) -> usize {
        self.limit
    }

    pub closed spec fn spec_attempts(&self) -> usize {
        self.attempts_done
    }

    /// The count never passes the limit plus one, which itself fits the
    /// machine word.
    pub closed spec fn wf(&self) -> bool {
        self.limit < usize::MAX && self.attempts_done <= self.limit + 1
    }

    pub fn new(limit: usize) -> (b: DrainBudget)
        requires
            limit < usize::MAX,
        ensures
            b.wf(),
            b.spec_limit() == limit,
            b.spec_attempts() == 0,
    {
        DrainBudget { attempts_done: 0, limit }
    }

    /// Another receive attempt is due while the count has not passed the
    /// limit.
    pub fn should_attempt(&self) -> (r: bool)
        ensures
            r == (self.spec_attempts() <= self.spec_limit()),
    {
        self.attempts_done <= self.limit
    }

    /// Counts one attempt, performed or not found — every attempt is
    /// followed by the inter-attempt delay regardless of outcome.
    pub fn record_attempt(&mut self)
        requires
            old(self).wf(),
            old(self).spec_attempts() <= old(self).spec_limit(),
        ensures
            final(self).wf(),
            final(self).spec_limit() == old(self).spec_limit(),
            final(self).spec_attempts() == old(self).spec_attempts() + 1,
    {
        self.attempts_done = self.attempts_done + 1;
    }

    /// The number of attempts performed so far — what the bounded drain
    /// returns, not the number of completions delivered.
    pub fn attempts(&self) -> (n: usize)
        ensures
            n == self.spec_attempts(),
    {
        self.attempts_done
    }
}

/// Law: a bounded drain that has run its budget out has performed exactly
/// `limit + 1` attempts — one more than the limit — no matter what the
/// attempts found.
pub proof fn lemma_drain_budget_exact_attempts(b: DrainBudget)
    requires
        b.wf(),
        b.spec_attempts() > b.spec_limit(),
    ensures
        b.spec_attempts() == b.spec_limit() + 1,
{
}

/// The wall-clock drain's decision: keep polling while the elapsed time has
/// not passed the budget.  The check sits between attempts only, so the
/// drain may overshoot the budget by up to one inter-attempt delay.
pub fn should_continue_draining(elapsed_micros: u64, timeout_micros: u64) -> (r: bool)
    ensures
        r == (elapsed_micros <= timeout_micros),
{
    elapsed_micros <= timeout_micros
}

} // verus!
