//! The retry engine: which node an attempt goes to, what its outcome means, and when
//! the dispatch of an operation ends.
//!
//! The engine does no I/O. It is a state machine that is told what happened (an
//! [`Event`], with the milliseconds that have passed since the dispatch began) and
//! answers with what to do next (an [`Action`]). Whoever owns the channels sends,
//! sleeps, and reports back.

use vstd::prelude::*;
use crate::backoff::{lemma_delay_monotonic, spec_delay, Backoff};
use crate::error::Error;
use crate::status::{spec_classify, StatusClass, StatusPolicy};

verus! {

/// What happened since the last action.
#[derive(Debug, Clone, Copy, PartialEq, Eq, Structural)]
pub enum Event {
    /// The dispatch begins.
    Begin,
    /// The request could not be delivered, or no response came back.
    TransportError,
    /// The node answered with this precheck status code.
    Response { status: i32 },
    /// The wait that was asked for is over.
    Resumed,
}

/// What to do next.
#[derive(Debug, Clone, Copy, PartialEq, Eq, Structural)]
pub enum Action {
    /// Build the request for the node at this index of the node list and send it.
    Send { node: usize },
    /// Wait this many milliseconds, then report `Event::Resumed`.
    Wait { delay: u64 },
    /// The node at this index accepted the operation: decode its response.
    Accept { node: usize },
    /// The dispatch has failed for good.
    Fail { error: Error },
}

/// Where a dispatch stands.
#[derive(Debug, Clone, Copy, PartialEq, Eq, Structural)]
pub enum Phase {
    /// Nothing was sent yet.
    Building,
    /// A request is in flight to the node at this index.
    Sent { node: usize },
    /// A node was busy; the next attempt may start at `resume_at` milliseconds.
    Backoff { resume_at: u64 },
    /// Terminal: the node at this index accepted the operation.
    Accepted { node: usize },
    /// Terminal: the dispatch failed.
    Failed { error: Error },
}

/// The state of one dispatch, as the contracts see it.
pub struct DispatchState {
    /// For each node of the list, whether its last attempt ended in a transport error.
    pub failed: Seq<bool>,
    /// The index at which the search for the next node starts.
    pub cursor: usize,
    /// The attempts started so far.
    pub attempts: u32,
    /// The retryable rejections received so far.
    pub backoffs: u32,
    /// The most attempts that may be started.
    pub max_attempts: u32,
    pub backoff: Backoff,
    /// The milliseconds after which no new attempt is started, if the caller set any.
    pub deadline: Option<u64>,
    pub accepted: Seq<i32>,
    pub retryable: Seq<i32>,
    pub phase: Phase,
}

/// `i` brought back into `0..n`, for `i` below `2 * n`.
pub open spec fn spec_wrap(i: int, n: int) -> int {
    if i >= n {
        i - n
    } else {
        i
    }
}

/// The first node without a transport error among those at `cursor + k`,
/// `cursor + k + 1`, ... in cyclic order, or `cursor` if there is none.
pub open spec fn spec_scan(failed: Seq<bool>, cursor: int, k: int) -> int
    decreases failed.len() - k,
{
    if k < 0 || k >= failed.len() {
        cursor
    } else if !failed[spec_wrap(cursor + k, failed.len() as int)] {
        spec_wrap(cursor + k, failed.len() as int)
    } else {
        spec_scan(failed, cursor, k + 1)
    }
}

/// The node that the next attempt goes to: the first one in cyclic order from the
/// cursor that has no transport error against it; if every node has one, the node at
/// the cursor.
pub open spec fn spec_select(failed: Seq<bool>, cursor: int) -> int {
    spec_scan(failed, cursor, 0)
}

impl DispatchState {
    /// What every reachable state satisfies.
    pub open spec fn wf(self) -> bool {
        &&& self.failed.len() > 0
        &&& self.failed.len() <= usize::MAX
        &&& self.cursor < self.failed.len()
        &&& self.backoffs <= self.attempts <= self.max_attempts
        &&& self.phase matches Phase::Sent { node } ==> node < self.failed.len() && self.backoffs
            < self.attempts
        &&& self.phase is Backoff ==> self.attempts < self.max_attempts
    }

    /// The state in which a dispatch begins.
    pub open spec fn initial(
        node_count: usize,
        max_attempts: u32,
        backoff: Backoff,
        deadline: Option<u64>,
        accepted: Seq<i32>,
        retryable: Seq<i32>,
    ) -> DispatchState {
        DispatchState {
            failed: Seq::new(node_count as nat, |i: int| false),
            cursor: 0,
            attempts: 0,
            backoffs: 0,
            max_attempts,
            backoff,
            deadline,
            accepted,
            retryable,
            phase: Phase::Building,
        }
    }

    pub open spec fn is_terminal(self) -> bool {
        self.phase is Accepted || self.phase is Failed
    }

    pub open spec fn fail(self, error: Error) -> (DispatchState, Action) {
        (DispatchState { phase: Phase::Failed { error }, ..self }, Action::Fail { error })
    }

    /// The check before a new attempt, and the attempt if the budget allows one: the
    /// attempt ceiling is looked at first, then the deadline, then a node is chosen.
    pub open spec fn start_attempt(self, elapsed: u64) -> (DispatchState, Action) {
        if self.attempts >= self.max_attempts {
            self.fail(Error::MaxAttemptsExceeded)
        } else if self.deadline is Some && elapsed > self.deadline->0 {
            self.fail(Error::DeadlineExceeded)
        } else {
            let node = spec_select(self.failed, self.cursor as int) as usize;
            (
                DispatchState {
                    phase: Phase::Sent { node },
                    cursor: spec_wrap(node + 1, self.failed.len() as int) as usize,
                    attempts: (self.attempts + 1) as u32,
                    ..self
                },
                Action::Send { node },
            )
        }
    }

    /// The moment at which a wait of `delay` that begins at `elapsed` is over.
    pub open spec fn resume_at(elapsed: u64, delay: u64) -> u64 {
        if elapsed + delay > u64::MAX {
            u64::MAX
        } else {
            (elapsed + delay) as u64
        }
    }

    /// What a response with `status` from `node` leads to.
    pub open spec fn on_response(self, node: usize, status: i32, elapsed: u64) -> (
        DispatchState,
        Action,
    ) {
        match spec_classify(self.accepted, self.retryable, status) {
            StatusClass::Accepted => (
                DispatchState { phase: Phase::Accepted { node }, ..self },
                Action::Accept { node },
            ),
            StatusClass::PermanentFailure => self.fail(Error::PreCheckStatus { status }),
            StatusClass::Retryable => if self.attempts >= self.max_attempts {
                self.fail(Error::MaxAttemptsExceeded)
            } else {
                let delay = spec_delay(
                    self.backoff.base_delay,
                    self.backoff.max_delay,
                    self.backoffs as nat,
                ) as u64;
                (
                    DispatchState {
                        phase: Phase::Backoff { resume_at: Self::resume_at(elapsed, delay) },
                        backoffs: (self.backoffs + 1) as u32,
                        failed: self.failed.update(node as int, false),
                        ..self
                    },
                    Action::Wait { delay },
                )
            },
        }
    }

    /// The transition function: the state after `event`, reported `elapsed`
    /// milliseconds after the dispatch began, and the action that answers it.
    ///
    /// A terminal state answers every event with its own result. An event that makes
    /// no sense in a state that is not terminal ends the dispatch with `InvalidState`.
    pub open spec fn step(self, event: Event, elapsed: u64) -> (DispatchState, Action) {
        match self.phase {
            Phase::Building => match event {
                Event::Begin => self.start_attempt(elapsed),
                _ => self.fail(Error::InvalidState),
            },
            Phase::Sent { node } => match event {
                Event::TransportError => DispatchState {
                    failed: self.failed.update(node as int, true),
                    ..self
                }.start_attempt(elapsed),
                Event::Response { status } => self.on_response(node, status, elapsed),
                _ => self.fail(Error::InvalidState),
            },
            Phase::Backoff { resume_at } => match event {
                Event::Resumed => if elapsed < resume_at {
                    (self, Action::Wait { delay: (resume_at - elapsed) as u64 })
                } else {
                    self.start_attempt(elapsed)
                },
                _ => self.fail(Error::InvalidState),
            },
            Phase::Accepted { node } => (self, Action::Accept { node }),
            Phase::Failed { error } => (self, Action::Fail { error }),
        }
    }
}

/// Whether the node `j` places after the cursor, in cyclic order, has a transport error
/// against it.
pub open spec fn spec_failed_from(failed: Seq<bool>, cursor: int, j: int) -> bool {
    failed[spec_wrap(cursor + j, failed.len() as int)]
}

/// Whether `node` is the first node from the cursor on, in cyclic order, that has no
/// transport error against it: it lies `j` places after the cursor, and every node
/// before it on the way has such an error.
pub open spec fn spec_first_healthy(failed: Seq<bool>, cursor: int, node: int, j: int) -> bool {
    &&& 0 <= j < failed.len()
    &&& node == spec_wrap(cursor + j, failed.len() as int)
    &&& !spec_failed_from(failed, cursor, j)
    &&& forall|i: int| 0 <= i < j ==> #[trigger] spec_failed_from(failed, cursor, i)
}

/// The chosen node is one of the list. Whenever some node has no transport error
/// against it, the chosen node is the first such node from the cursor on, which is the
/// node at the cursor if that one has none: without failures the nodes take turns.
/// When every node has one, the chosen node is the one at the cursor.
pub proof fn lemma_select(failed: Seq<bool>, cursor: int)
    requires
        0 <= cursor < failed.len(),
    ensures
        0 <= spec_select(failed, cursor) < failed.len(),
        (exists|i: int| 0 <= i < failed.len() && !failed[i]) ==> !failed[spec_select(
            failed,
            cursor,
        )] && exists|j: int| spec_first_healthy(failed, cursor, spec_select(failed, cursor), j),
        !failed[cursor] ==> spec_select(failed, cursor) == cursor,
        (forall|i: int| 0 <= i < failed.len() ==> failed[i]) ==> spec_select(failed, cursor)
            == cursor,
{
    lemma_scan(failed, cursor, 0);
    let n = failed.len() as int;
    if exists|i: int| 0 <= i < n && !failed[i] {
        let i = choose|i: int| 0 <= i < n && !failed[i];
        let k = if i >= cursor {
            i - cursor
        } else {
            i - cursor + n
        };
        assert(spec_wrap(cursor + k, n) == i);
        assert(!spec_failed_from(failed, cursor, k));
        let j = choose|j: int|
            0 <= j < n && spec_scan(failed, cursor, 0) == spec_wrap(cursor + j, n)
                && !spec_failed_from(failed, cursor, j) && (forall|i: int|
                0 <= i < j ==> #[trigger] spec_failed_from(failed, cursor, i));
        assert(spec_first_healthy(failed, cursor, spec_select(failed, cursor), j));
    } else {
        assert forall|j: int| 0 <= j < n implies #[trigger] spec_failed_from(failed, cursor, j) by {
            assert(failed[spec_wrap(cursor + j, n)]);
        }
    }
}

proof fn lemma_scan(failed: Seq<bool>, cursor: int, k: int)
    requires
        0 <= cursor < failed.len(),
        0 <= k <= failed.len(),
    ensures
        0 <= spec_scan(failed, cursor, k) < failed.len(),
        (exists|j: int| k <= j < failed.len() && !#[trigger] spec_failed_from(failed, cursor, j))
            ==> exists|j: int|
            k <= j < failed.len() && spec_scan(failed, cursor, k) == spec_wrap(
                cursor + j,
                failed.len() as int,
            ) && !#[trigger] spec_failed_from(failed, cursor, j) && (forall|i: int|
                k <= i < j ==> #[trigger] spec_failed_from(failed, cursor, i)),
        (forall|j: int| k <= j < failed.len() ==> #[trigger] spec_failed_from(failed, cursor, j))
            ==> spec_scan(failed, cursor, k) == cursor,
    decreases failed.len() - k,
{
    let n = failed.len() as int;
    if k < n {
        if spec_failed_from(failed, cursor, k) {
            lemma_scan(failed, cursor, k + 1);
            if exists|j: int| k <= j < n && !#[trigger] spec_failed_from(failed, cursor, j) {
                let w = choose|j: int| k <= j < n && !#[trigger] spec_failed_from(failed, cursor, j);
                assert(k + 1 <= w < n && !spec_failed_from(failed, cursor, w));
                let j = choose|j: int|
                    k + 1 <= j < n && spec_scan(failed, cursor, k + 1) == spec_wrap(cursor + j, n)
                        && !#[trigger] spec_failed_from(failed, cursor, j) && (forall|i: int|
                        k + 1 <= i < j ==> #[trigger] spec_failed_from(failed, cursor, i));
                assert(k <= j < n && spec_scan(failed, cursor, k) == spec_wrap(cursor + j, n)
                    && !spec_failed_from(failed, cursor, j) && (forall|i: int|
                    k <= i < j ==> #[trigger] spec_failed_from(failed, cursor, i)));
            }
        } else {
            assert(k <= k < n && spec_scan(failed, cursor, k) == spec_wrap(cursor + k, n)
                && !spec_failed_from(failed, cursor, k) && (forall|i: int|
                k <= i < k ==> #[trigger] spec_failed_from(failed, cursor, i)));
        }
    }
}

/// Every step leads from a well-formed state to a well-formed state, so the number of
/// attempts never exceeds the ceiling.
pub proof fn lemma_step_wf(s: DispatchState, event: Event, elapsed: u64)
    requires
        s.wf(),
    ensures
        s.step(event, elapsed).0.wf(),
        s.step(event, elapsed).0.failed.len() == s.failed.len(),
        s.step(event, elapsed).0.max_attempts == s.max_attempts,
{
    lemma_select(s.failed, s.cursor as int);
    if let Phase::Sent { node } = s.phase {
        lemma_select(s.failed.update(node as int, true), s.cursor as int);
    }
}

/// The state that a dispatch is in after the events of `reports`, each with the time at
/// which it was reported, have been taken note of in order.
pub open spec fn spec_run(s: DispatchState, reports: Seq<(Event, u64)>) -> DispatchState
    decreases reports.len(),
{
    if reports.len() == 0 {
        s
    } else {
        spec_run(s, reports.drop_last()).step(reports.last().0, reports.last().1).0
    }
}

/// The number of attempts that were started while the events of `reports` were taken
/// note of: the number of steps that answered `Send`.
pub open spec fn spec_sends(s: DispatchState, reports: Seq<(Event, u64)>) -> nat
    decreases reports.len(),
{
    if reports.len() == 0 {
        0
    } else {
        spec_sends(s, reports.drop_last()) + (if spec_run(s, reports.drop_last()).step(
            reports.last().0,
            reports.last().1,
        ).1 is Send {
            1nat
        } else {
            0nat
        })
    }
}

/// Whatever is reported and in whatever order, a dispatch stays well formed, counts
/// exactly the attempts that it started, and starts no more of them than the ceiling
/// allows.
pub proof fn lemma_run_within_budget(s: DispatchState, reports: Seq<(Event, u64)>)
    requires
        s.wf(),
    ensures
        spec_run(s, reports).wf(),
        spec_run(s, reports).max_attempts == s.max_attempts,
        spec_run(s, reports).attempts == s.attempts + spec_sends(s, reports),
        s.attempts + spec_sends(s, reports) <= s.max_attempts,
    decreases reports.len(),
{
    if reports.len() > 0 {
        let before = spec_run(s, reports.drop_last());
        lemma_run_within_budget(s, reports.drop_last());
        lemma_step_wf(before, reports.last().0, reports.last().1);
        lemma_send_counts(before, reports.last().0, reports.last().1);
    }
}

/// An attempt is started only while the budget allows it: a step that answers `Send`
/// counts one more attempt, and every other step counts none.
pub proof fn lemma_send_counts(s: DispatchState, event: Event, elapsed: u64)
    requires
        s.wf(),
    ensures
        s.step(event, elapsed).1 is Send ==> s.attempts < s.max_attempts && s.step(
            event,
            elapsed,
        ).0.attempts == s.attempts + 1 && (s.deadline is Some ==> elapsed <= s.deadline->0),
        !(s.step(event, elapsed).1 is Send) ==> s.step(event, elapsed).0.attempts == s.attempts,
{
}

/// A terminal state stays as it is and repeats its result, whatever is reported.
pub proof fn lemma_terminal_absorbs(s: DispatchState, event: Event, elapsed: u64)
    requires
        s.is_terminal(),
    ensures
        s.step(event, elapsed).0 == s,
        s.phase matches Phase::Accepted { node } ==> s.step(event, elapsed).1 == (Action::Accept {
            node,
        }),
        s.phase matches Phase::Failed { error } ==> s.step(event, elapsed).1 == (Action::Fail {
            error,
        }),
{
}

/// A busy node does not end the dispatch: while the budget allows another attempt, the
/// answer to a retryable status is a wait, and once the wait is over and the deadline
/// has not passed, a second attempt is sent.
pub proof fn lemma_retryable_retries(s: DispatchState, status: i32, elapsed: u64, resumed: u64)
    requires
        s.wf(),
        s.phase is Sent,
        spec_classify(s.accepted, s.retryable, status) == StatusClass::Retryable,
        s.attempts < s.max_attempts,
        resumed >= s.step(Event::Response { status }, elapsed).0.phase->resume_at,
        s.deadline is Some ==> resumed <= s.deadline->0,
    ensures
        s.step(Event::Response { status }, elapsed).1 == (Action::Wait {
            delay: spec_delay(s.backoff.base_delay, s.backoff.max_delay, s.backoffs as nat) as u64,
        }),
        s.step(Event::Response { status }, elapsed).0.phase is Backoff,
        s.step(Event::Response { status }, elapsed).0.step(Event::Resumed, resumed).1 is Send,
{
}

/// A status that is neither success nor transient ends the dispatch at once, with that
/// status, and nothing is sent afterwards.
pub proof fn lemma_permanent_terminates(
    s: DispatchState,
    status: i32,
    elapsed: u64,
    event: Event,
    later: u64,
)
    requires
        s.phase is Sent,
        spec_classify(s.accepted, s.retryable, status) == StatusClass::PermanentFailure,
    ensures
        s.step(Event::Response { status }, elapsed).1 == (Action::Fail {
            error: Error::PreCheckStatus { status },
        }),
        s.step(Event::Response { status }, elapsed).0.is_terminal(),
        s.step(Event::Response { status }, elapsed).0.step(event, later).1 == (Action::Fail {
            error: Error::PreCheckStatus { status },
        }),
{
}

/// With a deadline shorter than the backoff interval, a busy node's answer is the last
/// one: when the wait is over, the dispatch ends with `DeadlineExceeded` in place of
/// another attempt, and before that it only asks to wait on.
pub proof fn lemma_deadline_respected(s: DispatchState, status: i32, elapsed: u64, resumed: u64)
    requires
        s.wf(),
        s.phase is Sent,
        spec_classify(s.accepted, s.retryable, status) == StatusClass::Retryable,
        s.attempts < s.max_attempts,
        s.deadline is Some,
        s.deadline->0 < spec_delay(s.backoff.base_delay, s.backoff.max_delay, s.backoffs as nat),
    ensures
        ({
            let waiting = s.step(Event::Response { status }, elapsed).0;
            let action = waiting.step(Event::Resumed, resumed).1;
            &&& waiting.phase is Backoff
            &&& resumed >= waiting.phase->resume_at ==> action == (Action::Fail {
                error: Error::DeadlineExceeded,
            })
            &&& resumed < waiting.phase->resume_at ==> action is Wait
        }),
{
    lemma_delay_monotonic(
        s.backoff.base_delay,
        s.backoff.max_delay,
        s.backoffs as nat,
        s.backoffs as nat,
    );
}

/// The delays of one dispatch never decrease: the wait after a later retryable status
/// is at least as long as the wait after an earlier one, and none exceeds the maximum.
pub proof fn lemma_waits_monotonic(earlier: DispatchState, later: DispatchState)
    requires
        earlier.backoff == later.backoff,
        earlier.backoffs <= later.backoffs,
    ensures
        spec_delay(
            earlier.backoff.base_delay,
            earlier.backoff.max_delay,
            earlier.backoffs as nat,
        ) <= spec_delay(later.backoff.base_delay, later.backoff.max_delay, later.backoffs as nat)
            <= later.backoff.max_delay,
{
    lemma_delay_monotonic(
        earlier.backoff.base_delay,
        earlier.backoff.max_delay,
        earlier.backoffs as nat,
        later.backoffs as nat,
    );
}

/// The retry engine for one dispatch of one operation.
///
/// Its bookkeeping of which nodes failed lives and dies with the dispatch.
pub struct Dispatcher {
    failed: Vec<bool>,
    cursor: usize,
    attempts: u32,
    backoffs: u32,
    max_attempts: u32,
    backoff: Backoff,
    deadline: Option<u64>,
    policy: StatusPolicy,
    phase: Phase,
}

impl View for Dispatcher {
    type V = DispatchState;

    closed spec fn view(&self) -> DispatchState {
        DispatchState {
            failed: self.failed@,
            cursor: self.cursor,
            attempts: self.attempts,
            backoffs: self.backoffs,
            max_attempts: self.max_attempts,
            backoff: self.backoff,
            deadline: self.deadline,
            accepted: self.policy.accepted@,
            retryable: self.policy.retryable@,
            phase: self.phase,
        }
    }
}

impl Dispatcher {
    /// A dispatcher for an operation with `node_count` candidate nodes. An operation
    /// without a candidate cannot be dispatched.
    pub fn new(
        node_count: usize,
        max_attempts: u32,
        backoff: Backoff,
        deadline: Option<u64>,
        policy: StatusPolicy,
    ) -> (result: Result<Dispatcher, Error>)
        ensures
            node_count == 0 ==> result is Err && result->Err_0 == Error::InvalidState,
            node_count > 0 ==> result is Ok && result->Ok_0@.wf() && result->Ok_0@
                == DispatchState::initial(
                node_count,
                max_attempts,
                backoff,
                deadline,
                policy.accepted@,
                policy.retryable@,
            ),
    {
        if node_count == 0 {
            return Err(Error::InvalidState);
        }
        let mut failed: Vec<bool> = Vec::new();
        let mut i: usize = 0;
        while i < node_count
            invariant
                i <= node_count,
                failed@ == Seq::new(i as nat, |k: int| false),
            decreases node_count - i,
        {
            failed.push(false);
            i = i + 1;
            assert(failed@ =~= Seq::new(i as nat, |k: int| false));
        }
        Ok(
            Dispatcher {
                failed,
                cursor: 0,
                attempts: 0,
                backoffs: 0,
                max_attempts,
                backoff,
                deadline,
                policy,
                phase: Phase::Building,
            },
        )
    }

    /// Where the dispatch stands.
    pub fn phase(&self) -> (phase: Phase)
        ensures
            phase == self@.phase,
    {
        self.phase
    }

    /// The attempts started so far.
    pub fn attempts(&self) -> (attempts: u32)
        ensures
            attempts == self@.attempts,
    {
        self.attempts
    }

    /// Whether the last attempt at the node at `node` ended in a transport error.
    pub fn has_failed(&self, node: usize) -> (failed: bool)
        ensures
            failed == (node < self@.failed.len() && self@.failed[node as int]),
    {
        node < self.failed.len() && self.failed[node]
    }

    fn select(&self) -> (node: usize)
        requires
            self@.wf(),
        ensures
            node == spec_select(self@.failed, self@.cursor as int),
            node < self@.failed.len(),
    {
        proof {
            lemma_select(self@.failed, self@.cursor as int);
        }
        let n = self.failed.len();
        let mut k: usize = 0;
        while k < n
            invariant
                n == self.failed@.len(),
                self.cursor < n,
                k <= n,
                spec_scan(self.failed@, self.cursor as int, k as int) == spec_select(
                    self.failed@,
                    self.cursor as int,
                ),
            decreases n - k,
        {
            let at = if self.cursor >= n - k {
                self.cursor - (n - k)
            } else {
                self.cursor + k
            };
            assert(at == spec_wrap(self.cursor + k, n as int));
            if !self.failed[at] {
                return at;
            }
            k = k + 1;
        }
        self.cursor
    }

    fn fail(&mut self, error: Error) -> (action: Action)
        ensures
            (final(self)@, action) == old(self)@.fail(error),
    {
        self.phase = Phase::Failed { error };
        Action::Fail { error }
    }

    fn start_attempt(&mut self, elapsed: u64) -> (action: Action)
        requires
            old(self)@.wf(),
        ensures
            (final(self)@, action) == old(self)@.start_attempt(elapsed),
    {
        if self.attempts >= self.max_attempts {
            return self.fail(Error::MaxAttemptsExceeded);
        }
        match self.deadline {
            Some(deadline) => {
                if elapsed > deadline {
                    return self.fail(Error::DeadlineExceeded);
                }
            },
            None => {},
        }
        let node = self.select();
        let next = if node + 1 >= self.failed.len() {
            0
        } else {
            node + 1
        };
        self.phase = Phase::Sent { node };
        self.attempts = self.attempts + 1;
        self.cursor = next;
        Action::Send { node }
    }

    /// Takes note of `event`, reported `elapsed` milliseconds after the dispatch
    /// began, and says what to do next.
    pub fn step(&mut self, event: Event, elapsed: u64) -> (action: Action)
        requires
            old(self)@.wf(),
        ensures
            (final(self)@, action) == old(self)@.step(event, elapsed),
            final(self)@.wf(),
    {
        proof {
            lemma_step_wf(self@, event, elapsed);
        }
        match self.phase {
            Phase::Building => match event {
                Event::Begin => self.start_attempt(elapsed),
                _ => self.fail(Error::InvalidState),
            },
            Phase::Sent { node } => match event {
                Event::TransportError => {
                    self.failed.set(node, true);
                    self.start_attempt(elapsed)
                },
                Event::Response { status } => match self.policy.classify(status) {
                    StatusClass::Accepted => {
                        self.phase = Phase::Accepted { node };
                        Action::Accept { node }
                    },
                    StatusClass::PermanentFailure => self.fail(Error::PreCheckStatus { status }),
                    StatusClass::Retryable => {
                        if self.attempts >= self.max_attempts {
                            self.fail(Error::MaxAttemptsExceeded)
                        } else {
                            let delay = self.backoff.delay(self.backoffs);
                            let resume_at = if delay > u64::MAX - elapsed {
                                u64::MAX
                            } else {
                                elapsed + delay
                            };
                            self.phase = Phase::Backoff { resume_at };
                            self.backoffs = self.backoffs + 1;
                            self.failed.set(node, false);
                            Action::Wait { delay }
                        }
                    },
                },
                _ => self.fail(Error::InvalidState),
            },
            Phase::Backoff { resume_at } => match event {
                Event::Resumed => {
                    if elapsed < resume_at {
                        Action::Wait { delay: resume_at - elapsed }
                    } else {
                        self.start_attempt(elapsed)
                    }
                },
                _ => self.fail(Error::InvalidState),
            },
            Phase::Accepted { node } => Action::Accept { node },
            Phase::Failed { error } => Action::Fail { error },
        }
    }
}

} // verus!
