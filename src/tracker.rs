//! The decisions of the enrollment trackers: each term worker's inner loop, the
//! supervisor that starts and restarts the workers, and session recovery. The waiting,
//! the portal calls and the file writes are the caller's; these machines say what to do
//! next and are told what happened.

use vstd::prelude::*;

verus! {

/// Consecutive failed polls a term worker tolerates before it gives up.
pub const MAX_NUM_SEARCH_REQUESTS: usize = 12;
/// Failed attempts at fresh session cookies before recovery gives up.
pub const MAX_NUM_LOGIN_FAILURES: u32 = 30;
/// Failed attempts at registering the cookies before they are rejected.
pub const MAX_NUM_REGISTER: usize = 25;
/// The first wait before asking the cookie server, in milliseconds; later waits grow by 6/5.
pub const BASE_DELAY_MS: u64 = 8000;
/// The wait before each registration attempt, in milliseconds.
pub const GENERAL_DELAY_MS: u64 = 3000;

// ---------------------------------------------------------------- term worker

/// What one enrollment-count poll gave.
#[derive(PartialEq, Eq, Structural, Clone, Copy, Debug)]
pub enum PollOutcome {
    /// The portal call failed.
    Failed,
    /// At least one section came back; its rows are written.
    Sections,
    /// No section came back: most likely the session was logged out.
    NoSections,
}

/// What a term worker does before the next search result.
#[derive(PartialEq, Eq, Structural, Clone, Copy, Debug)]
pub enum WorkerAction {
    /// Poll the next entry.
    Poll,
    /// Leave the worker's loops.
    Stop,
}

/// The state a term worker carries from one poll to the next.
pub struct TermWorker {
    /// Polls that failed since the last one that returned sections.
    pub fail_count: usize,
}

/// Whether a worker with `fail_count` failures polls again, the flags being as read.
pub open spec fn worker_polls(fail_count: nat, stop: bool) -> bool {
    !stop && fail_count <= MAX_NUM_SEARCH_REQUESTS
}

/// The failure count after a poll with `outcome`.
pub open spec fn next_fail_count(fail_count: nat, outcome: PollOutcome) -> nat {
    match outcome {
        PollOutcome::Sections => 0,
        _ => fail_count + 1,
    }
}

/// How many polls a worker's inner loop makes over one batch of entries, where
/// `stops[i]` is whether a stop flag was read as set before entry `i`, and `outcomes[i]`
/// what the poll of entry `i` gives.
pub open spec fn polls_made(fail_count: nat, stops: Seq<bool>, outcomes: Seq<PollOutcome>) -> nat
    decreases stops.len(),
{
    if stops.len() == 0 || outcomes.len() == 0 {
        0
    } else if !worker_polls(fail_count, stops[0]) {
        0
    } else {
        1 + polls_made(
            next_fail_count(fail_count, outcomes[0]),
            stops.drop_first(),
            outcomes.drop_first(),
        )
    }
}

impl TermWorker {
    pub fn new() -> (r: TermWorker)
        ensures
            r.fail_count == 0,
    {
        TermWorker { fail_count: 0 }
    }

    /// Whether the batch of search results that came back is worth polling: an empty one
    /// ends the worker.
    pub fn results_usable(count: usize) -> (r: bool)
        ensures
            r == (count > 0),
    {
        count > 0
    }

    /// The decision taken before each entry: stop when the process or this round of
    /// workers is stopping, or when too many polls failed in a row.
    pub fn next_action(&self, stop_flag: bool, loop_stop: bool) -> (r: WorkerAction)
        ensures
            (r == WorkerAction::Poll) == worker_polls(self.fail_count as nat, stop_flag || loop_stop),
    {
        if stop_flag || loop_stop {
            WorkerAction::Stop
        } else if self.fail_count > MAX_NUM_SEARCH_REQUESTS {
            WorkerAction::Stop
        } else {
            WorkerAction::Poll
        }
    }

    /// Counts the outcome of a poll: sections reset the failures, anything else adds one.
    pub fn record_outcome(&mut self, outcome: PollOutcome)
        requires
            old(self).fail_count <= MAX_NUM_SEARCH_REQUESTS,
        ensures
            final(self).fail_count as nat == next_fail_count(old(self).fail_count as nat, outcome),
    {
        match outcome {
            PollOutcome::Sections => {
                self.fail_count = 0;
            },
            _ => {
                self.fail_count = self.fail_count + 1;
            },
        }
    }
}

/// Once a stop flag has been read as set before entry `k`, the inner loop makes no poll
/// from entry `k` on: at most the poll already under way when the flag was set completes.
pub proof fn lemma_stop_ends_polling(
    fail_count: nat,
    stops: Seq<bool>,
    outcomes: Seq<PollOutcome>,
    k: int,
)
    requires
        0 <= k < stops.len(),
        stops[k],
    ensures
        polls_made(fail_count, stops, outcomes) <= k,
    decreases stops.len(),
{
    if stops.len() > 0 && outcomes.len() > 0 && worker_polls(fail_count, stops[0]) {
        assert(k > 0);
        assert(stops.drop_first()[k - 1] == stops[k]);
        lemma_stop_ends_polling(
            next_fail_count(fail_count, outcomes[0]),
            stops.drop_first(),
            outcomes.drop_first(),
            k - 1,
        );
    }
}

// ---------------------------------------------------------------- supervisor

/// Where the supervisor of the term workers stands.
#[derive(PartialEq, Eq, Structural, Clone, Copy, Debug)]
pub enum SupervisorPhase {
    /// The first session recovery is under way.
    InitialLogin,
    /// The term workers run.
    Running,
    /// The workers have all returned and a session recovery is under way.
    Recovering,
    /// The tracker has quit.
    Stopped,
}

/// What the supervisor learns from the outside.
#[derive(PartialEq, Eq, Structural, Clone, Copy, Debug)]
pub enum SupervisorEvent {
    /// A session recovery ended, successfully or not.
    LoginDone { success: bool },
    /// All term workers have returned; `stop_flag` is the process's stop flag as read then.
    WorkersDone { stop_flag: bool },
}

/// What the supervisor asks for next.
#[derive(PartialEq, Eq, Structural, Clone, Copy, Debug)]
pub enum SupervisorAction {
    /// Run a session recovery.
    Login,
    /// Start one worker per term.
    StartWorkers,
    /// Quit the tracker.
    Quit,
}

pub open spec fn supervisor_next(p: SupervisorPhase, e: SupervisorEvent) -> SupervisorPhase {
    match (p, e) {
        (SupervisorPhase::InitialLogin, SupervisorEvent::LoginDone { success }) => {
            if success { SupervisorPhase::Running } else { SupervisorPhase::Stopped }
        },
        (SupervisorPhase::Recovering, SupervisorEvent::LoginDone { success }) => {
            if success { SupervisorPhase::Running } else { SupervisorPhase::Stopped }
        },
        (SupervisorPhase::Running, SupervisorEvent::WorkersDone { stop_flag }) => {
            if stop_flag { SupervisorPhase::Stopped } else { SupervisorPhase::Recovering }
        },
        _ => p,
    }
}

pub open spec fn supervisor_action(p: SupervisorPhase) -> SupervisorAction {
    match p {
        SupervisorPhase::InitialLogin => SupervisorAction::Login,
        SupervisorPhase::Running => SupervisorAction::StartWorkers,
        SupervisorPhase::Recovering => SupervisorAction::Login,
        SupervisorPhase::Stopped => SupervisorAction::Quit,
    }
}

/// The supervisor's phase after `events`, from its start.
pub open spec fn supervisor_after(events: Seq<SupervisorEvent>) -> SupervisorPhase
    decreases events.len(),
{
    if events.len() == 0 {
        SupervisorPhase::InitialLogin
    } else {
        supervisor_next(supervisor_after(events.drop_last()), events.last())
    }
}

/// Whether, in `events`, a successful login was accepted after which the workers have
/// not all returned.
pub open spec fn login_unfinished(events: Seq<SupervisorEvent>) -> bool
    decreases events.len(),
{
    if events.len() == 0 {
        false
    } else {
        let p = supervisor_after(events.drop_last());
        match events.last() {
            SupervisorEvent::LoginDone { success } => {
                if p == SupervisorPhase::InitialLogin || p == SupervisorPhase::Recovering {
                    success
                } else {
                    login_unfinished(events.drop_last())
                }
            },
            SupervisorEvent::WorkersDone { .. } => {
                if p == SupervisorPhase::Running {
                    false
                } else {
                    login_unfinished(events.drop_last())
                }
            },
        }
    }
}

/// The supervisor of the term workers.
pub struct Supervisor {
    pub phase: SupervisorPhase,
}

impl Supervisor {
    pub fn new() -> (r: Supervisor)
        ensures
            r.phase == SupervisorPhase::InitialLogin,
    {
        Supervisor { phase: SupervisorPhase::InitialLogin }
    }

    /// Whether the workers run: the readiness flag that the gateway reports.
    pub fn is_running(&self) -> (r: bool)
        ensures
            r == (self.phase == SupervisorPhase::Running),
    {
        match self.phase {
            SupervisorPhase::Running => true,
            _ => false,
        }
    }

    /// What to do in the current phase.
    pub fn action(&self) -> (r: SupervisorAction)
        ensures
            r == supervisor_action(self.phase),
    {
        match self.phase {
            SupervisorPhase::InitialLogin => SupervisorAction::Login,
            SupervisorPhase::Running => SupervisorAction::StartWorkers,
            SupervisorPhase::Recovering => SupervisorAction::Login,
            SupervisorPhase::Stopped => SupervisorAction::Quit,
        }
    }

    /// Takes in what happened: a login that succeeds starts the workers, one that fails
    /// quits; workers that return quit when the process is stopping, else recover the
    /// session. An event that the phase does not await changes nothing.
    pub fn on_event(&mut self, e: SupervisorEvent) -> (r: SupervisorAction)
        ensures
            final(self).phase == supervisor_next(old(self).phase, e),
            r == supervisor_action(final(self).phase),
    {
        let next = match (self.phase, e) {
            (SupervisorPhase::InitialLogin, SupervisorEvent::LoginDone { success }) => {
                if success { SupervisorPhase::Running } else { SupervisorPhase::Stopped }
            },
            (SupervisorPhase::Recovering, SupervisorEvent::LoginDone { success }) => {
                if success { SupervisorPhase::Running } else { SupervisorPhase::Stopped }
            },
            (SupervisorPhase::Running, SupervisorEvent::WorkersDone { stop_flag }) => {
                if stop_flag { SupervisorPhase::Stopped } else { SupervisorPhase::Recovering }
            },
            (p, _) => p,
        };
        self.phase = next;
        self.action()
    }
}

/// The readiness flag is set exactly when a successful login has been accepted and the
/// term workers started after it have not all returned.
pub proof fn lemma_running_iff_login_unfinished(events: Seq<SupervisorEvent>)
    ensures
        (supervisor_after(events) == SupervisorPhase::Running) == login_unfinished(events),
    decreases events.len(),
{
    if events.len() > 0 {
        lemma_running_iff_login_unfinished(events.drop_last());
    }
}

// ---------------------------------------------------------------- session recovery

pub open spec fn pow_nat(b: nat, n: nat) -> nat
    decreases n,
{
    if n == 0 {
        1
    } else {
        b * pow_nat(b, (n - 1) as nat)
    }
}

/// The wait before asking the cookie server after `n` failures: `BASE_DELAY_MS × 1.2ⁿ`,
/// rounded down to the millisecond.
pub open spec fn login_delay_ms(n: nat) -> nat {
    (BASE_DELAY_MS as int * pow_nat(6, n) / pow_nat(5, n) as int) as nat
}

/// What came of one round of session recovery.
#[derive(PartialEq, Eq, Structural, Clone, Copy, Debug)]
pub enum CookieEvent {
    /// The cookie server could not be reached, or its body could not be read.
    ServerFailed,
    /// The cookie server answered without a `cookie` string: not ready yet.
    NotReady,
    /// The cookies could not be registered.
    RegisterFailed,
}

/// The counter of session recovery.
pub struct SessionRecovery {
    pub num_failures: u32,
}

proof fn lemma_pow_monotone(b: nat, i: nat, j: nat)
    requires
        b >= 1,
        i <= j,
    ensures
        pow_nat(b, i) <= pow_nat(b, j),
    decreases j,
{
    if i < j {
        lemma_pow_monotone(b, i, (j - 1) as nat);
        assert(pow_nat(b, (j - 1) as nat) <= b * pow_nat(b, (j - 1) as nat)) by (nonlinear_arith)
            requires
                b >= 1,
        ;
    }
}

proof fn lemma_pow_le(i: nat)
    ensures
        pow_nat(6, i) <= pow_nat(8, i),
        pow_nat(5, i) >= 1,
        pow_nat(5, i) <= pow_nat(6, i),
    decreases i,
{
    if i > 0 {
        lemma_pow_le((i - 1) as nat);
        let a = pow_nat(6, (i - 1) as nat);
        let b = pow_nat(8, (i - 1) as nat);
        let c = pow_nat(5, (i - 1) as nat);
        assert(6 * a <= 8 * b && 5 * c >= 1 && 5 * c <= 6 * a) by (nonlinear_arith)
            requires
                a <= b,
                c >= 1,
                c <= a,
        ;
    }
}

proof fn lemma_pow_split(i: nat)
    ensures
        pow_nat(6, i) <= pow_nat(2, i) * pow_nat(5, i),
    decreases i,
{
    if i > 0 {
        lemma_pow_split((i - 1) as nat);
        let a = pow_nat(6, (i - 1) as nat);
        let b = pow_nat(2, (i - 1) as nat);
        let c = pow_nat(5, (i - 1) as nat);
        assert(pow_nat(6, i) == 6 * a);
        assert(pow_nat(2, i) == 2 * b);
        assert(pow_nat(5, i) == 5 * c);
        assert(6 * a <= (2 * b) * (5 * c)) by (nonlinear_arith)
            requires
                a <= b * c,
        ;
        assert((2 * b) * (5 * c) == pow_nat(2, i) * pow_nat(5, i));
    } else {
        assert(pow_nat(2, i) == 1);
        assert(pow_nat(5, i) == 1);
        assert(pow_nat(6, i) == 1);
    }
}

proof fn lemma_pow_consts()
    ensures
        pow_nat(8, 30) == 0x40000000000000000000000,
        pow_nat(2, 30) == 0x40000000,
{
    reveal_with_fuel(pow_nat, 31);
}

/// The bounds that keep the delay's arithmetic within `u128` and its result within `u64`.
proof fn lemma_delay_bounds(n: nat)
    requires
        n <= 30,
    ensures
        pow_nat(6, n) <= 0x40000000000000000000000,
        1 <= pow_nat(5, n) <= pow_nat(6, n),
        pow_nat(6, n) <= pow_nat(2, n) * pow_nat(5, n),
        pow_nat(2, n) <= 0x40000000,
{
    lemma_pow_consts();
    lemma_pow_le(n);
    lemma_pow_monotone(8, n, 30);
    lemma_pow_monotone(2, n, 30);
    lemma_pow_split(n);
}

impl SessionRecovery {
    pub fn new() -> (r: SessionRecovery)
        ensures
            r.num_failures == 0,
    {
        SessionRecovery { num_failures: 0 }
    }

    /// The wait before the next request for cookies, or `None` once too many attempts
    /// failed and recovery has failed.
    pub fn next_delay_ms(&self) -> (r: Option<u64>)
        ensures
            self.num_failures <= MAX_NUM_LOGIN_FAILURES ==> r == Some(
                login_delay_ms(self.num_failures as nat) as u64,
            ),
            self.num_failures > MAX_NUM_LOGIN_FAILURES ==> r.is_none(),
    {
        if self.num_failures > MAX_NUM_LOGIN_FAILURES {
            return None;
        }
        let n = self.num_failures;
        let mut num: u128 = 1;
        let mut den: u128 = 1;
        let mut i: u32 = 0;
        while i < n
            invariant
                i <= n <= 30,
                num as nat == pow_nat(6, i as nat),
                den as nat == pow_nat(5, i as nat),
            decreases n - i,
        {
            proof {
                lemma_delay_bounds((i + 1) as nat);
            }
            num = num * 6;
            den = den * 5;
            i = i + 1;
        }
        proof {
            lemma_delay_bounds(n as nat);
            let k = pow_nat(2, n as nat);
            assert((num as int * 8000) / (den as int) <= k * 8000) by (nonlinear_arith)
                requires
                    num as int <= k * den as int,
                    den >= 1,
            ;
        }
        let d = num * 8000 / den;
        Some(d as u64)
    }

    /// Whether to go on after a wait: recovery fails as soon as the process is stopping.
    pub fn continue_after_wait(stop_flag: bool) -> (r: bool)
        ensures
            r == !stop_flag,
    {
        !stop_flag
    }

    /// Counts a round that brought no usable cookies. A server that answered without
    /// cookies yet is asked again without counting a failure.
    pub fn record(&mut self, e: CookieEvent)
        requires
            old(self).num_failures <= MAX_NUM_LOGIN_FAILURES,
        ensures
            final(self).num_failures == match e {
                CookieEvent::NotReady => old(self).num_failures,
                _ => (old(self).num_failures + 1) as u32,
            },
    {
        match e {
            CookieEvent::NotReady => {},
            _ => {
                self.num_failures = self.num_failures + 1;
            },
        }
    }
}

/// What came of one attempt to register fresh cookies.
#[derive(PartialEq, Eq, Structural, Clone, Copy, Debug)]
pub enum RegisterEvent {
    /// Registering all terms failed.
    RegisterFailed,
    /// Some term's empty search failed or found no course.
    TermCheckFailed,
    /// Every term's empty search found at least one course.
    AllTermsUsable,
}

/// The counter of attempts at registering fresh cookies.
pub struct Registration {
    pub num_tries: usize,
    pub usable: bool,
}

impl Registration {
    pub fn new() -> (r: Registration)
        ensures
            r.num_tries == 0,
            !r.usable,
    {
        Registration { num_tries: 0, usable: false }
    }

    /// Whether to make another attempt (after waiting `GENERAL_DELAY_MS`).
    pub fn should_attempt(&self) -> (r: bool)
        ensures
            r == (!self.usable && self.num_tries <= MAX_NUM_REGISTER),
    {
        !self.usable && self.num_tries <= MAX_NUM_REGISTER
    }

    /// Counts an attempt; every attempt that did not show all terms usable counts
    /// against the limit.
    pub fn record(&mut self, e: RegisterEvent)
        requires
            old(self).num_tries <= MAX_NUM_REGISTER,
        ensures
            e == RegisterEvent::AllTermsUsable ==> final(self).usable && final(self).num_tries
                == old(self).num_tries,
            e != RegisterEvent::AllTermsUsable ==> final(self).usable == old(self).usable
                && final(self).num_tries == old(self).num_tries + 1,
    {
        match e {
            RegisterEvent::AllTermsUsable => {
                self.usable = true;
            },
            _ => {
                self.num_tries = self.num_tries + 1;
            },
        }
    }

    /// Whether the cookies were accepted: the attempts stopped before the limit.
    pub fn succeeded(&self) -> (r: bool)
        ensures
            r == (self.num_tries < MAX_NUM_REGISTER),
    {
        self.num_tries < MAX_NUM_REGISTER
    }
}

} // verus!
