//! The token poller: a state machine stepped once per poll cycle with the
//! cycle's classified signal. The host performs the POST and the sleep; the
//! machine decides everything else. Polling starts immediately, exactly one
//! cycle is in flight at a time, the interval between cycles never
//! decreases and is raised by five seconds on every `slow_down`, and a
//! deadline that elapses while still polling forces `Expired`.

use vstd::prelude::*;

use crate::device::{GitHubConfig, MIN_POLL_INTERVAL_SECS};
use crate::http::HttpOutcome;
use crate::oauth::{
    classify_token_response, spec_classify_token_response, OAuthError, OAuthErrorView, PollSignal,
    PollSignalView,
};

verus! {

/// Where one authorization attempt stands.
#[derive(Debug)]
pub enum PollerState {
    /// Waiting for the user; another cycle will run.
    Polling,
    /// The user approved; the bearer token.
    Succeeded(String),
    /// The device code expired before the user decided.
    Expired,
    /// A terminal failure.
    Fatal(OAuthError),
}

/// Mathematical model of a `PollerState`.
pub enum PollerStateView {
    Polling,
    Succeeded(Seq<char>),
    Expired,
    Fatal(OAuthErrorView),
}

impl View for PollerState {
    type V = PollerStateView;

    open spec fn view(&self) -> PollerStateView {
        match self {
            PollerState::Polling => PollerStateView::Polling,
            PollerState::Succeeded(t) => PollerStateView::Succeeded(t@),
            PollerState::Expired => PollerStateView::Expired,
            PollerState::Fatal(e) => PollerStateView::Fatal(e@),
        }
    }
}

/// The interval after one signal: raised by five seconds on `slow_down`
/// (staying at the numeric ceiling if that sum does not fit), untouched by
/// every other signal.
pub open spec fn spec_next_interval(interval: u64, s: PollSignalView) -> u64 {
    if s is SlowDown {
        if interval + 5 <= u64::MAX {
            (interval + 5) as u64
        } else {
            u64::MAX
        }
    } else {
        interval
    }
}

/// The state after one signal, from `Polling`.
pub open spec fn spec_next_state(s: PollSignalView) -> PollerStateView {
    match s {
        PollSignalView::Token(t) => PollerStateView::Succeeded(t),
        PollSignalView::Pending => PollerStateView::Polling,
        PollSignalView::SlowDown => PollerStateView::Polling,
        PollSignalView::Expired => PollerStateView::Expired,
        PollSignalView::Fatal(e) => PollerStateView::Fatal(e),
    }
}

/// The interval after a whole sequence of cycle signals.
pub open spec fn spec_run_interval(start: u64, signals: Seq<PollSignalView>) -> u64
    decreases signals.len(),
{
    if signals.len() == 0 {
        start
    } else {
        spec_run_interval(spec_next_interval(start, signals[0]), signals.drop_first())
    }
}

/// One authorization attempt's poller.
#[derive(Debug)]
pub struct Poller {
    pub state: PollerState,
    /// Seconds to sleep between cycles.
    pub interval: u64,
    /// Seconds, from issuance of the device code, until the deadline.
    pub expires_in: u64,
}

impl Poller {
    /// The poller's invariant: its pace never falls under the floor.
    pub open spec fn wf(self) -> bool {
        self.interval >= MIN_POLL_INTERVAL_SECS
    }

    /// A fresh poller: polling starts immediately, at the configured pace.
    pub fn new(config: &GitHubConfig) -> (p: Poller)
        requires
            config.interval >= MIN_POLL_INTERVAL_SECS,
        ensures
            p.state is Polling,
            p.interval == config.interval,
            p.expires_in == config.expires_in,
            p.wf(),
    {
        Poller { state: PollerState::Polling, interval: config.interval, expires_in: config.expires_in as u64 }
    }

    /// Whether the attempt has reached a terminal state.
    pub fn is_terminal(&self) -> (r: bool)
        ensures
            r == !(self.state is Polling),
    {
        !matches!(self.state, PollerState::Polling)
    }

    /// Seconds to sleep before the next cycle.
    pub fn current_interval(&self) -> (r: u64)
        ensures
            r == self.interval,
    {
        self.interval
    }

    /// Whether the overall deadline has elapsed.
    pub fn deadline_reached(&self, elapsed_secs: u64) -> (r: bool)
        ensures
            r == (elapsed_secs >= self.expires_in),
    {
        elapsed_secs >= self.expires_in
    }

    /// Advances the machine by one cycle's signal. The interval never
    /// decreases, and a `slow_down` strictly increases it (short of the
    /// numeric ceiling); the raise is kept by all later cycles.
    pub fn step(&mut self, signal: PollSignal)
        requires
            old(self).state is Polling,
        ensures
            final(self).state@ == spec_next_state(signal@),
            final(self).interval == spec_next_interval(old(self).interval, signal@),
            final(self).expires_in == old(self).expires_in,
            final(self).interval >= old(self).interval,
            signal@ is SlowDown && old(self).interval + 5 <= u64::MAX ==> final(self).interval
                > old(self).interval,
            old(self).wf() ==> final(self).wf(),
    {
        match signal {
            PollSignal::Token(t) => {
                self.state = PollerState::Succeeded(t);
            },
            PollSignal::Pending => {
                self.state = PollerState::Polling;
            },
            PollSignal::SlowDown => {
                self.state = PollerState::Polling;
                if self.interval <= u64::MAX - 5 {
                    self.interval = self.interval + 5;
                } else {
                    self.interval = u64::MAX;
                }
            },
            PollSignal::Expired => {
                self.state = PollerState::Expired;
            },
            PollSignal::Fatal(e) => {
                self.state = PollerState::Fatal(e);
            },
        }
    }

    /// One whole cycle's bookkeeping: classifies the token endpoint's
    /// answer and advances the machine by the resulting signal.
    pub fn handle_cycle_response(&mut self, outcome: HttpOutcome)
        requires
            old(self).state is Polling,
        ensures
            final(self).state@ == spec_next_state(spec_classify_token_response(outcome@)),
            final(self).interval == spec_next_interval(
                old(self).interval,
                spec_classify_token_response(outcome@),
            ),
            final(self).expires_in == old(self).expires_in,
            final(self).interval >= old(self).interval,
            old(self).wf() ==> final(self).wf(),
    {
        let signal = classify_token_response(outcome);
        self.step(signal);
    }

    /// Forces `Expired`: the deadline elapsed while still polling, so the
    /// attempt ends here rather than running another cycle.
    pub fn expire(&mut self)
        requires
            old(self).state is Polling,
        ensures
            final(self).state is Expired,
            final(self).interval == old(self).interval,
            final(self).expires_in == old(self).expires_in,
            old(self).wf() ==> final(self).wf(),
    {
        self.state = PollerState::Expired;
    }
}

/// Unrolls a run of signals from the right.
proof fn lemma_run_interval_push(start: u64, signals: Seq<PollSignalView>, s: PollSignalView)
    ensures
        spec_run_interval(start, signals.push(s)) == spec_next_interval(
            spec_run_interval(start, signals),
            s,
        ),
    decreases signals.len(),
{
    if signals.len() == 0 {
        assert(signals.push(s)[0] == s);
        assert(signals.push(s).drop_first() =~= Seq::<PollSignalView>::empty());
        assert(spec_run_interval(start, signals.push(s)) == spec_run_interval(
            spec_next_interval(start, s),
            Seq::<PollSignalView>::empty(),
        ));
        assert(spec_run_interval(spec_next_interval(start, s), Seq::<PollSignalView>::empty())
            == spec_next_interval(start, s));
        assert(spec_run_interval(start, signals) == start);
    } else {
        assert(signals.push(s)[0] == signals[0]);
        assert(signals.push(s).drop_first() =~= signals.drop_first().push(s));
        lemma_run_interval_push(spec_next_interval(start, signals[0]), signals.drop_first(), s);
        assert(spec_run_interval(start, signals.push(s)) == spec_run_interval(
            spec_next_interval(start, signals[0]),
            signals.drop_first().push(s),
        ));
        assert(spec_run_interval(start, signals) == spec_run_interval(
            spec_next_interval(start, signals[0]),
            signals.drop_first(),
        ));
    }
}

/// Law: over any sequence of cycle signals the poll interval never
/// decreases — once raised, it stays raised for all later cycles.
pub proof fn lemma_interval_never_decreases(start: u64, signals: Seq<PollSignalView>)
    ensures
        spec_run_interval(start, signals) >= start,
    decreases signals.len(),
{
    if signals.len() > 0 {
        lemma_interval_never_decreases(spec_next_interval(start, signals[0]), signals.drop_first());
    }
}

/// Law: a `slow_down` on cycle `k` strictly increases the interval used for
/// cycle `k + 1` (short of the numeric ceiling), and every later cycle uses
/// at least that raised interval.
pub proof fn lemma_slow_down_raises_interval(start: u64, signals: Seq<PollSignalView>, k: int)
    requires
        0 <= k < signals.len(),
        signals[k] is SlowDown,
        spec_run_interval(start, signals.take(k)) + 5 <= u64::MAX,
    ensures
        spec_run_interval(start, signals.take(k + 1)) > spec_run_interval(start, signals.take(k)),
        forall|j: int|
            k < j <= signals.len() ==> #[trigger] spec_run_interval(start, signals.take(j))
                >= spec_run_interval(start, signals.take(k + 1)),
{
    assert(signals.take(k + 1) =~= signals.take(k).push(signals[k]));
    lemma_run_interval_push(start, signals.take(k), signals[k]);
    assert forall|j: int| k < j <= signals.len() implies #[trigger] spec_run_interval(
        start,
        signals.take(j),
    ) >= spec_run_interval(start, signals.take(k + 1)) by {
        lemma_run_prefix_monotonic(start, signals, k + 1, j);
    }
}

/// Law: polling cannot go on forever. Every inter-cycle sleep lasts at
/// least five seconds, so after `cycles` full cycles at least `5 * cycles`
/// seconds have elapsed; once `cycles` exceeds `expires_in / 5`, the
/// elapsed time has passed the deadline, and the deadline check then
/// forces `Expired` instead of another request.
pub proof fn lemma_deadline_bounds_cycles(elapsed: u64, cycles: u64, expires_in: u64)
    requires
        elapsed >= 5 * cycles,
        cycles > expires_in / 5,
    ensures
        elapsed >= expires_in,
{
}

/// The interval after a longer prefix of a run is at least the interval
/// after a shorter one.
proof fn lemma_run_prefix_monotonic(start: u64, signals: Seq<PollSignalView>, i: int, j: int)
    requires
        0 <= i <= j <= signals.len(),
    ensures
        spec_run_interval(start, signals.take(j)) >= spec_run_interval(start, signals.take(i)),
    decreases j - i,
{
    if i < j {
        lemma_run_prefix_monotonic(start, signals, i, j - 1);
        assert(signals.take(j) =~= signals.take(j - 1).push(signals[j - 1]));
        lemma_run_interval_push(start, signals.take(j - 1), signals[j - 1]);
    }
}

} // verus!
