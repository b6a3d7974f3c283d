use vstd::prelude::*;

use crate::error::Error;
use crate::interval::Interval;

verus! {

/// The lifecycle of a notifier.
#[derive(Clone, Copy, Debug, PartialEq, Eq, Structural)]
pub enum Phase {
    /// Readiness is not announced yet.
    Starting,
    /// The timer was just started and is checked for the first time; an I/O
    /// error here still ends the start-up.
    Arming,
    /// The watchdog timer runs and ticks are turned into pings.
    Running,
    /// A result was handed out; nothing more happens.
    Finished,
}

/// The report that the notifier waits for next from its driver.
#[derive(Clone, Copy, Debug, PartialEq, Eq, Structural)]
pub enum Awaiting {
    /// Between two drives: the next call is [`SystemdNotifier::drive`].
    Drive,
    /// The outcome of announcing readiness.
    Announcement,
    /// The configured watchdog timeout.
    WatchdogQuery,
    /// The outcome of starting the timer.
    TimerStart,
    /// Whether the timer is ready to be read.
    Readiness,
    /// The number of ticks read from the timer.
    TickCount,
    /// The outcome of re-arming read interest; `fired` remembers whether the
    /// read found a tick.
    Rearm { fired: bool },
    /// The outcome of a watchdog ping.
    Ping,
    /// Nothing: the notifier is finished.
    Nothing,
}

/// What the driver is to do next.
#[derive(Debug)]
pub enum Action {
    /// Tell the supervisor that startup is complete; report the outcome
    /// through [`SystemdNotifier::announced`].
    AnnounceReady,
    /// Ask whether the watchdog is enabled, and with which timeout; report it
    /// through [`SystemdNotifier::watchdog_queried`].
    QueryWatchdog,
    /// Start a monotonic periodic timer with this interval, registered for
    /// read readiness with the notifier's reactor handle; report it through
    /// [`SystemdNotifier::timer_started`].
    StartTimer { interval: Interval },
    /// Check whether the timer is ready to be read; report through
    /// [`SystemdNotifier::readiness_polled`].
    PollReadiness,
    /// Read the count of elapsed ticks, which clears it; report through
    /// [`SystemdNotifier::ticks_read`].
    ReadTicks,
    /// Re-arm read interest on the timer; report through
    /// [`SystemdNotifier::rearmed`].
    Rearm,
    /// Ping the watchdog; report through [`SystemdNotifier::pinged`].
    PingWatchdog,
    /// Nothing more to do in this drive: the work is pending, and the notifier
    /// is to be driven again when the timer becomes readable.
    Suspend,
    /// The work is complete with this result.
    Complete(Result<(), Error>),
}

/// An action without its payload.
#[derive(Clone, Copy, Debug, PartialEq, Eq, Structural)]
pub enum Step {
    AnnounceReady,
    QueryWatchdog,
    StartTimer,
    PollReadiness,
    ReadTicks,
    Rearm,
    PingWatchdog,
    Suspend,
    CompleteOk,
    NotRunningWithSystemd,
    IoFailure,
}

/// A report of the driver, reduced to what the notifier decides on.
#[derive(Clone, Copy, Debug, PartialEq, Eq, Structural)]
pub enum Report {
    Drive,
    Announced(bool),
    WatchdogQueried(Option<Interval>),
    TimerStarted(bool),
    /// Whether polling readiness succeeded, and whether the timer was ready.
    Readiness { ok: bool, ready: bool },
    Ticks(u64),
    /// Whether re-arming read interest succeeded.
    Rearmed(bool),
    Pinged,
}

/// Where a notifier stands: its phase and the report it waits for.
#[derive(Clone, Copy, Debug, PartialEq, Eq, Structural)]
pub struct Mode {
    pub phase: Phase,
    pub awaiting: Awaiting,
}

impl Action {
    /// The kind of this action, with the payload left out.
    pub open spec fn step(self) -> Step {
        match self {
            Action::AnnounceReady => Step::AnnounceReady,
            Action::QueryWatchdog => Step::QueryWatchdog,
            Action::StartTimer { .. } => Step::StartTimer,
            Action::PollReadiness => Step::PollReadiness,
            Action::ReadTicks => Step::ReadTicks,
            Action::Rearm => Step::Rearm,
            Action::PingWatchdog => Step::PingWatchdog,
            Action::Suspend => Step::Suspend,
            Action::Complete(Ok(())) => Step::CompleteOk,
            Action::Complete(Err(Error::NotRunningWithSystemd)) => Step::NotRunningWithSystemd,
            Action::Complete(Err(Error::Io(_))) => Step::IoFailure,
        }
    }
}

impl Step {
    /// The step hands the caller a final result.
    pub open spec fn completes(self) -> bool {
        self == Step::CompleteOk || self == Step::NotRunningWithSystemd || self == Step::IoFailure
    }
}

impl Mode {
    /// The reports that each phase can wait for.
    pub open spec fn wf(self) -> bool {
        match self.phase {
            Phase::Starting => self.awaiting == Awaiting::Drive || self.awaiting
                == Awaiting::Announcement || self.awaiting == Awaiting::WatchdogQuery
                || self.awaiting == Awaiting::TimerStart,
            Phase::Arming => self.awaiting == Awaiting::Readiness || self.awaiting
                == Awaiting::TickCount || self.awaiting is Rearm || self.awaiting
                == Awaiting::Ping,
            Phase::Running => self.awaiting == Awaiting::Drive || self.awaiting
                == Awaiting::Readiness || self.awaiting == Awaiting::TickCount
                || self.awaiting is Rearm || self.awaiting == Awaiting::Ping,
            Phase::Finished => self.awaiting == Awaiting::Nothing,
        }
    }

    /// The report `r` is the one this mode waits for.
    pub open spec fn accepts(self, r: Report) -> bool {
        match r {
            Report::Drive => self.awaiting == Awaiting::Drive,
            Report::Announced(_) => self.awaiting == Awaiting::Announcement,
            Report::WatchdogQueried(t) => self.awaiting == Awaiting::WatchdogQuery && match t {
                Some(i) => i.wf(),
                None => true,
            },
            Report::TimerStarted(_) => self.awaiting == Awaiting::TimerStart,
            Report::Readiness { .. } => self.awaiting == Awaiting::Readiness,
            Report::Ticks(_) => self.awaiting == Awaiting::TickCount,
            Report::Rearmed(_) => self.awaiting is Rearm,
            Report::Pinged => self.awaiting == Awaiting::Ping,
        }
    }
}

/// The mode in `phase` waiting for `awaiting`.
pub open spec fn mode(phase: Phase, awaiting: Awaiting) -> Mode {
    Mode { phase, awaiting }
}

/// The notifier's decision on report `r` in mode `m`: the next mode and what
/// the driver is to do.
pub open spec fn next(m: Mode, r: Report) -> (Mode, Step) {
    match r {
        Report::Drive => if m.phase == Phase::Starting {
            (mode(Phase::Starting, Awaiting::Announcement), Step::AnnounceReady)
        } else {
            (mode(Phase::Running, Awaiting::Readiness), Step::PollReadiness)
        },
        Report::Announced(ok) => if ok {
            (mode(Phase::Starting, Awaiting::WatchdogQuery), Step::QueryWatchdog)
        } else {
            (mode(Phase::Finished, Awaiting::Nothing), Step::NotRunningWithSystemd)
        },
        Report::WatchdogQueried(t) => match t {
            Some(_) => (mode(Phase::Starting, Awaiting::TimerStart), Step::StartTimer),
            None => (mode(Phase::Finished, Awaiting::Nothing), Step::CompleteOk),
        },
        Report::TimerStarted(ok) => if ok {
            (mode(Phase::Arming, Awaiting::Readiness), Step::PollReadiness)
        } else {
            (mode(Phase::Finished, Awaiting::Nothing), Step::IoFailure)
        },
        Report::Readiness { ok, ready } => if m.phase == Phase::Arming && !ok {
            (mode(Phase::Finished, Awaiting::Nothing), Step::IoFailure)
        } else if ok && ready {
            (mode(m.phase, Awaiting::TickCount), Step::ReadTicks)
        } else {
            (mode(Phase::Running, Awaiting::Drive), Step::Suspend)
        },
        Report::Ticks(n) => (mode(m.phase, Awaiting::Rearm { fired: n > 0 }), Step::Rearm),
        Report::Rearmed(ok) => if m.phase == Phase::Arming && !ok {
            (mode(Phase::Finished, Awaiting::Nothing), Step::IoFailure)
        } else if m.awaiting == (Awaiting::Rearm { fired: true }) {
            (mode(m.phase, Awaiting::Ping), Step::PingWatchdog)
        } else {
            (mode(Phase::Running, Awaiting::Drive), Step::Suspend)
        },
        Report::Pinged => (mode(Phase::Running, Awaiting::Drive), Step::Suspend),
    }
}

/// No report is accepted any more: the notifier is done.
pub open spec fn is_terminal(m: Mode) -> bool {
    forall|r: Report| !m.accepts(r)
}

/// The mode reached from `m` by the reports `rs`, in order.
pub open spec fn run(m: Mode, rs: Seq<Report>) -> Mode
    decreases rs.len(),
{
    if rs.len() == 0 {
        m
    } else {
        run(next(m, rs[0]).0, rs.drop_first())
    }
}

/// The steps handed to the driver along the reports `rs` from `m`.
pub open spec fn run_steps(m: Mode, rs: Seq<Report>) -> Seq<Step>
    decreases rs.len(),
{
    if rs.len() == 0 {
        Seq::empty()
    } else {
        seq![next(m, rs[0]).1] + run_steps(next(m, rs[0]).0, rs.drop_first())
    }
}

/// Each report of `rs` is the one that the mode reached before it waits for.
pub open spec fn valid_run(m: Mode, rs: Seq<Report>) -> bool
    decreases rs.len(),
{
    rs.len() == 0 || (m.accepts(rs[0]) && valid_run(next(m, rs[0]).0, rs.drop_first()))
}

/// A failed readiness announcement ends the notifier with
/// `NotRunningWithSystemd`, and nothing can be done with it afterwards.
pub proof fn lemma_rejected_readiness_is_terminal(m: Mode)
    requires
        m.wf(),
        m.accepts(Report::Announced(false)),
    ensures
        next(m, Report::Announced(false)).1 == Step::NotRunningWithSystemd,
        next(m, Report::Announced(false)).0.phase == Phase::Finished,
        is_terminal(next(m, Report::Announced(false)).0),
{
}

/// With readiness announced and the watchdog disabled, the notifier completes
/// successfully, and nothing can be done with it afterwards.
pub proof fn lemma_disabled_watchdog_completes(m: Mode)
    requires
        m.wf(),
        m.accepts(Report::WatchdogQueried(None)),
    ensures
        next(m, Report::WatchdogQueried(None)).1 == Step::CompleteOk,
        next(m, Report::WatchdogQueried(None)).0.phase == Phase::Finished,
        is_terminal(next(m, Report::WatchdogQueried(None)).0),
{
}

/// A running notifier keeps running whatever its driver reports: it never hands out a result.
pub proof fn lemma_running_never_completes(m: Mode, rs: Seq<Report>)
    requires
        m.wf(),
        m.phase == Phase::Running,
        valid_run(m, rs),
    ensures
        run(m, rs).wf(),
        run(m, rs).phase == Phase::Running,
        run_steps(m, rs).len() == rs.len(),
        forall|i: int| 0 <= i < rs.len() ==> !(#[trigger] run_steps(m, rs)[i]).completes(),
    decreases rs.len(),
{
    if rs.len() > 0 {
        let m1 = next(m, rs[0]).0;
        lemma_running_never_completes(m1, rs.drop_first());
        let tail = run_steps(m1, rs.drop_first());
        assert forall|i: int| 0 <= i < rs.len() implies !(#[trigger] run_steps(m, rs)[i]).completes() by {
            if i > 0 {
                assert(run_steps(m, rs)[i] == tail[i - 1]);
            }
        }
    }
}

/// Each read of the timer re-arms read interest, whatever it found, and leads
/// to one ping exactly when it found elapsed ticks: a read that found `n > 0`
/// ticks is pinged once, a read that found none is not pinged, and after the
/// ping the notifier suspends until it is driven again. Once running, this
/// holds whether or not re-arming succeeded.
pub proof fn lemma_each_read_pings_at_most_once(m: Mode, n: u64, rearm_ok: bool)
    requires
        m.wf(),
        m.accepts(Report::Ticks(n)),
        rearm_ok || m.phase == Phase::Running,
    ensures
        ({
            let (m1, s1) = next(m, Report::Ticks(n));
            let (m2, s2) = next(m1, Report::Rearmed(rearm_ok));
            &&& s1 == Step::Rearm
            &&& m1.accepts(Report::Rearmed(rearm_ok))
            &&& (s2 == Step::PingWatchdog <==> n > 0)
            &&& (n == 0 ==> s2 == Step::Suspend && m2.awaiting == Awaiting::Drive)
            &&& (n > 0 ==> m2.accepts(Report::Pinged) && next(m2, Report::Pinged)
                == (mode(Phase::Running, Awaiting::Drive), Step::Suspend))
        }),
{
}

/// An I/O error in the first check of a newly started timer, while polling its
/// readiness or while re-arming it, ends the notifier with an I/O failure, and
/// nothing can be done with it afterwards.
pub proof fn lemma_first_check_failure_is_terminal(m: Mode, r: Report)
    requires
        m.wf(),
        m.phase == Phase::Arming,
        m.accepts(r),
        r == (Report::Readiness { ok: false, ready: false }) || r == (Report::Readiness {
            ok: false,
            ready: true,
        }) || r == Report::Rearmed(false),
    ensures
        next(m, r).1 == Step::IoFailure,
        next(m, r).0.phase == Phase::Finished,
        is_terminal(next(m, r).0),
{
}

/// A finished notifier accepts no report, so a run from it is empty.
proof fn lemma_finished_run_is_empty(m: Mode, rs: Seq<Report>)
    requires
        m.awaiting == Awaiting::Nothing,
        valid_run(m, rs),
    ensures
        rs.len() == 0,
        run(m, rs) == m,
{
    if rs.len() > 0 {
        assert(!m.accepts(rs[0]));
    }
}

/// A fresh notifier reaches the running phase only by announcing readiness,
/// then querying the watchdog, then starting the timer, in this order and with
/// nothing in between: readiness is announced before the watchdog is queried,
/// and the watchdog is queried before any timer exists.
pub proof fn lemma_startup_order(rs: Seq<Report>)
    requires
        valid_run(mode(Phase::Starting, Awaiting::Drive), rs),
        run(mode(Phase::Starting, Awaiting::Drive), rs).phase == Phase::Running,
    ensures
        rs.len() >= 4,
        rs[0] == Report::Drive,
        rs[1] == Report::Announced(true),
        rs[2] is WatchdogQueried && rs[2]->WatchdogQueried_0 is Some,
        rs[3] == Report::TimerStarted(true),
        run_steps(mode(Phase::Starting, Awaiting::Drive), rs).take(3) == seq![
            Step::AnnounceReady,
            Step::QueryWatchdog,
            Step::StartTimer,
        ],
{
    let m0 = mode(Phase::Starting, Awaiting::Drive);
    assert(rs.len() > 0);
    let r1 = rs.drop_first();
    let m1 = next(m0, rs[0]).0;
    assert(rs[0] == Report::Drive);
    assert(m1 == mode(Phase::Starting, Awaiting::Announcement));
    assert(valid_run(m1, r1) && run(m0, rs) == run(m1, r1));
    assert(r1.len() > 0);
    let r2 = r1.drop_first();
    let m2 = next(m1, r1[0]).0;
    assert(m1.accepts(r1[0]) && valid_run(m2, r2) && run(m1, r1) == run(m2, r2));
    if r1[0] != Report::Announced(true) {
        lemma_finished_run_is_empty(m2, r2);
    }
    assert(m2 == mode(Phase::Starting, Awaiting::WatchdogQuery));
    assert(r2.len() > 0);
    let r3 = r2.drop_first();
    let m3 = next(m2, r2[0]).0;
    assert(m2.accepts(r2[0]) && valid_run(m3, r3) && run(m2, r2) == run(m3, r3));
    if r2[0] == Report::WatchdogQueried(None) {
        lemma_finished_run_is_empty(m3, r3);
    }
    assert(m3 == mode(Phase::Starting, Awaiting::TimerStart));
    assert(r3.len() > 0);
    let r4 = r3.drop_first();
    let m4 = next(m3, r3[0]).0;
    assert(m3.accepts(r3[0]) && valid_run(m4, r4) && run(m3, r3) == run(m4, r4));
    if r3[0] != Report::TimerStarted(true) {
        lemma_finished_run_is_empty(m4, r4);
    }
    assert(rs[1] == r1[0]);
    assert(rs[2] == r2[0]);
    assert(rs[3] == r3[0]);
    let steps = run_steps(m0, rs);
    let s1 = run_steps(m1, r1);
    let s2 = run_steps(m2, r2);
    assert(steps == seq![Step::AnnounceReady] + s1);
    assert(s1 == seq![Step::QueryWatchdog] + s2);
    assert(s2 == seq![Step::StartTimer] + run_steps(m3, r3));
    assert(steps.take(3) =~= seq![Step::AnnounceReady, Step::QueryWatchdog, Step::StartTimer]);
}

/// What the notifier owns in each phase.
#[derive(Debug)]
pub enum NotifierState<H, T> {
    /// Before the timer exists: the reactor handle to register it with, or
    /// `None` for the runtime's default reactor.
    Starting { reactor_handle: Option<H> },
    /// The notifier exclusively owns the timer it just started, which is
    /// checked for the first time.
    Arming { timer: T },
    /// The notifier exclusively owns the running watchdog timer.
    Running { timer: T },
    /// The result was handed out.
    Finished,
}

/// Notifies systemd of startup, then pings the watchdog for as long as it
/// lives.
///
/// On its first drive it announces readiness. If that fails, it completes
/// with [`Error::NotRunningWithSystemd`]. If the watchdog is disabled, it
/// completes successfully. Otherwise it starts a timer at half the watchdog
/// timeout and from then on pings the watchdog at each tick, never completing.
#[derive(Debug)]
pub struct SystemdNotifier<H, T> {
    pub state: NotifierState<H, T>,
    pub awaiting: Awaiting,
}

impl<H, T> SystemdNotifier<H, T> {
    /// The phase that the owned state stands for.
    pub open spec fn phase(&self) -> Phase {
        match self.state {
            NotifierState::Starting { .. } => Phase::Starting,
            NotifierState::Arming { .. } => Phase::Arming,
            NotifierState::Running { .. } => Phase::Running,
            NotifierState::Finished => Phase::Finished,
        }
    }

    /// The timer that the notifier owns, if any.
    pub open spec fn timer(&self) -> Option<T> {
        match self.state {
            NotifierState::Arming { timer } => Some(timer),
            NotifierState::Running { timer } => Some(timer),
            _ => None,
        }
    }

    /// Where this notifier stands.
    pub open spec fn mode(&self) -> Mode {
        mode(self.phase(), self.awaiting)
    }

    /// The report awaited fits the phase.
    pub open spec fn wf(&self) -> bool {
        self.mode().wf()
    }

    /// A notifier whose timer will use the runtime's default reactor.
    pub fn new() -> (r: Self)
        ensures
            r.state == (NotifierState::<H, T>::Starting { reactor_handle: None }),
            r.awaiting == Awaiting::Drive,
            r.wf(),
    {
        SystemdNotifier { state: NotifierState::Starting { reactor_handle: None }, awaiting: Awaiting::Drive }
    }

    /// A notifier whose timer will be registered with `handle`.
    pub fn new_with_handle(handle: H) -> (r: Self)
        ensures
            r.state == (NotifierState::<H, T>::Starting { reactor_handle: Some(handle) }),
            r.awaiting == Awaiting::Drive,
            r.wf(),
    {
        SystemdNotifier {
            state: NotifierState::Starting { reactor_handle: Some(handle) },
            awaiting: Awaiting::Drive,
        }
    }

    /// One evaluation of the notifier: the first action of this drive.
    pub fn drive(&mut self) -> (r: Action)
        requires
            old(self).wf(),
            old(self).awaiting == Awaiting::Drive,
        ensures
            final(self).wf(),
            (final(self).mode(), r.step()) == next(old(self).mode(), Report::Drive),
            final(self).state == old(self).state,
    {
        match self.state {
            NotifierState::Starting { .. } => {
                self.awaiting = Awaiting::Announcement;
                Action::AnnounceReady
            },
            _ => {
                self.awaiting = Awaiting::Readiness;
                Action::PollReadiness
            },
        }
    }

    /// Takes the outcome of announcing readiness.
    pub fn announced(&mut self, ok: bool) -> (r: Action)
        requires
            old(self).wf(),
            old(self).awaiting == Awaiting::Announcement,
        ensures
            final(self).wf(),
            (final(self).mode(), r.step()) == next(old(self).mode(), Report::Announced(ok)),
            ok ==> final(self).state == old(self).state,
    {
        if ok {
            self.awaiting = Awaiting::WatchdogQuery;
            Action::QueryWatchdog
        } else {
            self.finish();
            Action::Complete(Err(Error::NotRunningWithSystemd))
        }
    }

    /// Takes the watchdog timeout, `None` where the watchdog is disabled.
    pub fn watchdog_queried(&mut self, timeout: Option<Interval>) -> (r: Action)
        requires
            old(self).wf(),
            old(self).mode().accepts(Report::WatchdogQueried(timeout)),
        ensures
            final(self).wf(),
            (final(self).mode(), r.step()) == next(
                old(self).mode(),
                Report::WatchdogQueried(timeout),
            ),
            timeout is Some ==> final(self).state == old(self).state,
            match (timeout, r) {
                (Some(t), Action::StartTimer { interval }) => interval.wf()
                    && interval.total_nanos() == t.total_nanos() / 2,
                _ => true,
            },
    {
        match timeout {
            Some(t) => {
                self.awaiting = Awaiting::TimerStart;
                Action::StartTimer { interval: t.half() }
            },
            None => {
                self.finish();
                Action::Complete(Ok(()))
            },
        }
    }

    /// Takes the timer that was started, or the error that starting it gave.
    /// The reactor handle is dropped and the notifier owns the timer from now
    /// on; the timer is checked once before the notifier counts as running.
    pub fn timer_started(&mut self, started: Result<T, std::io::Error>) -> (r: Action)
        requires
            old(self).wf(),
            old(self).awaiting == Awaiting::TimerStart,
        ensures
            final(self).wf(),
            (final(self).mode(), r.step()) == next(
                old(self).mode(),
                Report::TimerStarted(started is Ok),
            ),
            match started {
                Ok(t) => final(self).state == (NotifierState::<H, T>::Arming { timer: t }),
                Err(e) => r == Action::Complete(Err(Error::Io(e))),
            },
    {
        match started {
            Ok(timer) => {
                self.state = NotifierState::Arming { timer };
                self.awaiting = Awaiting::Readiness;
                Action::PollReadiness
            },
            Err(e) => {
                self.finish();
                Action::Complete(Err(Error::from(e)))
            },
        }
    }

    /// Takes whether the timer is ready to be read. In the first check of a
    /// new timer an error ends the notifier; once running, an error counts as
    /// not ready, for the notifier never fails then.
    pub fn readiness_polled(&mut self, ready: Result<bool, std::io::Error>) -> (r: Action)
        requires
            old(self).wf(),
            old(self).awaiting == Awaiting::Readiness,
        ensures
            final(self).wf(),
            (final(self).mode(), r.step()) == next(
                old(self).mode(),
                Report::Readiness {
                    ok: ready is Ok,
                    ready: ready == Ok::<bool, std::io::Error>(true),
                },
            ),
            final(self).phase() != Phase::Finished ==> final(self).timer() == old(self).timer(),
            match ready {
                Err(e) => old(self).phase() == Phase::Arming ==> r == Action::Complete(
                    Err(Error::Io(e)),
                ),
                Ok(_) => true,
            },
    {
        match ready {
            Ok(true) => {
                self.awaiting = Awaiting::TickCount;
                Action::ReadTicks
            },
            Ok(false) => {
                self.settle();
                self.awaiting = Awaiting::Drive;
                Action::Suspend
            },
            Err(e) => {
                if self.is_arming() {
                    self.finish();
                    Action::Complete(Err(Error::from(e)))
                } else {
                    self.awaiting = Awaiting::Drive;
                    Action::Suspend
                }
            },
        }
    }

    /// Takes the number of ticks that elapsed since the previous read. Read
    /// interest is re-armed whatever the count.
    pub fn ticks_read(&mut self, count: u64) -> (r: Action)
        requires
            old(self).wf(),
            old(self).awaiting == Awaiting::TickCount,
        ensures
            final(self).wf(),
            (final(self).mode(), r.step()) == next(old(self).mode(), Report::Ticks(count)),
            final(self).state == old(self).state,
    {
        self.awaiting = Awaiting::Rearm { fired: count > 0 };
        Action::Rearm
    }

    /// Takes the outcome of re-arming read interest, then pings if the read
    /// found a tick. In the first check of a new timer a failure to re-arm
    /// ends the notifier; once running, it does not cost that tick its ping.
    pub fn rearmed(&mut self, outcome: Result<(), std::io::Error>) -> (r: Action)
        requires
            old(self).wf(),
            old(self).awaiting is Rearm,
        ensures
            final(self).wf(),
            (final(self).mode(), r.step()) == next(
                old(self).mode(),
                Report::Rearmed(outcome is Ok),
            ),
            final(self).phase() != Phase::Finished ==> final(self).timer() == old(self).timer(),
            match outcome {
                Err(e) => old(self).phase() == Phase::Arming ==> r == Action::Complete(
                    Err(Error::Io(e)),
                ),
                Ok(_) => true,
            },
    {
        let fired = match self.awaiting {
            Awaiting::Rearm { fired } => fired,
            _ => false,
        };
        if let Err(e) = outcome {
            if self.is_arming() {
                self.finish();
                return Action::Complete(Err(Error::from(e)));
            }
        }
        if fired {
            self.awaiting = Awaiting::Ping;
            Action::PingWatchdog
        } else {
            self.settle();
            self.awaiting = Awaiting::Drive;
            Action::Suspend
        }
    }

    /// Takes the outcome of a watchdog ping. A failed ping is ignored: the
    /// daemon goes on and the next tick pings again.
    pub fn pinged(&mut self, ok: bool) -> (r: Action)
        requires
            old(self).wf(),
            old(self).awaiting == Awaiting::Ping,
        ensures
            final(self).wf(),
            (final(self).mode(), r.step()) == next(old(self).mode(), Report::Pinged),
            final(self).timer() == old(self).timer(),
    {
        self.settle();
        self.awaiting = Awaiting::Drive;
        Action::Suspend
    }

    /// The reactor handle that the timer is to be registered with.
    pub fn reactor_handle(&self) -> (r: Option<&H>)
        requires
            self.phase() == Phase::Starting,
        ensures
            match r {
                Some(h) => self.state == (NotifierState::<H, T>::Starting {
                    reactor_handle: Some(*h),
                }),
                None => self.state == (NotifierState::<H, T>::Starting { reactor_handle: None }),
            },
    {
        match &self.state {
            NotifierState::Starting { reactor_handle } => reactor_handle.as_ref(),
            _ => None,
        }
    }

    /// The timer the notifier owns, for the driver to poll, read and re-arm.
    pub fn timer_mut(&mut self) -> (r: &mut T)
        requires
            old(self).timer() is Some,
        ensures
            old(self).timer() == Some(*r),
            final(self).phase() == old(self).phase(),
            final(self).timer() == Some(*final(r)),
            final(self).awaiting == old(self).awaiting,
    {
        match &mut self.state {
            NotifierState::Arming { timer } => timer,
            NotifierState::Running { timer } => timer,
            _ => vstd::pervasive::unreached(),
        }
    }

    /// The first check of a new timer is under way.
    fn is_arming(&self) -> (r: bool)
        ensures
            r == (self.phase() == Phase::Arming),
    {
        match self.state {
            NotifierState::Arming { .. } => true,
            _ => false,
        }
    }

    /// Ends the first check of a new timer: the notifier now counts as running,
    /// with the same timer.
    fn settle(&mut self)
        requires
            old(self).timer() is Some,
        ensures
            final(self).phase() == Phase::Running,
            final(self).timer() == old(self).timer(),
            final(self).awaiting == old(self).awaiting,
    {
        let mut state = NotifierState::Finished;
        std::mem::swap(&mut self.state, &mut state);
        self.state = match state {
            NotifierState::Arming { timer } => NotifierState::Running { timer },
            NotifierState::Running { timer } => NotifierState::Running { timer },
            _ => vstd::pervasive::unreached(),
        };
    }

    /// Moves to the finished phase, dropping whatever the notifier owned.
    fn finish(&mut self)
        ensures
            final(self).state == NotifierState::<H, T>::Finished,
            final(self).awaiting == Awaiting::Nothing,
    {
        self.state = NotifierState::Finished;
        self.awaiting = Awaiting::Nothing;
    }
}

} // verus!
