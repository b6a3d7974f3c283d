use std::io;
use systemd_daemon::notifier::{Awaiting, NotifierState};
use systemd_daemon::{Action, Error, Interval, SystemdNotifier};

/// A periodic timer on a simulated clock: it counts the intervals elapsed
/// since the previous read, as the kernel's timer does.
struct SimTimer {
    interval_ms: u64,
    now_ms: u64,
    consumed: u64,
}

impl SimTimer {
    fn pending(&self) -> u64 {
        self.now_ms / self.interval_ms - self.consumed
    }
}

fn interval_ms(i: Interval) -> u64 {
    i.secs * 1000 + (i.nanos / 1_000_000) as u64
}

/// Runs one drive of `n` against the simulated timer, returning the final
/// action and whether a ping was sent.
fn drive_once(n: &mut SystemdNotifier<(), SimTimer>) -> (Action, bool) {
    let mut pinged = false;
    let mut action = n.drive();
    loop {
        action = match action {
            Action::PollReadiness => {
                let ready = n.timer_mut().pending() > 0;
                n.readiness_polled(Ok(ready))
            }
            Action::ReadTicks => {
                let t = n.timer_mut();
                let count = t.pending();
                t.consumed += count;
                n.ticks_read(count)
            }
            Action::Rearm => n.rearmed(Ok(())),
            Action::PingWatchdog => {
                pinged = true;
                n.pinged(true)
            }
            other => return (other, pinged),
        };
    }
}

#[test]
fn rejected_readiness_ends_with_not_running_with_systemd() {
    let mut n: SystemdNotifier<(), SimTimer> = SystemdNotifier::new();
    assert!(matches!(n.drive(), Action::AnnounceReady));
    let a = n.announced(false);
    assert!(matches!(a, Action::Complete(Err(Error::NotRunningWithSystemd))));
    assert!(matches!(n.state, NotifierState::Finished));
    assert_eq!(n.awaiting, Awaiting::Nothing);
}

#[test]
fn disabled_watchdog_completes_successfully() {
    let mut n: SystemdNotifier<(), SimTimer> = SystemdNotifier::new();
    assert!(matches!(n.drive(), Action::AnnounceReady));
    assert!(matches!(n.announced(true), Action::QueryWatchdog));
    assert!(matches!(n.watchdog_queried(None), Action::Complete(Ok(()))));
    assert!(matches!(n.state, NotifierState::Finished));
}

#[test]
fn watchdog_of_two_seconds_pings_each_second() {
    let mut n: SystemdNotifier<(), SimTimer> = SystemdNotifier::new();
    assert!(matches!(n.drive(), Action::AnnounceReady));
    assert!(matches!(n.announced(true), Action::QueryWatchdog));
    let interval = match n.watchdog_queried(Some(Interval { secs: 2, nanos: 0 })) {
        Action::StartTimer { interval } => interval,
        other => panic!("unexpected action {:?}", other),
    };
    assert_eq!(interval, Interval { secs: 1, nanos: 0 });
    let timer = SimTimer { interval_ms: interval_ms(interval), now_ms: 0, consumed: 0 };
    let mut action = n.timer_started(Ok(timer));
    assert!(matches!(action, Action::PollReadiness));
    action = n.readiness_polled(Ok(false));
    assert!(matches!(action, Action::Suspend));
    assert!(matches!(n.state, NotifierState::Running { .. }));

    let mut pings = Vec::new();
    let mut now: u64 = 0;
    while now < 2500 {
        now += 100;
        n.timer_mut().now_ms = now;
        let (last, pinged) = drive_once(&mut n);
        assert!(matches!(last, Action::Suspend));
        if pinged {
            pings.push(now);
        }
    }
    assert_eq!(pings, vec![1000, 2000]);
    assert!(pings.iter().all(|&t| t >= 900));
}

#[test]
fn late_poll_delivers_missed_ticks_once() {
    let mut n: SystemdNotifier<(), SimTimer> = SystemdNotifier::new();
    let _ = n.drive();
    let _ = n.announced(true);
    let _ = n.watchdog_queried(Some(Interval { secs: 2, nanos: 0 }));
    let _ = n.timer_started(Ok(SimTimer { interval_ms: 1000, now_ms: 0, consumed: 0 }));
    let _ = n.readiness_polled(Ok(false));
    n.timer_mut().now_ms = 3500;
    let (_, pinged) = drive_once(&mut n);
    assert!(pinged);
    assert_eq!(n.timer_mut().consumed, 3);
    let (_, pinged) = drive_once(&mut n);
    assert!(!pinged);
}

#[test]
fn timer_start_failure_is_an_io_error_with_its_cause() {
    let mut n: SystemdNotifier<(), SimTimer> = SystemdNotifier::new();
    let _ = n.drive();
    let _ = n.announced(true);
    let _ = n.watchdog_queried(Some(Interval { secs: 10, nanos: 0 }));
    let err = io::Error::new(io::ErrorKind::PermissionDenied, "no timer");
    match n.timer_started(Err(err)) {
        Action::Complete(Err(e)) => {
            let cause = e.cause().expect("an I/O error keeps its cause");
            assert_eq!(cause.kind(), io::ErrorKind::PermissionDenied);
            assert_eq!(cause.to_string(), "no timer");
        }
        other => panic!("unexpected action {:?}", other),
    }
    assert!(matches!(n.state, NotifierState::Finished));
}

#[test]
fn running_notifier_swallows_failures() {
    let mut n: SystemdNotifier<(), SimTimer> = SystemdNotifier::new();
    let _ = n.drive();
    let _ = n.announced(true);
    let _ = n.watchdog_queried(Some(Interval { secs: 1, nanos: 0 }));
    let _ = n.timer_started(Ok(SimTimer { interval_ms: 500, now_ms: 0, consumed: 0 }));
    assert!(matches!(n.readiness_polled(Ok(false)), Action::Suspend));
    assert!(matches!(n.state, NotifierState::Running { .. }));
    assert!(matches!(n.drive(), Action::PollReadiness));
    let a = n.readiness_polled(Err(io::Error::new(io::ErrorKind::Other, "poll")));
    assert!(matches!(a, Action::Suspend));
    assert!(matches!(n.drive(), Action::PollReadiness));
    assert!(matches!(n.readiness_polled(Ok(true)), Action::ReadTicks));
    assert!(matches!(n.ticks_read(1), Action::Rearm));
    let a = n.rearmed(Err(io::Error::new(io::ErrorKind::Other, "rearm")));
    assert!(matches!(a, Action::PingWatchdog));
    assert!(matches!(n.pinged(false), Action::Suspend));
    assert!(matches!(n.state, NotifierState::Running { .. }));
    assert_eq!(n.awaiting, Awaiting::Drive);
}

#[test]
fn read_of_zero_ticks_rearms_without_ping() {
    let mut n: SystemdNotifier<(), u32> = SystemdNotifier::new();
    let _ = n.drive();
    let _ = n.announced(true);
    let _ = n.watchdog_queried(Some(Interval { secs: 1, nanos: 0 }));
    let _ = n.timer_started(Ok(5));
    assert!(matches!(n.readiness_polled(Ok(true)), Action::ReadTicks));
    assert!(matches!(n.ticks_read(0), Action::Rearm));
    assert!(matches!(n.rearmed(Ok(())), Action::Suspend));
    assert!(matches!(n.state, NotifierState::Running { timer: 5 }));
    assert_eq!(*n.timer_mut(), 5);
}

#[test]
fn reactor_handle_is_kept_until_the_timer_starts() {
    let n: SystemdNotifier<u16, u32> = SystemdNotifier::new_with_handle(42);
    assert_eq!(n.reactor_handle(), Some(&42));
    let d: SystemdNotifier<u16, u32> = SystemdNotifier::new();
    assert_eq!(d.reactor_handle(), None);
    let mut n = n;
    let _ = n.drive();
    let _ = n.announced(true);
    let _ = n.watchdog_queried(Some(Interval { secs: 4, nanos: 0 }));
    assert_eq!(n.reactor_handle(), Some(&42));
    let _ = n.timer_started(Ok(7));
    assert!(matches!(n.state, NotifierState::Arming { timer: 7 }));
}

fn started(n: &mut SystemdNotifier<(), u32>) {
    let _ = n.drive();
    let _ = n.announced(true);
    let _ = n.watchdog_queried(Some(Interval { secs: 2, nanos: 0 }));
    assert!(matches!(n.timer_started(Ok(3)), Action::PollReadiness));
    assert!(matches!(n.state, NotifierState::Arming { timer: 3 }));
}

#[test]
fn first_check_readiness_error_is_an_io_failure() {
    let mut n: SystemdNotifier<(), u32> = SystemdNotifier::new();
    started(&mut n);
    let err = io::Error::new(io::ErrorKind::Other, "register");
    match n.readiness_polled(Err(err)) {
        Action::Complete(Err(Error::Io(e))) => assert_eq!(e.to_string(), "register"),
        other => panic!("unexpected action {:?}", other),
    }
    assert!(matches!(n.state, NotifierState::Finished));
    assert_eq!(n.awaiting, Awaiting::Nothing);
}

#[test]
fn first_check_rearm_error_is_an_io_failure() {
    let mut n: SystemdNotifier<(), u32> = SystemdNotifier::new();
    started(&mut n);
    assert!(matches!(n.readiness_polled(Ok(true)), Action::ReadTicks));
    assert!(matches!(n.ticks_read(1), Action::Rearm));
    let err = io::Error::new(io::ErrorKind::Other, "rearm");
    match n.rearmed(Err(err)) {
        Action::Complete(Err(Error::Io(e))) => assert_eq!(e.to_string(), "rearm"),
        other => panic!("unexpected action {:?}", other),
    }
    assert!(matches!(n.state, NotifierState::Finished));
}

#[test]
fn first_check_tick_is_pinged_then_running() {
    let mut n: SystemdNotifier<(), u32> = SystemdNotifier::new();
    started(&mut n);
    assert!(matches!(n.readiness_polled(Ok(true)), Action::ReadTicks));
    assert!(matches!(n.ticks_read(2), Action::Rearm));
    assert!(matches!(n.rearmed(Ok(())), Action::PingWatchdog));
    assert!(matches!(n.state, NotifierState::Arming { timer: 3 }));
    assert!(matches!(n.pinged(true), Action::Suspend));
    assert!(matches!(n.state, NotifierState::Running { timer: 3 }));
    assert_eq!(n.awaiting, Awaiting::Drive);
}
