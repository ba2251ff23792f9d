use valet_monitor::scheduler::{scheduler_step, LoopAction, LoopEvent, Ticker};

#[test]
fn tick_runs_probe_only_while_enabled() {
    assert_eq!(
        scheduler_step(30, true, &LoopEvent::Tick),
        (30, LoopAction::RunProbe)
    );
    assert_eq!(
        scheduler_step(30, false, &LoopEvent::Tick),
        (30, LoopAction::NoAction)
    );
    // toggling back resumes on the next tick
    assert_eq!(
        scheduler_step(30, true, &LoopEvent::Tick),
        (30, LoopAction::RunProbe)
    );
}

#[test]
fn interval_update_rebuilds_only_on_change() {
    assert_eq!(
        scheduler_step(30, true, &LoopEvent::IntervalUpdate(15)),
        (15, LoopAction::RebuildTicker(15))
    );
    assert_eq!(
        scheduler_step(30, true, &LoopEvent::IntervalUpdate(30)),
        (30, LoopAction::NoAction)
    );
    // the enabled flag does not gate control messages
    assert_eq!(
        scheduler_step(30, false, &LoopEvent::IntervalUpdate(15)),
        (15, LoopAction::RebuildTicker(15))
    );
}

#[test]
fn rebuilt_ticker_waits_a_full_period() {
    let ticker = Ticker::rebuild(100, 15);
    assert_eq!(ticker.period_minutes, 15);
    assert_eq!(ticker.next_due_minute, 115);
    assert!(!ticker.is_due(100));
    assert!(!ticker.is_due(114));
    assert!(ticker.is_due(115));
    assert!(ticker.is_due(999));
}

#[test]
fn advancing_starts_the_next_full_period() {
    let mut ticker = Ticker::rebuild(0, 30);
    assert!(ticker.is_due(30));
    ticker.advance(31);
    assert_eq!(ticker.next_due_minute, 61);
    assert!(!ticker.is_due(60));
    assert!(ticker.is_due(61));
}
