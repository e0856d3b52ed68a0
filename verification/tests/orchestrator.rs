use autopower::async_util::Wakeup;
use autopower::settings::{GeneralSettings, PollInterval, SinkBaseSettings, SourceBaseSettings};
use autopower::state::{CycleAction, IdleDecision, PowerState, State};

fn probe_source(name: &str, poll_on: u64, poll_off: u64, timeout: u32) -> SourceBaseSettings {
    SourceBaseSettings {
        name: name.to_owned(),
        enable: true,
        poll_interval_sec: PollInterval { on: poll_on, off: poll_off },
        timeout_sec: timeout,
    }
}

fn plain_sink(name: &str) -> SinkBaseSettings {
    SinkBaseSettings {
        name: name.to_owned(),
        enable: true,
        on_source_whitelist: None,
        on_source_blacklist: None,
        timeout_sec: 3,
    }
}

fn whitelisting_sink(name: &str, whitelist: Vec<&str>) -> SinkBaseSettings {
    SinkBaseSettings {
        name: name.to_owned(),
        enable: true,
        on_source_whitelist: Some(whitelist.into_iter().map(|s| s.to_owned()).collect()),
        on_source_blacklist: None,
        timeout_sec: 3,
    }
}

#[test]
fn successful_probe_stores_observation() {
    let mut st = State::new(GeneralSettings { power_off_check_interval_sec: 10 });
    let mut w = Wakeup::new(false);
    st.try_register_sources(vec![Ok(probe_source("x", 5, 30, 3))]).unwrap();
    let epoch = st.registry_epoch;

    assert!(st.apply_probe_outcome(epoch, 0, Some(true), &mut w));
    assert_eq!(st.sources[0].current_power_state, PowerState::On);
    assert!(st.apply_probe_outcome(epoch, 0, Some(false), &mut w));
    assert_eq!(st.sources[0].current_power_state, PowerState::Off);
    assert!(st.apply_probe_outcome(epoch, 0, Some(true), &mut w));
    assert_eq!(st.sources[0].current_power_state, PowerState::On);
}

#[test]
fn unchanged_observation_propagates_nothing() {
    let mut st = State::new(GeneralSettings { power_off_check_interval_sec: 10 });
    let mut w = Wakeup::new(false);
    st.try_register_sources(vec![Ok(probe_source("x", 5, 30, 3))]).unwrap();
    st.try_register_sinks(vec![Ok(plain_sink("tv"))]).unwrap();
    let epoch = st.registry_epoch;

    // The very first observation differs from Unknown, so it is a change.
    assert!(st.apply_probe_outcome(epoch, 0, Some(true), &mut w));
    assert!(w.consume());
    assert!(st.sinks[0].should_turn_on);

    // Pretend the decision loop served the sink, then observe `true` again:
    // the unchanged observation must not re-set the flag nor re-signal.
    st.finish_sink_on(0, true);
    assert!(!st.apply_probe_outcome(epoch, 0, Some(true), &mut w));
    assert!(!w.consume());
    assert!(!st.sinks[0].should_turn_on);
}

#[test]
fn failed_probe_changes_nothing() {
    let mut st = State::new(GeneralSettings { power_off_check_interval_sec: 10 });
    let mut w = Wakeup::new(false);
    st.try_register_sources(vec![Ok(probe_source("x", 5, 30, 3))]).unwrap();
    st.try_register_sinks(vec![Ok(plain_sink("tv"))]).unwrap();
    let epoch = st.registry_epoch;

    st.apply_probe_outcome(epoch, 0, Some(true), &mut w);
    w.consume();
    // An error, timeout or abnormal end of the probe is "no new information".
    assert!(!st.apply_probe_outcome(epoch, 0, None, &mut w));
    assert_eq!(st.sources[0].current_power_state, PowerState::On);
    assert!(!w.consume());
}

#[test]
fn sleep_interval_follows_stored_state() {
    let mut st = State::new(GeneralSettings { power_off_check_interval_sec: 10 });
    let mut w = Wakeup::new(false);
    st.try_register_sources(vec![Ok(probe_source("x", 5, 30, 3))]).unwrap();
    let epoch = st.registry_epoch;

    // First run probes immediately, whatever the state.
    assert_eq!(st.sleep_before_check(0, true), 0);
    // Unknown sleeps the off-interval.
    assert_eq!(st.sleep_before_check(0, false), 30);
    st.apply_probe_outcome(epoch, 0, Some(true), &mut w);
    assert_eq!(st.sleep_before_check(0, false), 5);
    st.apply_probe_outcome(epoch, 0, Some(false), &mut w);
    assert_eq!(st.sleep_before_check(0, false), 30);
}

#[test]
fn turn_on_is_idempotent_within_a_cycle() {
    let mut st = State::new(GeneralSettings { power_off_check_interval_sec: 10 });
    let mut w = Wakeup::new(false);
    st.try_register_sources(vec![Ok(probe_source("x", 5, 30, 3))]).unwrap();
    st.try_register_sinks(vec![Ok(plain_sink("tv"))]).unwrap();
    let epoch = st.registry_epoch;

    st.apply_probe_outcome(epoch, 0, Some(true), &mut w);
    assert!(st.sink_should_turn_on(0));
    assert!(!st.finish_sink_on(0, true));
    assert_eq!(st.sinks[0].current_power_state, PowerState::On);
    // Already recorded on and the pending flag is clear: no further command.
    assert!(!st.sink_should_turn_on(0));
}

#[test]
fn failing_turn_on_retries_until_success() {
    let mut st = State::new(GeneralSettings { power_off_check_interval_sec: 10 });
    let mut w = Wakeup::new(false);
    st.try_register_sources(vec![Ok(probe_source("x", 5, 30, 3))]).unwrap();
    st.try_register_sinks(vec![Ok(plain_sink("tv"))]).unwrap();
    let epoch = st.registry_epoch;

    st.apply_probe_outcome(epoch, 0, Some(true), &mut w);
    assert!(st.sink_should_turn_on(0));
    // The command fails: pending stays set, state resets to Unknown, and a
    // short retry wakeup is requested.
    assert!(st.finish_sink_on(0, false));
    assert!(st.sinks[0].should_turn_on);
    assert_eq!(st.sinks[0].current_power_state, PowerState::Unknown);
    // The next evaluation still owes the command; this time it succeeds.
    assert!(st.sink_should_turn_on(0));
    assert!(!st.finish_sink_on(0, true));
    assert!(!st.sinks[0].should_turn_on);
    assert_eq!(st.sinks[0].current_power_state, PowerState::On);
}

#[test]
fn debounce_delays_poweroff_and_on_cancels_it() {
    let mut st = State::new(GeneralSettings { power_off_check_interval_sec: 10 });
    let mut w = Wakeup::new(false);
    st.try_register_sources(vec![Ok(probe_source("x", 5, 30, 3))]).unwrap();
    st.try_register_sinks(vec![Ok(plain_sink("tv"))]).unwrap();
    let epoch = st.registry_epoch;

    // All sources idle at t=100: a deadline is set 10 seconds out.
    assert!(st.all_sources_idle());
    assert_eq!(st.evaluate_idle(100), IdleDecision::WaitFor(10));
    assert_eq!(st.next_poweroff_write_time, Some(110));
    // Still before the deadline: keep waiting, deadline unchanged.
    assert_eq!(st.evaluate_idle(105), IdleDecision::WaitFor(5));
    assert_eq!(st.next_poweroff_write_time, Some(110));

    // A source turns on inside the window: the cycle serves pending sinks
    // instead, and the pending power-off deadline is cleared.
    st.apply_probe_outcome(epoch, 0, Some(true), &mut w);
    assert!(!st.all_sources_idle());
    assert_eq!(st.begin_decision_cycle(107), CycleAction::ServePendingOn);
    assert_eq!(st.next_poweroff_write_time, None);

    // Idle again at t=200: a fresh full window is waited out before the
    // power-off fires.
    st.apply_probe_outcome(epoch, 0, Some(false), &mut w);
    assert!(st.all_sources_idle());
    assert_eq!(st.begin_decision_cycle(200), CycleAction::WaitFor(10));
    assert_eq!(st.begin_decision_cycle(210), CycleAction::PowerOffSinks);
}

#[test]
fn zero_interval_powers_off_immediately() {
    let mut st = State::new(GeneralSettings { power_off_check_interval_sec: 0 });
    st.try_register_sinks(vec![Ok(plain_sink("tv"))]).unwrap();
    // With a zero debounce interval the deadline is due the moment it is
    // established.
    assert!(st.all_sources_idle());
    assert_eq!(st.begin_decision_cycle(42), CycleAction::PowerOffSinks);
    assert_eq!(st.evaluate_idle(42), IdleDecision::PowerOffNow);
}

#[test]
fn poweroff_skips_sinks_already_off() {
    let mut st = State::new(GeneralSettings { power_off_check_interval_sec: 10 });
    st.try_register_sinks(vec![Ok(plain_sink("tv"))]).unwrap();

    // First power-off: the sink was Unknown, so the command is owed.
    assert!(st.begin_sink_off(0));
    assert!(!st.finish_sink_off(0, true));
    assert_eq!(st.sinks[0].current_power_state, PowerState::Off);
    // Second power-off: already off, nothing further is done.
    assert!(!st.begin_sink_off(0));
}

#[test]
fn failing_poweroff_resets_to_unknown() {
    let mut st = State::new(GeneralSettings { power_off_check_interval_sec: 10 });
    st.try_register_sinks(vec![Ok(plain_sink("tv"))]).unwrap();

    assert!(st.begin_sink_off(0));
    // The command fails: the state reverts to Unknown and a retry wakeup is
    // requested, so the next cycle issues the command again.
    assert!(st.finish_sink_off(0, false));
    assert_eq!(st.sinks[0].current_power_state, PowerState::Unknown);
    assert!(st.begin_sink_off(0));
    assert!(!st.finish_sink_off(0, true));
    assert_eq!(st.sinks[0].current_power_state, PowerState::Off);
}

#[test]
fn single_source_scenario_drives_sink_through_cycle() {
    // One source (poll-on=5, poll-off=30, timeout=3), one unfiltered sink,
    // power-off-check-interval=10. Probes: false, false, true, false.
    let mut st = State::new(GeneralSettings { power_off_check_interval_sec: 10 });
    let mut w = Wakeup::new(true);
    st.try_register_sources(vec![Ok(probe_source("x", 5, 30, 3))]).unwrap();
    st.try_register_sinks(vec![Ok(plain_sink("tv"))]).unwrap();
    let epoch = st.registry_epoch;
    let mut now = 0u64;

    // Probe 1: false. The first observation is a transition from Unknown,
    // so it signals; the decision loop wakes, sees everything idle, and
    // starts the debounce. After it elapses the sink is written Off (it was
    // Unknown, so the off command runs once).
    assert!(st.apply_probe_outcome(epoch, 0, Some(false), &mut w));
    assert!(w.consume());
    assert!(st.all_sources_idle());
    assert_eq!(st.evaluate_idle(now), IdleDecision::WaitFor(10));
    now += 10;
    assert_eq!(st.evaluate_idle(now), IdleDecision::PowerOffNow);
    if st.begin_sink_off(0) {
        st.finish_sink_off(0, true);
    }
    assert_eq!(st.sinks[0].current_power_state, PowerState::Off);
    assert!(!st.sinks[0].should_turn_on);

    // Probe 2: false again. No transition, no signal; the sink stays Off.
    now += 30;
    assert!(!st.apply_probe_outcome(epoch, 0, Some(false), &mut w));
    assert!(!w.consume());
    assert_eq!(st.sinks[0].current_power_state, PowerState::Off);

    // Probe 3: true. The transition marks the sink pending and signals; the
    // decision loop turns it on immediately.
    now += 30;
    assert!(st.apply_probe_outcome(epoch, 0, Some(true), &mut w));
    assert!(w.consume());
    assert!(!st.all_sources_idle());
    st.clear_poweroff_deadline();
    assert!(st.sink_should_turn_on(0));
    st.finish_sink_on(0, true);
    assert_eq!(st.sinks[0].current_power_state, PowerState::On);

    // Probe 4: false. The sink stays On through the 10-second debounce, then
    // turns Off.
    now += 5;
    assert!(st.apply_probe_outcome(epoch, 0, Some(false), &mut w));
    assert!(w.consume());
    assert!(st.all_sources_idle());
    assert_eq!(st.evaluate_idle(now), IdleDecision::WaitFor(10));
    assert_eq!(st.sinks[0].current_power_state, PowerState::On);
    assert_eq!(st.evaluate_idle(now + 4), IdleDecision::WaitFor(6));
    assert_eq!(st.sinks[0].current_power_state, PowerState::On);
    now += 10;
    assert_eq!(st.evaluate_idle(now), IdleDecision::PowerOffNow);
    if st.begin_sink_off(0) {
        st.finish_sink_off(0, true);
    }
    assert_eq!(st.sinks[0].current_power_state, PowerState::Off);
}

#[test]
fn transition_reaches_only_admitted_sinks() {
    // Sink A whitelists source "X" only; sink B has no filters. A transition
    // of source "Y" to active marks only sink B pending.
    let mut st = State::new(GeneralSettings { power_off_check_interval_sec: 10 });
    let mut w = Wakeup::new(false);
    st.try_register_sources(vec![Ok(probe_source("Y", 5, 30, 3))]).unwrap();
    st.try_register_sinks(vec![
        Ok(whitelisting_sink("A", vec!["X"])),
        Ok(plain_sink("B")),
    ])
    .unwrap();
    let epoch = st.registry_epoch;

    assert!(st.apply_probe_outcome(epoch, 0, Some(true), &mut w));
    assert!(!st.sinks[0].should_turn_on);
    assert!(st.sinks[1].should_turn_on);
}

#[test]
fn stale_epoch_probe_outcome_is_dropped() {
    // A registry reload while a check is in flight: the late outcome carries
    // the superseded generation and silently does nothing.
    let mut st = State::new(GeneralSettings { power_off_check_interval_sec: 10 });
    let mut w = Wakeup::new(false);
    st.try_register_sources(vec![Ok(probe_source("x", 5, 30, 3))]).unwrap();
    st.try_register_sinks(vec![Ok(plain_sink("tv"))]).unwrap();
    let stale = st.registry_epoch;

    // The reload happens while the probe is in flight.
    st.try_register_sinks(vec![Ok(plain_sink("tv")), Ok(plain_sink("amp"))])
        .unwrap();

    assert!(!st.apply_probe_outcome(stale, 0, Some(true), &mut w));
    assert_eq!(st.sources[0].current_power_state, PowerState::Unknown);
    assert!(!st.sinks[0].should_turn_on);
    assert!(!st.sinks[1].should_turn_on);
    assert!(!w.consume());

    // An outcome carrying the current generation lands normally.
    let fresh = st.registry_epoch;
    assert!(st.apply_probe_outcome(fresh, 0, Some(true), &mut w));
    assert!(st.sinks[0].should_turn_on);
    assert!(st.sinks[1].should_turn_on);
    assert!(w.consume());
}
