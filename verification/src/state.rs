//! The orchestrator's state and its verified transitions: the tri-state
//! power model, the identity-keyed source and sink registries, the effect of
//! one probe outcome, and the per-cycle decisions of the sink loop —
//! power-off debounce, turn-on eligibility, and the recording of command
//! outcomes.
//!
//! The probes and commands themselves are performed outside; this module
//! receives their outcomes as plain values and decides everything else.

use crate::async_util::Wakeup;
use crate::settings::{GeneralSettings, SinkBaseSettings, SourceBaseSettings};
use vstd::prelude::*;

verus! {

/// The last known power condition of a source or a sink. Everything starts
/// `Unknown` until its first successful probe or command, and `Unknown` is
/// never treated as on.
#[derive(Clone, Copy, Debug, PartialEq, Eq, Structural)]
pub enum PowerState {
    /// The device was last seen powered or active.
    On,
    /// The device was last seen unpowered or inactive.
    Off,
    /// No successful observation or command yet, or the last command failed.
    Unknown,
}

/// The power state a boolean observation maps to.
pub open spec fn power_state_of_bool(value: bool) -> PowerState {
    if value {
        PowerState::On
    } else {
        PowerState::Off
    }
}

impl From<bool> for PowerState {
    fn from(value: bool) -> (r: Self) {
        if value {
            PowerState::On
        } else {
            PowerState::Off
        }
    }
}

impl vstd::std_specs::convert::FromSpecImpl<bool> for PowerState {
    open spec fn obeys_from_spec() -> bool {
        true
    }

    open spec fn from_spec(t: bool) -> PowerState {
        power_state_of_bool(t)
    }
}

impl Default for PowerState {
    /// The state of a device nothing has been learned about yet.
    fn default() -> (r: Self)
        ensures
            r == PowerState::Unknown,
    {
        PowerState::Unknown
    }
}

impl PowerState {
    /// The boolean this state corresponds to; `Unknown` has none.
    pub open spec fn spec_as_bool(&self) -> Option<bool> {
        match self {
            PowerState::On => Some(true),
            PowerState::Off => Some(false),
            PowerState::Unknown => None,
        }
    }

    /// The boolean this state corresponds to; `Unknown` has none.
    pub fn as_bool(&self) -> (r: Option<bool>)
        ensures
            r == self.spec_as_bool(),
    {
        match self {
            PowerState::On => Some(true),
            PowerState::Off => Some(false),
            PowerState::Unknown => None,
        }
    }
}

/// One registered source: its settings plus the stored power state its
/// check task maintains.
#[derive(Debug)]
pub struct SourceState {
    /// Configuration-derived settings of the source.
    pub settings: SourceBaseSettings,
    /// Last power state recorded by a successful probe.
    pub current_power_state: PowerState,
}

impl SourceState {
    /// A fresh record for a registered source; nothing is known of its
    /// power state yet.
    pub fn new(settings: SourceBaseSettings) -> (r: Self)
        ensures
            r == (SourceState { settings, current_power_state: PowerState::Unknown }),
    {
        SourceState { settings, current_power_state: PowerState::Unknown }
    }

    /// The seconds a check task sleeps before this source's next probe: the
    /// on-interval while the source is on, the off-interval otherwise.
    pub open spec fn spec_sleep_before_check(&self) -> u64 {
        if self.current_power_state == PowerState::On {
            self.settings.poll_interval_sec.on
        } else {
            self.settings.poll_interval_sec.off
        }
    }

    /// The seconds a check task sleeps before this source's next probe.
    pub fn get_sleep_before_check(&self) -> (secs: u64)
        ensures
            secs == self.spec_sleep_before_check(),
    {
        match self.current_power_state {
            PowerState::On => self.settings.poll_interval_sec.on,
            _ => self.settings.poll_interval_sec.off,
        }
    }
}

/// One registered sink: its settings, the stored power state the decision
/// loop maintains, and the pending turn-on flag source transitions set.
#[derive(Debug)]
pub struct SinkState {
    /// Configuration-derived settings of the sink.
    pub settings: SinkBaseSettings,
    /// Last power state recorded by the decision loop.
    pub current_power_state: PowerState,
    /// Set by an admitted source transition to on; cleared only by the
    /// decision loop after a successful turn-on.
    pub should_turn_on: bool,
}

impl SinkState {
    /// A fresh record for a registered sink; nothing is known of its power
    /// state yet and no turn-on is pending.
    pub fn new(settings: SinkBaseSettings) -> (r: Self)
        ensures
            r == (SinkState {
                settings,
                current_power_state: PowerState::Unknown,
                should_turn_on: false,
            }),
    {
        SinkState { settings, current_power_state: PowerState::Unknown, should_turn_on: false }
    }

    /// Whether the decision loop owes this sink a turn-on command: a turn-on
    /// is pending and the sink is not already recorded on.
    pub open spec fn spec_should_act(&self) -> bool {
        self.should_turn_on && self.current_power_state != PowerState::On
    }
}

/// A sink record after its state was swapped to `Off` at the start of a
/// power-off: the pending flag is not touched.
pub open spec fn spec_begin_off(sk: SinkState) -> SinkState {
    SinkState { current_power_state: PowerState::Off, ..sk }
}

/// A sink record after the outcome of its off command was recorded: success
/// keeps the record as it stands, failure resets the state to `Unknown` so
/// the next cycle retries.
pub open spec fn spec_finish_off(sk: SinkState, success: bool) -> SinkState {
    if success {
        sk
    } else {
        SinkState { current_power_state: PowerState::Unknown, ..sk }
    }
}

/// A sink record after the outcome of its on command was recorded: success
/// clears the pending flag and records `On`; failure leaves the pending flag
/// set and resets the state to `Unknown` so the next cycle retries.
pub open spec fn spec_finish_on(sk: SinkState, success: bool) -> SinkState {
    if success {
        SinkState { current_power_state: PowerState::On, should_turn_on: false, ..sk }
    } else {
        SinkState { current_power_state: PowerState::Unknown, ..sk }
    }
}

/// The sink records after a source transition was propagated: when the
/// source turned on, every sink whose filters admit the source name gets its
/// pending flag set; transitions to off never clear a flag.
pub open spec fn spec_mark_pending(
    sinks: Seq<SinkState>,
    source_name: Seq<char>,
    active: bool,
) -> Seq<SinkState> {
    sinks.map_values(
        |sk: SinkState|
            if active && sk.settings.spec_allows_source_for_on(source_name) {
                SinkState { should_turn_on: true, ..sk }
            } else {
                sk
            },
    )
}

/// Source names are unique within a registry.
pub open spec fn unique_source_names(rs: Seq<SourceState>) -> bool {
    forall|i: int, j: int|
        #![trigger rs[i].settings.name@, rs[j].settings.name@]
        0 <= i < rs.len() && 0 <= j < rs.len() && i != j ==> rs[i].settings.name@
            != rs[j].settings.name@
}

/// Sink names are unique within a registry.
pub open spec fn unique_sink_names(rs: Seq<SinkState>) -> bool {
    forall|i: int, j: int|
        #![trigger rs[i].settings.name@, rs[j].settings.name@]
        0 <= i < rs.len() && 0 <= j < rs.len() && i != j ==> rs[i].settings.name@
            != rs[j].settings.name@
}

/// One registration step: a fresh record for the settings replaces the
/// record of the same name, or is appended when the name is new —
/// last-write-wins, never an error.
pub open spec fn upsert_source(rs: Seq<SourceState>, s: SourceBaseSettings) -> Seq<SourceState> {
    let rec = SourceState { settings: s, current_power_state: PowerState::Unknown };
    if exists|j: int| 0 <= j < rs.len() && rs[j].settings.name@ == s.name@ {
        rs.update(choose|j: int| 0 <= j < rs.len() && rs[j].settings.name@ == s.name@, rec)
    } else {
        rs.push(rec)
    }
}

/// The source registry an ordered list of settings builds, entry by entry.
pub open spec fn sources_registry(entries: Seq<SourceBaseSettings>) -> Seq<SourceState>
    decreases entries.len(),
{
    if entries.len() == 0 {
        Seq::empty()
    } else {
        upsert_source(sources_registry(entries.drop_last()), entries.last())
    }
}

/// One registration step for sinks; see `upsert_source`.
pub open spec fn upsert_sink(rs: Seq<SinkState>, s: SinkBaseSettings) -> Seq<SinkState> {
    let rec = SinkState {
        settings: s,
        current_power_state: PowerState::Unknown,
        should_turn_on: false,
    };
    if exists|j: int| 0 <= j < rs.len() && rs[j].settings.name@ == s.name@ {
        rs.update(choose|j: int| 0 <= j < rs.len() && rs[j].settings.name@ == s.name@, rec)
    } else {
        rs.push(rec)
    }
}

/// The sink registry an ordered list of settings builds, entry by entry.
pub open spec fn sinks_registry(entries: Seq<SinkBaseSettings>) -> Seq<SinkState>
    decreases entries.len(),
{
    if entries.len() == 0 {
        Seq::empty()
    } else {
        upsert_sink(sinks_registry(entries.drop_last()), entries.last())
    }
}

/// Whether no source is recorded on, so the system counts as globally idle;
/// `Off` and `Unknown` both count as not on.
pub open spec fn spec_all_idle(sources: Seq<SourceState>) -> bool {
    forall|i: int| 0 <= i < sources.len() ==> sources[i].current_power_state != PowerState::On
}

/// The absolute power-off deadline an idle cycle works against: the already
/// pending one, or a fresh one a full check interval from now.
pub open spec fn spec_poweroff_deadline(prev: Option<u64>, now: u64, interval: u64) -> int {
    match prev {
        Some(t) => t as int,
        None => now + interval,
    }
}

/// What an idle cycle does against its deadline: wait out the remaining
/// debounce time, or proceed to power the sinks off.
#[derive(Clone, Copy, Debug, PartialEq, Eq, Structural)]
pub enum IdleDecision {
    /// The deadline lies in the future; re-evaluate after this many seconds.
    WaitFor(u64),
    /// The deadline has elapsed; power the sinks off now.
    PowerOffNow,
}

/// The decision an idle cycle takes at time `now` against a deadline.
pub open spec fn spec_idle_decision(deadline: int, now: u64) -> IdleDecision {
    if deadline > now {
        IdleDecision::WaitFor((deadline - now) as u64)
    } else {
        IdleDecision::PowerOffNow
    }
}

/// Seconds until the retry wakeup a failed sink command requests.
pub const SINK_RETRY_WAKEUP_SEC: u64 = 5;

/// What one cycle of the decision loop does after aggregating the sources.
#[derive(Clone, Copy, Debug, PartialEq, Eq, Structural)]
pub enum CycleAction {
    /// Some source is on: serve the sinks whose pending flag and state
    /// disagree.
    ServePendingOn,
    /// Everything is idle and the debounce deadline lies in the future;
    /// re-evaluate after this many seconds.
    WaitFor(u64),
    /// Everything is idle and the debounce deadline has elapsed; power the
    /// sinks off now.
    PowerOffSinks,
}

/// The orchestrator's state: the general settings, the two registries, the
/// registry generation, and the pending power-off deadline of the decision
/// loop.
///
/// Registries are replaced wholesale; `registry_epoch` stamps each
/// replacement, and a probe outcome carrying a superseded stamp is dropped
/// without effect, so an in-flight check never touches a registry it was not
/// scheduled against.
#[derive(Debug)]
pub struct State {
    /// General settings.
    pub config: GeneralSettings,
    /// The source registry, unique by name.
    pub sources: Vec<SourceState>,
    /// The sink registry, unique by name.
    pub sinks: Vec<SinkState>,
    /// Generation of the current registries; each replacement bumps it.
    pub registry_epoch: u64,
    /// Absolute time the pending power-off falls due, while the system has
    /// stayed idle since the deadline was established.
    pub next_poweroff_write_time: Option<u64>,
}

impl State {
    /// Registries are well-formed: names are unique per registry.
    pub open spec fn wf(&self) -> bool {
        &&& unique_source_names(self.sources@)
        &&& unique_sink_names(self.sinks@)
    }

    /// A fresh orchestrator with empty registries.
    pub fn new(config: GeneralSettings) -> (r: Self)
        ensures
            r.config == config,
            r.sources@.len() == 0,
            r.sinks@.len() == 0,
            r.registry_epoch == 0,
            r.next_poweroff_write_time is None,
            r.wf(),
    {
        State {
            config,
            sources: Vec::new(),
            sinks: Vec::new(),
            registry_epoch: 0,
            next_poweroff_write_time: None,
        }
    }

    /// Builds a fresh source registry from an ordered list of construction
    /// results and replaces the current one wholesale. The first failed
    /// construction aborts the whole registration and leaves the state
    /// untouched; among successful entries sharing a name the last wins.
    #[verifier::loop_isolation(false)]
    pub fn try_register_sources(&mut self, sources: Vec<Result<SourceBaseSettings, String>>) -> (r:
        Result<(), String>)
        requires
            old(self).wf(),
            old(self).registry_epoch < u64::MAX,
        ensures
            final(self).wf(),
            r is Ok <==> (forall|k: int| 0 <= k < sources@.len() ==> sources@[k] is Ok),
            r is Ok ==> {
                &&& final(self).sources@ == sources_registry(
                    sources@.map_values(|e: Result<SourceBaseSettings, String>| e->Ok_0),
                )
                &&& final(self).sinks@ == old(self).sinks@
                &&& final(self).config == old(self).config
                &&& final(self).next_poweroff_write_time == old(self).next_poweroff_write_time
                &&& final(self).registry_epoch == old(self).registry_epoch + 1
            },
            r is Err ==> {
                &&& *final(self) == *old(self)
                &&& exists|j: int|
                    0 <= j < sources@.len() && sources@[j] is Err && (forall|k: int|
                        0 <= k < j ==> sources@[k] is Ok) && r == Result::<(), String>::Err(
                        sources@[j]->Err_0,
                    )
            },
    {
        let ghost all = sources@;

        // First pass: the first failed construction aborts the whole
        // registration before anything is replaced.
        let mut k: usize = 0;
        while k < sources.len()
            invariant
                k <= sources@.len(),
                all == sources@,
                forall|i: int| 0 <= i < k ==> sources@[i] is Ok,
            decreases sources@.len() - k,
        {
            match &sources[k] {
                Err(msg) => {
                    proof {
                        assert(0 <= k < sources@.len() && sources@[k as int] is Err && (forall|
                            i: int,
                        | 0 <= i < k ==> sources@[i] is Ok));
                    }
                    return Err(msg.clone());
                },
                Ok(_) => {},
            }
            k = k + 1;
        }

        // Second pass: every entry succeeded; build the registry in order,
        // last write winning on a name collision.
        let mut entries = sources;
        let total: usize = entries.len();
        let mut new_sources: Vec<SourceState> = Vec::new();
        let mut done: usize = 0;

        while entries.len() > 0
            invariant
                done + entries@.len() == total,
                all.len() == total,
                forall|i: int| 0 <= i < all.len() ==> all[i] is Ok,
                entries@ =~= all.subrange(done as int, total as int),
                new_sources@ == sources_registry(
                    all.subrange(0, done as int).map_values(
                        |e: Result<SourceBaseSettings, String>| e->Ok_0,
                    ),
                ),
                unique_source_names(new_sources@),
            decreases entries@.len(),
        {
            let ghost regd = all.subrange(0, done as int).map_values(
                |e: Result<SourceBaseSettings, String>| e->Ok_0,
            );
            let entry = entries.remove(0);
            proof {
                assert(entry == all[done as int]);
                assert(entries@ =~= all.subrange(done as int + 1, total as int));
            }
            match entry {
                Err(_) => {
                    proof {
                        assert(false);
                    }
                },
                Ok(settings) => {
                    upsert_source_record(&mut new_sources, settings);
                    done = done + 1;
                    proof {
                        let regd2 = all.subrange(0, done as int).map_values(
                            |e: Result<SourceBaseSettings, String>| e->Ok_0,
                        );
                        assert(regd2.drop_last() =~= regd);
                        assert(regd2.last() == all[done - 1]->Ok_0);
                    }
                },
            }
        }

        proof {
            assert(all == sources@);
            assert(all.subrange(0, done as int) =~= all);
        }
        self.sources = new_sources;
        self.registry_epoch = self.registry_epoch + 1;
        Ok(())
    }

    /// Builds a fresh sink registry from an ordered list of construction
    /// results and replaces the current one wholesale, with the same
    /// all-or-nothing and last-write-wins rules as for sources.
    #[verifier::loop_isolation(false)]
    pub fn try_register_sinks(&mut self, sinks: Vec<Result<SinkBaseSettings, String>>) -> (r:
        Result<(), String>)
        requires
            old(self).wf(),
            old(self).registry_epoch < u64::MAX,
        ensures
            final(self).wf(),
            r is Ok <==> (forall|k: int| 0 <= k < sinks@.len() ==> sinks@[k] is Ok),
            r is Ok ==> {
                &&& final(self).sinks@ == sinks_registry(
                    sinks@.map_values(|e: Result<SinkBaseSettings, String>| e->Ok_0),
                )
                &&& final(self).sources@ == old(self).sources@
                &&& final(self).config == old(self).config
                &&& final(self).next_poweroff_write_time == old(self).next_poweroff_write_time
                &&& final(self).registry_epoch == old(self).registry_epoch + 1
            },
            r is Err ==> {
                &&& *final(self) == *old(self)
                &&& exists|j: int|
                    0 <= j < sinks@.len() && sinks@[j] is Err && (forall|k: int|
                        0 <= k < j ==> sinks@[k] is Ok) && r == Result::<(), String>::Err(
                        sinks@[j]->Err_0,
                    )
            },
    {
        let ghost all = sinks@;

        // First pass: the first failed construction aborts the whole
        // registration before anything is replaced.
        let mut k: usize = 0;
        while k < sinks.len()
            invariant
                k <= sinks@.len(),
                all == sinks@,
                forall|i: int| 0 <= i < k ==> sinks@[i] is Ok,
            decreases sinks@.len() - k,
        {
            match &sinks[k] {
                Err(msg) => {
                    proof {
                        assert(0 <= k < sinks@.len() && sinks@[k as int] is Err && (forall|i: int|
                            0 <= i < k ==> sinks@[i] is Ok));
                    }
                    return Err(msg.clone());
                },
                Ok(_) => {},
            }
            k = k + 1;
        }

        // Second pass: every entry succeeded; build the registry in order,
        // last write winning on a name collision.
        let mut entries = sinks;
        let total: usize = entries.len();
        let mut new_sinks: Vec<SinkState> = Vec::new();
        let mut done: usize = 0;

        while entries.len() > 0
            invariant
                done + entries@.len() == total,
                all.len() == total,
                forall|i: int| 0 <= i < all.len() ==> all[i] is Ok,
                entries@ =~= all.subrange(done as int, total as int),
                new_sinks@ == sinks_registry(
                    all.subrange(0, done as int).map_values(
                        |e: Result<SinkBaseSettings, String>| e->Ok_0,
                    ),
                ),
                unique_sink_names(new_sinks@),
            decreases entries@.len(),
        {
            let ghost regd = all.subrange(0, done as int).map_values(
                |e: Result<SinkBaseSettings, String>| e->Ok_0,
            );
            let entry = entries.remove(0);
            proof {
                assert(entry == all[done as int]);
                assert(entries@ =~= all.subrange(done as int + 1, total as int));
            }
            match entry {
                Err(_) => {
                    proof {
                        assert(false);
                    }
                },
                Ok(settings) => {
                    upsert_sink_record(&mut new_sinks, settings);
                    done = done + 1;
                    proof {
                        let regd2 = all.subrange(0, done as int).map_values(
                            |e: Result<SinkBaseSettings, String>| e->Ok_0,
                        );
                        assert(regd2.drop_last() =~= regd);
                        assert(regd2.last() == all[done - 1]->Ok_0);
                    }
                },
            }
        }

        proof {
            assert(all == sinks@);
            assert(all.subrange(0, done as int) =~= all);
        }
        self.sinks = new_sinks;
        self.registry_epoch = self.registry_epoch + 1;
        Ok(())
    }
}

impl State {
    /// The seconds a check task sleeps before the next probe of the source
    /// at `i`: zero on the very first check after (re)registration, else the
    /// interval the source's current state selects.
    pub fn sleep_before_check(&self, i: usize, is_first_run: bool) -> (secs: u64)
        requires
            i < self.sources@.len(),
        ensures
            is_first_run ==> secs == 0,
            !is_first_run ==> secs == self.sources@[i as int].spec_sleep_before_check(),
    {
        if is_first_run {
            0
        } else {
            self.sources[i].get_sleep_before_check()
        }
    }

    /// Whether no source is recorded on, so the system counts as globally
    /// idle.
    #[verifier::loop_isolation(false)]
    pub fn all_sources_idle(&self) -> (idle: bool)
        ensures
            idle == spec_all_idle(self.sources@),
    {
        let mut i: usize = 0;
        while i < self.sources.len()
            invariant
                i <= self.sources@.len(),
                forall|k: int|
                    0 <= k < i ==> self.sources@[k].current_power_state != PowerState::On,
            decreases self.sources@.len() - i,
        {
            if self.sources[i].current_power_state == PowerState::On {
                proof {
                    assert(self.sources@[i as int].current_power_state == PowerState::On);
                }
                return false;
            }
            i = i + 1;
        }
        true
    }

    /// Sets the pending turn-on flag of every sink whose filters admit the
    /// named source, when the source turned on; a transition to off never
    /// clears a flag.
    #[verifier::loop_isolation(false)]
    pub fn update_pending_sink_states(&mut self, source_name: &String, state: bool)
        requires
            old(self).wf(),
        ensures
            final(self).wf(),
            final(self).sinks@ == spec_mark_pending(old(self).sinks@, source_name@, state),
            final(self).sources@ == old(self).sources@,
            final(self).config == old(self).config,
            final(self).registry_epoch == old(self).registry_epoch,
            final(self).next_poweroff_write_time == old(self).next_poweroff_write_time,
    {
        let ghost target = spec_mark_pending(old(self).sinks@, source_name@, state);
        let mut j: usize = 0;
        while j < self.sinks.len()
            invariant
                j <= self.sinks@.len(),
                self.sinks@.len() == old(self).sinks@.len(),
                self.sources@ == old(self).sources@,
                self.config == old(self).config,
                self.registry_epoch == old(self).registry_epoch,
                self.next_poweroff_write_time == old(self).next_poweroff_write_time,
                forall|k: int| 0 <= k < j ==> self.sinks@[k] == target[k],
                forall|k: int| j <= k < self.sinks@.len() ==> self.sinks@[k] == old(self).sinks@[k],
            decreases self.sinks@.len() - j,
        {
            let admits = self.sinks[j].settings.allows_source_for_on(source_name);
            if admits && state {
                let sink = &mut self.sinks[j];
                sink.should_turn_on = true;
            }
            j = j + 1;
        }
        proof {
            assert(self.sinks@ =~= target);
            assert forall|a: int, b: int|
                0 <= a < self.sinks@.len() && 0 <= b < self.sinks@.len() && a != b implies self
                .sinks@[a].settings.name@ != self.sinks@[b].settings.name@ by {
                assert(self.sinks@[a].settings == old(self).sinks@[a].settings);
                assert(self.sinks@[b].settings == old(self).sinks@[b].settings);
                assert(old(self).sinks@[a].settings.name@ != old(self).sinks@[b].settings.name@);
            }
        }
    }

    /// Applies the outcome of one probe of the source at `i`, scheduled
    /// against registry generation `epoch`. A stale generation or a failed
    /// probe changes nothing. A successful probe stores the observed state;
    /// on a transition the new observation is propagated to the admitted
    /// sinks' pending flags and the decision loop is signalled, while an
    /// unchanged observation propagates and signals nothing. Reports whether
    /// a transition was recorded.
    pub fn apply_probe_outcome(
        &mut self,
        epoch: u64,
        i: usize,
        observed: Option<bool>,
        manual_wakeup: &mut Wakeup,
    ) -> (changed: bool)
        requires
            old(self).wf(),
            epoch == old(self).registry_epoch ==> i < old(self).sources@.len(),
        ensures
            final(self).wf(),
            final(self).config == old(self).config,
            final(self).registry_epoch == old(self).registry_epoch,
            final(self).next_poweroff_write_time == old(self).next_poweroff_write_time,
            epoch != old(self).registry_epoch ==> *final(self) == *old(self) && *final(manual_wakeup)
                == *old(manual_wakeup) && !changed,
            epoch == old(self).registry_epoch && observed is None ==> *final(self) == *old(self)
                && *final(manual_wakeup) == *old(manual_wakeup) && !changed,
            epoch == old(self).registry_epoch && observed is Some ==> {
                let active = observed->0;
                let prev = old(self).sources@[i as int].current_power_state;
                let stored = power_state_of_bool(active);
                &&& changed == (prev != stored)
                &&& final(self).sources@ == old(self).sources@.update(
                    i as int,
                    SourceState { current_power_state: stored, ..old(self).sources@[i as int] },
                )
                &&& !changed ==> final(self).sinks@ == old(self).sinks@ && *final(manual_wakeup)
                    == *old(manual_wakeup)
                &&& changed ==> final(self).sinks@ == spec_mark_pending(
                    old(self).sinks@,
                    old(self).sources@[i as int].settings.name@,
                    active,
                ) && final(manual_wakeup).woken
            },
    {
        if epoch != self.registry_epoch {
            return false;
        }
        match observed {
            None => false,
            Some(active) => {
                let stored: PowerState = if active {
                    PowerState::On
                } else {
                    PowerState::Off
                };
                let prev = self.sources[i].current_power_state;
                let source = &mut self.sources[i];
                source.current_power_state = stored;
                if prev != stored {
                    let source_name = self.sources[i].settings.name.clone();
                    proof {
                        assert(source_name@ == old(self).sources@[i as int].settings.name@);
                    }
                    self.update_pending_sink_states(&source_name, active);
                    manual_wakeup.wakeup();
                    true
                } else {
                    proof {
                        assert(self.sources@ =~= old(self).sources@.update(
                            i as int,
                            SourceState {
                                current_power_state: stored,
                                ..old(self).sources@[i as int]
                            },
                        ));
                    }
                    false
                }
            },
        }
    }

    /// One idle evaluation at time `now`: establishes the power-off deadline
    /// lazily, a full check interval ahead, and decides whether the
    /// remaining debounce time must still be waited out or the sinks are to
    /// be powered off now.
    pub fn evaluate_idle(&mut self, now: u64) -> (d: IdleDecision)
        requires
            old(self).wf(),
            old(self).next_poweroff_write_time is None ==> now
                + old(self).config.power_off_check_interval_sec <= u64::MAX,
        ensures
            final(self).wf(),
            final(self).sources@ == old(self).sources@,
            final(self).sinks@ == old(self).sinks@,
            final(self).config == old(self).config,
            final(self).registry_epoch == old(self).registry_epoch,
            ({
                let deadline = spec_poweroff_deadline(
                    old(self).next_poweroff_write_time,
                    now,
                    old(self).config.power_off_check_interval_sec,
                );
                &&& final(self).next_poweroff_write_time == Some(deadline as u64)
                &&& d == spec_idle_decision(deadline, now)
            }),
    {
        let deadline: u64 = match self.next_poweroff_write_time {
            Some(t) => t,
            None => now + self.config.power_off_check_interval_sec,
        };
        self.next_poweroff_write_time = Some(deadline);
        if deadline > now {
            IdleDecision::WaitFor(deadline - now)
        } else {
            IdleDecision::PowerOffNow
        }
    }

    /// Forgets a pending power-off deadline: some source is on again, so the
    /// debounce window is cancelled.
    pub fn clear_poweroff_deadline(&mut self)
        requires
            old(self).wf(),
        ensures
            final(self).wf(),
            *final(self) == (State { next_poweroff_write_time: None, ..*old(self) }),
    {
        self.next_poweroff_write_time = None;
    }

    /// Opens one cycle of the decision loop at time `now`: when no source is
    /// on, the power-off debounce is evaluated; otherwise any pending
    /// power-off is cancelled — its deadline cleared — and the sinks whose
    /// pending flag and state disagree are to be served.
    pub fn begin_decision_cycle(&mut self, now: u64) -> (action: CycleAction)
        requires
            old(self).wf(),
            spec_all_idle(old(self).sources@) && old(self).next_poweroff_write_time is None ==> now
                + old(self).config.power_off_check_interval_sec <= u64::MAX,
        ensures
            final(self).wf(),
            final(self).sources@ == old(self).sources@,
            final(self).sinks@ == old(self).sinks@,
            final(self).config == old(self).config,
            final(self).registry_epoch == old(self).registry_epoch,
            !spec_all_idle(old(self).sources@) ==> action == CycleAction::ServePendingOn
                && final(self).next_poweroff_write_time is None,
            spec_all_idle(old(self).sources@) ==> {
                let deadline = spec_poweroff_deadline(
                    old(self).next_poweroff_write_time,
                    now,
                    old(self).config.power_off_check_interval_sec,
                );
                &&& final(self).next_poweroff_write_time == Some(deadline as u64)
                &&& action == match spec_idle_decision(deadline, now) {
                    IdleDecision::WaitFor(secs) => CycleAction::WaitFor(secs),
                    IdleDecision::PowerOffNow => CycleAction::PowerOffSinks,
                }
            },
    {
        if self.all_sources_idle() {
            match self.evaluate_idle(now) {
                IdleDecision::WaitFor(secs) => CycleAction::WaitFor(secs),
                IdleDecision::PowerOffNow => CycleAction::PowerOffSinks,
            }
        } else {
            self.clear_poweroff_deadline();
            CycleAction::ServePendingOn
        }
    }

    /// Starts powering off the sink at `j`: its stored state is swapped to
    /// `Off`, and the off command is owed exactly when the sink was not
    /// already recorded off. The pending flag is not touched.
    pub fn begin_sink_off(&mut self, j: usize) -> (was_not_off: bool)
        requires
            old(self).wf(),
            j < old(self).sinks@.len(),
        ensures
            final(self).wf(),
            was_not_off == (old(self).sinks@[j as int].current_power_state != PowerState::Off),
            final(self).sinks@ == old(self).sinks@.update(
                j as int,
                spec_begin_off(old(self).sinks@[j as int]),
            ),
            final(self).sources@ == old(self).sources@,
            final(self).config == old(self).config,
            final(self).registry_epoch == old(self).registry_epoch,
            final(self).next_poweroff_write_time == old(self).next_poweroff_write_time,
    {
        let prev = self.sinks[j].current_power_state;
        let sink = &mut self.sinks[j];
        sink.current_power_state = PowerState::Off;
        proof {
            lemma_update_preserves_unique_sinks(
                old(self).sinks@,
                j as int,
                spec_begin_off(old(self).sinks@[j as int]),
            );
        }
        prev != PowerState::Off
    }

    /// Records the outcome of the off command issued to the sink at `j`:
    /// success keeps the stored `Off`; failure resets the state to `Unknown`
    /// and asks for a short retry wakeup.
    pub fn finish_sink_off(&mut self, j: usize, success: bool) -> (need_retry: bool)
        requires
            old(self).wf(),
            j < old(self).sinks@.len(),
        ensures
            final(self).wf(),
            need_retry == !success,
            final(self).sinks@ == old(self).sinks@.update(
                j as int,
                spec_finish_off(old(self).sinks@[j as int], success),
            ),
            final(self).sources@ == old(self).sources@,
            final(self).config == old(self).config,
            final(self).registry_epoch == old(self).registry_epoch,
            final(self).next_poweroff_write_time == old(self).next_poweroff_write_time,
    {
        if !success {
            let sink = &mut self.sinks[j];
            sink.current_power_state = PowerState::Unknown;
        } else {
            proof {
                assert(self.sinks@ =~= old(self).sinks@.update(
                    j as int,
                    spec_finish_off(old(self).sinks@[j as int], success),
                ));
            }
        }
        proof {
            lemma_update_preserves_unique_sinks(
                old(self).sinks@,
                j as int,
                spec_finish_off(old(self).sinks@[j as int], success),
            );
        }
        !success
    }

    /// Whether the decision loop owes the sink at `j` a turn-on command: a
    /// turn-on is pending and the sink is not already recorded on.
    pub fn sink_should_turn_on(&self, j: usize) -> (r: bool)
        requires
            j < self.sinks@.len(),
        ensures
            r == self.sinks@[j as int].spec_should_act(),
    {
        self.sinks[j].should_turn_on && self.sinks[j].current_power_state != PowerState::On
    }

    /// Records the outcome of the on command issued to the sink at `j`:
    /// success clears the pending flag and stores `On`; failure leaves the
    /// pending flag set, resets the state to `Unknown`, and asks for a short
    /// retry wakeup.
    pub fn finish_sink_on(&mut self, j: usize, success: bool) -> (need_retry: bool)
        requires
            old(self).wf(),
            j < old(self).sinks@.len(),
        ensures
            final(self).wf(),
            need_retry == !success,
            final(self).sinks@ == old(self).sinks@.update(
                j as int,
                spec_finish_on(old(self).sinks@[j as int], success),
            ),
            final(self).sources@ == old(self).sources@,
            final(self).config == old(self).config,
            final(self).registry_epoch == old(self).registry_epoch,
            final(self).next_poweroff_write_time == old(self).next_poweroff_write_time,
    {
        let sink = &mut self.sinks[j];
        if success {
            sink.should_turn_on = false;
            sink.current_power_state = PowerState::On;
        } else {
            sink.current_power_state = PowerState::Unknown;
        }
        proof {
            lemma_update_preserves_unique_sinks(
                old(self).sinks@,
                j as int,
                spec_finish_on(old(self).sinks@[j as int], success),
            );
        }
        !success
    }
}

/// The pending turn-on flag is cleared only by a successful on command:
/// propagating a source transition can only set it — and does so exactly for
/// the admitted sinks of a source that turned on — and the power-off steps
/// and a failed turn-on all leave it as it stands.
pub proof fn lemma_pending_flag_discipline(
    sinks: Seq<SinkState>,
    source_name: Seq<char>,
    active: bool,
    j: int,
)
    requires
        0 <= j < sinks.len(),
    ensures
        spec_mark_pending(sinks, source_name, active).len() == sinks.len(),
        spec_mark_pending(sinks, source_name, active)[j].should_turn_on == (
        sinks[j].should_turn_on || (active && sinks[j].settings.spec_allows_source_for_on(
            source_name,
        ))),
        spec_begin_off(sinks[j]).should_turn_on == sinks[j].should_turn_on,
        spec_finish_off(sinks[j], true).should_turn_on == sinks[j].should_turn_on,
        spec_finish_off(sinks[j], false).should_turn_on == sinks[j].should_turn_on,
        spec_finish_on(sinks[j], false).should_turn_on == sinks[j].should_turn_on,
        !spec_finish_on(sinks[j], true).should_turn_on,
{
}

/// Idempotence of turn-on: a sink already recorded on is never owed another
/// on command, whatever its pending flag, and a sink whose turn-on just
/// succeeded is not owed one either, since success clears the flag.
pub proof fn lemma_turn_on_idempotent(sk: SinkState)
    ensures
        sk.current_power_state == PowerState::On ==> !sk.spec_should_act(),
        !spec_finish_on(sk, true).spec_should_act(),
{
}

/// Debounce: once the system goes idle at `idle_since` and the power-off
/// deadline is established a full check interval ahead, every idle
/// evaluation strictly before that deadline only waits out the remaining
/// time, and only an evaluation at or after it powers the sinks off. A
/// source turning on in between makes the loop clear the deadline instead,
/// so the window restarts from the next idle cycle.
pub proof fn lemma_debounce(interval: u64, idle_since: u64, now: u64)
    requires
        idle_since + interval <= u64::MAX,
    ensures
        ({
            let deadline = spec_poweroff_deadline(None, idle_since, interval);
            &&& now < deadline ==> spec_idle_decision(deadline, now) == IdleDecision::WaitFor(
                (deadline - now) as u64,
            )
            &&& now < deadline ==> spec_idle_decision(deadline, now) != IdleDecision::PowerOffNow
            &&& now >= deadline ==> spec_idle_decision(deadline, now) == IdleDecision::PowerOffNow
        }),
{
}

/// Failure retry: a failed turn-on leaves the pending flag set and the
/// stored state `Unknown`, so the sink is still owed a command on the next
/// evaluation, and a subsequent successful attempt clears the flag and
/// records the sink on.
pub proof fn lemma_failed_turn_on_retried(sk: SinkState)
    requires
        sk.spec_should_act(),
    ensures
        spec_finish_on(sk, false).should_turn_on,
        spec_finish_on(sk, false).current_power_state == PowerState::Unknown,
        spec_finish_on(sk, false).spec_should_act(),
        spec_finish_on(spec_finish_on(sk, false), true).current_power_state == PowerState::On,
        !spec_finish_on(spec_finish_on(sk, false), true).should_turn_on,
{
}

/// Replacing one sink record with one of the same settings keeps the
/// registry's names unique.
proof fn lemma_update_preserves_unique_sinks(rs: Seq<SinkState>, j: int, rec: SinkState)
    requires
        unique_sink_names(rs),
        0 <= j < rs.len(),
        rec.settings == rs[j].settings,
    ensures
        unique_sink_names(rs.update(j, rec)),
{
    let updated = rs.update(j, rec);
    assert forall|a: int, b: int|
        0 <= a < updated.len() && 0 <= b < updated.len() && a != b implies updated[a].settings.name@
        != updated[b].settings.name@ by {
        if a == j {
            assert(updated[b] == rs[b]);
            assert(rs[j].settings.name@ != rs[b].settings.name@);
        } else if b == j {
            assert(updated[a] == rs[a]);
            assert(rs[a].settings.name@ != rs[j].settings.name@);
        } else {
            assert(updated[a] == rs[a] && updated[b] == rs[b]);
        }
    }
}

/// Applies one last-write-wins registration step to a source registry being
/// built.
#[verifier::loop_isolation(false)]
fn upsert_source_record(v: &mut Vec<SourceState>, settings: SourceBaseSettings)
    requires
        unique_source_names(old(v)@),
    ensures
        final(v)@ == upsert_source(old(v)@, settings),
        unique_source_names(final(v)@),
{
    let rec = SourceState::new(settings);
    let ghost name = rec.settings.name@;
    let mut j: usize = 0;
    while j < v.len()
        invariant
            j <= v@.len(),
            v@ == old(v)@,
            unique_source_names(old(v)@),
            rec == (SourceState { settings, current_power_state: PowerState::Unknown }),
            rec.settings.name@ == name,
            forall|k: int| 0 <= k < j ==> v@[k].settings.name@ != name,
        decreases v@.len() - j,
    {
        if v[j].settings.name == rec.settings.name {
            proof {
                assert(0 <= j < old(v)@.len() && old(v)@[j as int].settings.name@ == name);
                let cj = choose|c: int|
                    0 <= c < old(v)@.len() && old(v)@[c].settings.name@ == name;
                assert(0 <= cj < old(v)@.len() && old(v)@[cj].settings.name@ == name);
                assert(cj == j as int) by {
                    if cj != j as int {
                        assert(old(v)@[cj].settings.name@ != old(v)@[j as int].settings.name@);
                    }
                }
                assert(upsert_source(old(v)@, settings) == old(v)@.update(j as int, rec));
            }
            v[j] = rec;
            proof {
                assert(v@ =~= old(v)@.update(j as int, rec));
                assert forall|a: int, b: int|
                    0 <= a < v@.len() && 0 <= b < v@.len() && a != b implies v@[a].settings.name@
                    != v@[b].settings.name@ by {
                    if a == j as int {
                        assert(v@[b] == old(v)@[b]);
                        assert(old(v)@[b].settings.name@ != old(v)@[j as int].settings.name@);
                    } else if b == j as int {
                        assert(v@[a] == old(v)@[a]);
                        assert(old(v)@[a].settings.name@ != old(v)@[j as int].settings.name@);
                    } else {
                        assert(v@[a] == old(v)@[a] && v@[b] == old(v)@[b]);
                    }
                }
                assert(unique_source_names(v@));
            }
            return;
        }
        j = j + 1;
    }
    proof {
        assert(!(exists|c: int| 0 <= c < old(v)@.len() && old(v)@[c].settings.name@ == name)) by {
            assert(forall|k: int| 0 <= k < old(v)@.len() ==> old(v)@[k].settings.name@ != name);
        }
        assert(upsert_source(old(v)@, settings) == old(v)@.push(rec));
    }
    v.push(rec);
    proof {
        assert forall|a: int, b: int|
            0 <= a < v@.len() && 0 <= b < v@.len() && a != b implies v@[a].settings.name@
            != v@[b].settings.name@ by {
            if a == old(v)@.len() {
                assert(v@[b] == old(v)@[b]);
            } else if b == old(v)@.len() {
                assert(v@[a] == old(v)@[a]);
            } else {
                assert(v@[a] == old(v)@[a] && v@[b] == old(v)@[b]);
            }
        }
        assert(unique_source_names(v@));
    }
}

/// Applies one last-write-wins registration step to a sink registry being
/// built.
#[verifier::loop_isolation(false)]
fn upsert_sink_record(v: &mut Vec<SinkState>, settings: SinkBaseSettings)
    requires
        unique_sink_names(old(v)@),
    ensures
        final(v)@ == upsert_sink(old(v)@, settings),
        unique_sink_names(final(v)@),
{
    let rec = SinkState::new(settings);
    let ghost name = rec.settings.name@;
    let mut j: usize = 0;
    while j < v.len()
        invariant
            j <= v@.len(),
            v@ == old(v)@,
            unique_sink_names(old(v)@),
            rec == (SinkState {
                settings,
                current_power_state: PowerState::Unknown,
                should_turn_on: false,
            }),
            rec.settings.name@ == name,
            forall|k: int| 0 <= k < j ==> v@[k].settings.name@ != name,
        decreases v@.len() - j,
    {
        if v[j].settings.name == rec.settings.name {
            proof {
                assert(0 <= j < old(v)@.len() && old(v)@[j as int].settings.name@ == name);
                let cj = choose|c: int|
                    0 <= c < old(v)@.len() && old(v)@[c].settings.name@ == name;
                assert(0 <= cj < old(v)@.len() && old(v)@[cj].settings.name@ == name);
                assert(cj == j as int) by {
                    if cj != j as int {
                        assert(old(v)@[cj].settings.name@ != old(v)@[j as int].settings.name@);
                    }
                }
                assert(upsert_sink(old(v)@, settings) == old(v)@.update(j as int, rec));
            }
            v[j] = rec;
            proof {
                assert(v@ =~= old(v)@.update(j as int, rec));
                assert forall|a: int, b: int|
                    0 <= a < v@.len() && 0 <= b < v@.len() && a != b implies v@[a].settings.name@
                    != v@[b].settings.name@ by {
                    if a == j as int {
                        assert(v@[b] == old(v)@[b]);
                        assert(old(v)@[b].settings.name@ != old(v)@[j as int].settings.name@);
                    } else if b == j as int {
                        assert(v@[a] == old(v)@[a]);
                        assert(old(v)@[a].settings.name@ != old(v)@[j as int].settings.name@);
                    } else {
                        assert(v@[a] == old(v)@[a] && v@[b] == old(v)@[b]);
                    }
                }
                assert(unique_sink_names(v@));
            }
            return;
        }
        j = j + 1;
    }
    proof {
        assert(!(exists|c: int| 0 <= c < old(v)@.len() && old(v)@[c].settings.name@ == name)) by {
            assert(forall|k: int| 0 <= k < old(v)@.len() ==> old(v)@[k].settings.name@ != name);
        }
        assert(upsert_sink(old(v)@, settings) == old(v)@.push(rec));
    }
    v.push(rec);
    proof {
        assert forall|a: int, b: int|
            0 <= a < v@.len() && 0 <= b < v@.len() && a != b implies v@[a].settings.name@
            != v@[b].settings.name@ by {
            if a == old(v)@.len() {
                assert(v@[b] == old(v)@[b]);
            } else if b == old(v)@.len() {
                assert(v@[a] == old(v)@[a]);
            } else {
                assert(v@[a] == old(v)@[a] && v@[b] == old(v)@[b]);
            }
        }
        assert(unique_sink_names(v@));
    }
}

} // verus!
