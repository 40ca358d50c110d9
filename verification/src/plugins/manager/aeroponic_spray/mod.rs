//! The aeroponic sprayer: sprays for a fixed time at a fixed interval.
//!
//! Times are Unix timestamps in nanoseconds, durations are milliseconds. At each
//! tick the watcher either ends a running spray (scheduling the next one an
//! interval later) or starts a spray once its scheduled time has come.
pub mod action;
pub mod discovery;

use vstd::prelude::*;
use crate::constants::{mqtt_prefix, project};
use crate::helper::{signed_decimal_spec, signed_decimal_string};
use crate::newtype::AtomicFixedString;
use crate::plugins::mqtt::Qos;
use crate::plugins::mqtt::add_on::action_message::{MessageImpl, Route};
use crate::plugins::state_file::SaveState;
use super::relay_module::action::{Update as RelayUpdate, empty_update};
use crate::plugins::mqtt::add_on::action_message::{has_prefix, lemma_prefixes_distinct, lemma_prefixes_separate, lemma_topic_has_prefix, message_topic, same_place};

verus! {

/// The latest instant a timestamp can stand for: 9999-12-31 23:59:59.999999999 UTC,
/// in Unix nanoseconds. Adding a duration past it panics.
pub const MAX_UNIX_NANOS: i128 = 253_402_300_799_999_999_999;

/// The earliest instant a timestamp can stand for: -9999-01-01 00:00:00 UTC, in
/// Unix nanoseconds.
pub const MIN_UNIX_NANOS: i128 = -377_705_116_800_000_000_000;

/// Nanoseconds in a millisecond.
pub const NANOS_PER_MS: i128 = 1_000_000;

/// How long a spray lasts and how long the pause after it is.
#[derive(Debug, Clone, Copy, PartialEq, Eq, Structural)]
pub struct Config {
    pub spray_duration_ms: u64,
    pub spray_interval_ms: u64,
}

impl Default for Config {
    /// Three seconds of spraying every five minutes.
    fn default() -> (r: Self)
        ensures
            r.spray_duration_ms == 3000,
            r.spray_interval_ms == 300_000,
    {
        Config { spray_duration_ms: 3000, spray_interval_ms: 5 * 60 * 1000 }
    }
}

impl MessageImpl for Config {
    open spec fn spec_route() -> Route {
        Route {
            prefix: mqtt_prefix::CONFIG,
            project: project::NAME,
            group: action::GROUP,
            device: project::DEVICE,
            qos: Qos::_1,
        }
    }

    fn route() -> (r: Route) {
        Route {
            prefix: mqtt_prefix::CONFIG,
            project: project::NAME,
            group: action::GROUP,
            device: project::DEVICE,
            qos: Qos::_1,
        }
    }
}

/// The sprayer's state.
#[derive(Debug, Clone, Copy, PartialEq, Eq, Structural)]
pub struct Manager {
    pub sprayer_state: bool,
    pub next_spray_time: i128,
    pub spray_duration_ms: u64,
    pub spray_interval_ms: u64,
}

/// What a tick of the watcher did.
#[derive(Debug, Clone, Copy, PartialEq, Eq, Structural)]
pub enum WatchEvent {
    /// Nothing.
    Idle,
    /// The spray ended; the next one is due at the given time.
    Stopped { next_spray_time: i128 },
    /// A spray began and runs until the given time.
    Started { until: i128 },
}

/// A timestamp later by a number of milliseconds.
pub open spec fn after_ms(t: int, ms: u64) -> int {
    t + ms * 1_000_000
}

/// Whether the watcher can take a tick at `now` without overflowing a timestamp.
pub open spec fn tick_in_range(m: Manager, end: Option<i128>, now: i128) -> bool {
    &&& (end matches Some(e) && e <= now) ==> after_ms(now as int, m.spray_interval_ms) <= MAX_UNIX_NANOS
    &&& (end is None && m.next_spray_time <= now) ==> after_ms(now as int, m.spray_duration_ms) <= MAX_UNIX_NANOS
}

/// The manager and end time after a tick of the watcher at `now`, with what it did.
pub open spec fn watch_spec(m: Manager, end: Option<i128>, now: i128) -> (Manager, Option<i128>, WatchEvent) {
    match end {
        Some(e) => if e <= now {
            let next = after_ms(now as int, m.spray_interval_ms) as i128;
            (Manager { sprayer_state: false, next_spray_time: next, ..m }, None, WatchEvent::Stopped { next_spray_time: next })
        } else {
            (m, end, WatchEvent::Idle)
        },
        None => if m.next_spray_time <= now {
            let until = after_ms(now as int, m.spray_duration_ms) as i128;
            (Manager { sprayer_state: true, ..m }, Some(until), WatchEvent::Started { until })
        } else {
            (m, end, WatchEvent::Idle)
        },
    }
}

/// The Unix time in whole seconds of a nanosecond timestamp, rounded down.
pub open spec fn unix_seconds(t: int) -> int {
    t / 1_000_000_000
}

/// The relay request that follows a change of the sprayer: relay 2 takes the
/// sprayer's state, the other relays are left alone.
pub open spec fn relay_request_spec(sprayer_state: bool) -> RelayUpdate {
    RelayUpdate { relay_2: Some(sprayer_state), ..empty_update() }
}

impl Manager {
    /// A sprayer that is off, with its first spray due at `now`.
    pub fn new(config: Config, now: i128) -> (r: Self)
        ensures
            r == (Manager {
                sprayer_state: false,
                next_spray_time: now,
                spray_duration_ms: config.spray_duration_ms,
                spray_interval_ms: config.spray_interval_ms,
            }),
    {
        Manager {
            sprayer_state: false,
            next_spray_time: now,
            spray_duration_ms: config.spray_duration_ms,
            spray_interval_ms: config.spray_interval_ms,
        }
    }

    pub fn turn_on(&mut self)
        ensures
            *final(self) == (Manager { sprayer_state: true, ..*old(self) }),
    {
        self.sprayer_state = true;
    }

    pub fn turn_off(&mut self)
        ensures
            *final(self) == (Manager { sprayer_state: false, ..*old(self) }),
    {
        self.sprayer_state = false;
    }

    /// One tick of the watcher at `now`; `end` is the end of the running spray.
    pub fn watcher(&mut self, end: &mut Option<i128>, now: i128) -> (r: WatchEvent)
        requires
            tick_in_range(*old(self), *old(end), now),
        ensures
            (*final(self), *final(end), r) == watch_spec(*old(self), *old(end), now),
    {
        match *end {
            Some(end_time) => {
                if end_time <= now {
                    self.turn_off();
                    *end = None;
                    let next = now + self.spray_interval_ms as i128 * NANOS_PER_MS;
                    self.next_spray_time = next;
                    return WatchEvent::Stopped { next_spray_time: next };
                }
                WatchEvent::Idle
            },
            None => {
                if self.next_spray_time <= now {
                    let until = now + self.spray_duration_ms as i128 * NANOS_PER_MS;
                    self.turn_on();
                    *end = Some(until);
                    return WatchEvent::Started { until };
                }
                WatchEvent::Idle
            },
        }
    }

    /// The request sent to the relay board when the sprayer has changed.
    pub fn relay_request(&self) -> (r: RelayUpdate)
        ensures
            r == relay_request_spec(self.sprayer_state),
    {
        RelayUpdate { relay_2: Some(self.sprayer_state), ..RelayUpdate::empty() }
    }

    /// The status report of the sprayer.
    pub fn get_status(&self) -> (r: action::AeroponicSprayerStatus)
        requires
            MIN_UNIX_NANOS <= self.next_spray_time <= MAX_UNIX_NANOS,
        ensures
            r.sprayer_state == self.sprayer_state,
            r.next_spray_time@ == signed_decimal_spec(unix_seconds(self.next_spray_time as int)),
    {
        let secs = unix_timestamp(self.next_spray_time);
        action::AeroponicSprayerStatus {
            sprayer_state: self.sprayer_state,
            next_spray_time: AtomicFixedString::from_string(signed_decimal_string(secs)),
        }
    }
}

/// The Unix time in whole seconds of a nanosecond timestamp, rounded down.
pub fn unix_timestamp(t: i128) -> (r: i64)
    requires
        MIN_UNIX_NANOS <= t <= MAX_UNIX_NANOS,
    ensures
        r == unix_seconds(t as int),
{
    if t >= 0 {
        (t / 1_000_000_000) as i64
    } else {
        let q = (-t - 1) / 1_000_000_000;
        assert(t / 1_000_000_000 == -q - 1) by (nonlinear_arith)
            requires
                t < 0,
                q == (-t - 1) / 1_000_000_000,
        ;
        (-q - 1) as i64
    }
}

/// The manager rebuilt from a loaded state on top of the running one: the
/// spraying state and the next spray time come from the file, the timings from
/// the running manager when there is one.
pub open spec fn build_spec(state: Manager, this: Option<Manager>) -> Manager {
    match this {
        Some(t) => Manager {
            sprayer_state: state.sprayer_state,
            next_spray_time: state.next_spray_time,
            spray_duration_ms: t.spray_duration_ms,
            spray_interval_ms: t.spray_interval_ms,
        },
        None => state,
    }
}

impl SaveState for Manager {
    type State = Manager;

    fn filename() -> (r: &'static str)
        ensures
            r@ == "aeroponic_spray_manager"@,
    {
        "aeroponic_spray_manager"
    }

    /// Takes the spraying state and the next spray time from the loaded state,
    /// and the timings from the running manager when there is one.
    fn build(state: Manager, this: Option<Manager>) -> (r: Manager)
        ensures
            r == build_spec(state, this),
    {
        match this {
            Some(this) => Manager {
                sprayer_state: state.sprayer_state,
                next_spray_time: state.next_spray_time,
                spray_duration_ms: this.spray_duration_ms,
                spray_interval_ms: this.spray_interval_ms,
            },
            None => state,
        }
    }

    /// A copy of the manager.
    fn save(&self) -> (r: Manager)
        ensures
            r == *self,
    {
        *self
    }
}

/// The sprayer runs exactly while a spray is timed: if it is on precisely when
/// an end time is set before a tick, the same holds after the tick. A tick never
/// changes the spray duration or the interval.
pub proof fn lemma_watch_keeps_running_iff_timed(m: Manager, end: Option<i128>, now: i128)
    requires
        m.sprayer_state <==> end is Some,
    ensures
        watch_spec(m, end, now).0.sprayer_state <==> watch_spec(m, end, now).1 is Some,
        watch_spec(m, end, now).0.spray_duration_ms == m.spray_duration_ms,
        watch_spec(m, end, now).0.spray_interval_ms == m.spray_interval_ms,
{
}

/// The manager and end time after ticks of the watcher at the given times, in
/// order.
pub open spec fn watch_ticks(m: Manager, end: Option<i128>, ticks: Seq<i128>) -> (Manager, Option<i128>)
    decreases ticks.len(),
{
    if ticks.len() == 0 {
        (m, end)
    } else {
        let (m1, end1, _) = watch_spec(m, end, ticks[0]);
        watch_ticks(m1, end1, ticks.drop_first())
    }
}

/// Over any run of ticks, starting where the sprayer is on exactly while a spray
/// is timed (as a new manager, off with no spray timed), this stays so, and the spray duration and
/// interval keep their first values.
pub proof fn lemma_watch_run_invariant(m: Manager, end: Option<i128>, ticks: Seq<i128>)
    requires
        m.sprayer_state <==> end is Some,
    ensures
        watch_ticks(m, end, ticks).0.sprayer_state <==> watch_ticks(m, end, ticks).1 is Some,
        watch_ticks(m, end, ticks).0.spray_duration_ms == m.spray_duration_ms,
        watch_ticks(m, end, ticks).0.spray_interval_ms == m.spray_interval_ms,
    decreases ticks.len(),
{
    if ticks.len() > 0 {
        lemma_watch_keeps_running_iff_timed(m, end, ticks[0]);
        let (m1, end1, _) = watch_spec(m, end, ticks[0]);
        lemma_watch_run_invariant(m1, end1, ticks.drop_first());
    }
}

/// A spray that ends schedules the next one a full interval later, and a spray
/// that starts is timed to end a full spray duration later.
pub proof fn lemma_watch_timing(m: Manager, end: Option<i128>, now: i128)
    requires
        tick_in_range(m, end, now),
    ensures
        watch_spec(m, end, now).2 matches WatchEvent::Stopped { next_spray_time } ==> next_spray_time
            == now + m.spray_interval_ms * 1_000_000 && next_spray_time >= now,
        watch_spec(m, end, now).2 matches WatchEvent::Started { until } ==> until == now
            + m.spray_duration_ms * 1_000_000 && watch_spec(m, end, now).1 == Some(until),
        watch_spec(m, end, now).2 == WatchEvent::Idle ==> watch_spec(m, end, now).0 == m
            && watch_spec(m, end, now).1 == end,
{
}

/// A spray never starts before its scheduled time, and never stops before its
/// end time.
pub proof fn lemma_watch_respects_schedule(m: Manager, end: Option<i128>, now: i128)
    requires
        tick_in_range(m, end, now),
    ensures
        watch_spec(m, end, now).2 is Started ==> end is None && m.next_spray_time <= now,
        watch_spec(m, end, now).2 is Stopped ==> (end matches Some(e) && e <= now),
{
}

/// A spray that is due starts, however late the tick: with no spray running
/// and the scheduled time reached, the sprayer turns on and runs for the spray
/// duration from now. A running spray whose end has come stops, however late,
/// and the next spray is scheduled an interval from now. Otherwise nothing
/// changes.
pub proof fn lemma_watch_acts_when_due(m: Manager, end: Option<i128>, now: i128)
    requires
        tick_in_range(m, end, now),
    ensures
        end is None && m.next_spray_time <= now ==> {
            &&& watch_spec(m, end, now).2 == WatchEvent::Started { until: (now + m.spray_duration_ms * 1_000_000) as i128 }
            &&& watch_spec(m, end, now).0.sprayer_state
            &&& watch_spec(m, end, now).1 == Some((now + m.spray_duration_ms * 1_000_000) as i128)
            &&& watch_spec(m, end, now).0.next_spray_time == m.next_spray_time
        },
        (end matches Some(e) && e <= now) ==> {
            &&& watch_spec(m, end, now).2 == WatchEvent::Stopped { next_spray_time: (now + m.spray_interval_ms * 1_000_000) as i128 }
            &&& !watch_spec(m, end, now).0.sprayer_state
            &&& watch_spec(m, end, now).1 is None
            &&& watch_spec(m, end, now).0.next_spray_time == now + m.spray_interval_ms * 1_000_000
        },
        !(end is None && m.next_spray_time <= now) && !(end matches Some(e) && e <= now) ==> {
            &&& watch_spec(m, end, now).2 == WatchEvent::Idle
            &&& watch_spec(m, end, now).0 == m
            &&& watch_spec(m, end, now).1 == end
        },
{
}

/// A manager's saved state, loaded back on top of the same manager or alone,
/// gives the manager again.
pub proof fn lemma_save_build_round_trip(m: Manager)
    ensures
        build_spec(m, Some(m)) == m,
        build_spec(m, None) == m,
{
}

/// Loading a state keeps the running manager's timings.
pub proof fn lemma_build_keeps_timings(state: Manager, running: Manager)
    ensures
        build_spec(state, Some(running)).spray_duration_ms == running.spray_duration_ms,
        build_spec(state, Some(running)).spray_interval_ms == running.spray_interval_ms,
{
}

/// The sprayer's status is routed under `status/` and its configuration under
/// `config/`, both for the sprayer's group and device; so the two topics differ.
pub proof fn lemma_routes()
    ensures
        has_prefix(message_topic::<action::AeroponicSprayerStatus>(), mqtt_prefix::STATUS@ + seq!['/']),
        has_prefix(message_topic::<Config>(), mqtt_prefix::CONFIG@ + seq!['/']),
        action::AeroponicSprayerStatus::spec_route().group@ == action::GROUP@,
        same_place(Config::spec_route(), action::AeroponicSprayerStatus::spec_route()),
        message_topic::<Config>() != message_topic::<action::AeroponicSprayerStatus>(),
{
    lemma_prefixes_distinct();
    lemma_topic_has_prefix(Config::spec_route());
    lemma_topic_has_prefix(action::AeroponicSprayerStatus::spec_route());
    lemma_prefixes_separate(message_topic::<Config>(), message_topic::<action::AeroponicSprayerStatus>(), mqtt_prefix::CONFIG@, mqtt_prefix::STATUS@);
}

} // verus!
