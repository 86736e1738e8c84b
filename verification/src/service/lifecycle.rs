//! Idle services are frozen and then hibernated; the decisions of each
//! lifecycle tick and of each poll of a service page.

use vstd::prelude::*;
use super::config::ServiceConfig;
use super::manager::ServiceManager;
use super::state::{ServiceLifecycleState, ServiceRuntimeState};
use crate::text::str_equal;

verus! {

/// `Instant::duration_since`: the time elapsed from `earlier` to `now`
/// (zero if `earlier` is later). Nothing is stated of it: instants are
/// readings of the clock.
#[verifier::external_body]
fn duration_since(now: &std::time::Instant, earlier: &std::time::Instant) -> (d: std::time::Duration) {
    now.duration_since(*earlier)
}

/// `Duration::as_millis`: the whole milliseconds of a duration. Durations
/// are opaque here, so nothing is stated of the number.
#[verifier::external_body]
fn duration_millis(d: &std::time::Duration) -> (ms: u128) {
    d.as_millis()
}

/// Default idle time before a backgrounded service is frozen (5 minutes).
pub const DEFAULT_FREEZE_SECS: u64 = 300;

/// Default idle time before a service is hibernated (15 minutes).
pub const DEFAULT_HIBERNATE_SECS: u64 = 900;

/// Default lifecycle tick cadence in milliseconds (30 s).
pub const DEFAULT_TICK_MS: i64 = 30000;

/// The state an idle service moves to at a tick, if any: a backgrounded
/// service hibernates once idle for `hibernate_secs` or freezes once idle
/// for `freeze_secs`; a frozen one hibernates once idle for
/// `hibernate_secs`; active and hibernated services stay as they are.
pub open spec fn spec_next_state(current: ServiceLifecycleState, idle_ms: int, freeze_secs: int, hibernate_secs: int) -> Option<ServiceLifecycleState> {
    match current {
        ServiceLifecycleState::Backgrounded => if idle_ms >= hibernate_secs * 1000 {
            Some(ServiceLifecycleState::Hibernated)
        } else if idle_ms >= freeze_secs * 1000 {
            Some(ServiceLifecycleState::Frozen)
        } else {
            None
        },
        ServiceLifecycleState::Frozen => if idle_ms >= hibernate_secs * 1000 {
            Some(ServiceLifecycleState::Hibernated)
        } else {
            None
        },
        _ => None,
    }
}

pub fn next_state(current: ServiceLifecycleState, idle_ms: u128, freeze_secs: u64, hibernate_secs: u64)
    -> (r: Option<ServiceLifecycleState>)
    ensures
        r == spec_next_state(current, idle_ms as int, freeze_secs as int, hibernate_secs as int),
{
    let hib = hibernate_secs as u128 * 1000;
    let frz = freeze_secs as u128 * 1000;
    match current {
        ServiceLifecycleState::Backgrounded => if idle_ms >= hib {
            Some(ServiceLifecycleState::Hibernated)
        } else if idle_ms >= frz {
            Some(ServiceLifecycleState::Frozen)
        } else {
            None
        },
        ServiceLifecycleState::Frozen => if idle_ms >= hib {
            Some(ServiceLifecycleState::Hibernated)
        } else {
            None
        },
        _ => None,
    }
}

/// Whether the tick may move a service from `from` to `to` for some idle
/// time.
pub open spec fn is_possible_transition(from: ServiceLifecycleState, to: ServiceLifecycleState, freeze_secs: int,
    hibernate_secs: int) -> bool {
    exists|idle: int| idle >= 0 && #[trigger] spec_next_state(from, idle, freeze_secs, hibernate_secs) == Some(to)
}

/// A service that the tick considers: enabled, allowed to sleep, and not
/// the active one.
pub open spec fn tick_eligible(c: ServiceConfig, active: Option<Seq<char>>) -> bool {
    c.is_enabled && c.is_hibernation_enabled && active != Some(c.id@)
}

/// A transition chosen by a tick: the service and its new state.
pub struct Transition {
    pub service_id: String,
    pub state: ServiceLifecycleState,
}

pub open spec fn transitions_view(t: Seq<Transition>) -> Seq<(Seq<char>, ServiceLifecycleState)> {
    t.map_values(|x: Transition| (x.service_id@, x.state))
}

/// The transitions of a tick over the first `n` configured services, in
/// configuration order, given each service's idle time in ms (`idle[i]` for
/// the `i`-th configuration): every eligible service with runtime state
/// whose idle time calls for a transition (see `spec_next_state`).
pub open spec fn planned(configs: Seq<ServiceConfig>, rts: Map<Seq<char>, ServiceRuntimeState>,
    active: Option<Seq<char>>, idle: Seq<u128>, f: int, h: int, n: nat) -> Seq<(Seq<char>, ServiceLifecycleState)>
    decreases n,
{
    if n == 0 {
        Seq::empty()
    } else {
        let prev = planned(configs, rts, active, idle, f, h, (n - 1) as nat);
        let c = configs[n - 1];
        if tick_eligible(c, active) && rts.contains_key(c.id@) {
            match spec_next_state(rts[c.id@].lifecycle, idle[n - 1] as int, f, h) {
                Some(s) => prev.push((c.id@, s)),
                None => prev,
            }
        } else {
            prev
        }
    }
}

/// The transitions of a tick over all services of `m`.
pub open spec fn spec_plan(m: ServiceManager, active: Option<Seq<char>>, idle: Seq<u128>, f: int, h: int)
    -> Seq<(Seq<char>, ServiceLifecycleState)> {
    planned(m.configs(), m.runtimes(), active, idle, f, h, m.configs().len())
}

/// A transition that a tick may choose: the service is configured and
/// eligible, has runtime state, and moves along a possible transition.
pub open spec fn is_planned_transition(m: ServiceManager, active: Option<Seq<char>>,
    t: (Seq<char>, ServiceLifecycleState), f: int, h: int) -> bool {
    &&& exists|i: int| 0 <= i < m.configs().len() && #[trigger] m.configs()[i].id@ == t.0
        && tick_eligible(m.configs()[i], active)
    &&& m.runtimes().contains_key(t.0)
    &&& is_possible_transition(m.runtimes()[t.0].lifecycle, t.1, f, h)
}

/// Whatever the idle times, every transition a tick plans moves an
/// eligible, known service along a possible transition.
pub proof fn lemma_plan_sound(m: ServiceManager, active: Option<Seq<char>>, idle: Seq<u128>, f: int, h: int, n: nat)
    requires
        n <= m.configs().len(),
    ensures
        forall|k: int| 0 <= k < planned(m.configs(), m.runtimes(), active, idle, f, h, n).len()
            ==> is_planned_transition(m, active, #[trigger] planned(m.configs(), m.runtimes(), active, idle, f, h, n)[k], f, h),
    decreases n,
{
    if n > 0 {
        lemma_plan_sound(m, active, idle, f, h, (n - 1) as nat);
        let prev = planned(m.configs(), m.runtimes(), active, idle, f, h, (n - 1) as nat);
        let c = m.configs()[n - 1];
        if tick_eligible(c, active) && m.runtimes().contains_key(c.id@) {
            let idle_ms = idle[n - 1] as int;
            if let Some(s) = spec_next_state(m.runtimes()[c.id@].lifecycle, idle_ms, f, h) {
                assert(spec_next_state(m.runtimes()[c.id@].lifecycle, idle_ms, f, h) == Some(s));
                assert(is_planned_transition(m, active, (c.id@, s), f, h));
                assert forall|k: int| 0 <= k < prev.push((c.id@, s)).len() implies is_planned_transition(
                    m, active, #[trigger] prev.push((c.id@, s))[k], f, h) by {
                    if k < prev.len() {
                        assert(prev.push((c.id@, s))[k] == prev[k]);
                    }
                }
            }
        }
    }
}

/// A tick never plans a transition for the active service, whatever the
/// idle times.
pub proof fn lemma_tick_spares_active(m: ServiceManager, active: Seq<char>, idle: Seq<u128>, f: int, h: int)
    ensures
        forall|k: int| 0 <= k < spec_plan(m, Some(active), idle, f, h).len()
            ==> (#[trigger] spec_plan(m, Some(active), idle, f, h)[k]).0 != active,
{
    lemma_plan_sound(m, Some(active), idle, f, h, m.configs().len());
    assert forall|k: int| 0 <= k < spec_plan(m, Some(active), idle, f, h).len()
        implies (#[trigger] spec_plan(m, Some(active), idle, f, h)[k]).0 != active by {
        let t = spec_plan(m, Some(active), idle, f, h)[k];
        assert(is_planned_transition(m, Some(active), t, f, h));
        let i = choose|i: int| 0 <= i < m.configs().len() && #[trigger] m.configs()[i].id@ == t.0
            && tick_eligible(m.configs()[i], Some(active));
    }
}

/// The active service id as text.
pub open spec fn active_view(a: Option<&str>) -> Option<Seq<char>> {
    match a {
        Some(x) => Some(x@),
        None => None,
    }
}

/// Manages lifecycle transitions for service browsers.
pub struct LifecycleManager;

impl LifecycleManager {
    /// The transitions of one tick when the `i`-th configured service has
    /// been idle for `idle_ms[i]` ms: exactly `spec_plan`.
    pub fn decide(manager: &ServiceManager, active_id: Option<&str>, idle_ms: &Vec<u128>, freeze_secs: u64,
        hibernate_secs: u64) -> (r: Vec<Transition>)
        requires
            manager.wf(),
            idle_ms@.len() == manager.configs().len(),
        ensures
            transitions_view(r@) == spec_plan(
                *manager,
                active_view(active_id),
                idle_ms@,
                freeze_secs as int,
                hibernate_secs as int,
            ),
    {
        let services = manager.services();
        let mut out: Vec<Transition> = Vec::new();
        let mut i: usize = 0;
        while i < services.len()
            invariant
                i <= services.len(),
                services@ == manager.configs(),
                idle_ms@.len() == services@.len(),
                manager.wf(),
                transitions_view(out@) == planned(manager.configs(), manager.runtimes(), active_view(active_id), idle_ms@,
                    freeze_secs as int, hibernate_secs as int, i as nat),
            decreases services.len() - i,
        {
            let svc = &services[i];
            let is_active = match active_id {
                Some(a) => str_equal(a, svc.id.as_str()),
                None => false,
            };
            let ghost before = out@;
            if svc.is_enabled && svc.is_hibernation_enabled && !is_active {
                if let Some(rt) = manager.get_runtime(svc.id.as_str()) {
                    if let Some(ns) = next_state(rt.lifecycle, idle_ms[i], freeze_secs, hibernate_secs) {
                        out.push(Transition { service_id: svc.id.clone(), state: ns });
                        assert(transitions_view(out@) =~= transitions_view(before).push((svc.id@, ns)));
                    }
                }
            }
            i = i + 1;
        }
        out
    }

    /// The idle time in ms of each configured service at `now` (0 for a
    /// service without runtime state).
    fn idle_times(manager: &ServiceManager, now: std::time::Instant) -> (r: Vec<u128>)
        requires
            manager.wf(),
        ensures
            r@.len() == manager.configs().len(),
    {
        let services = manager.services();
        let mut out: Vec<u128> = Vec::new();
        let mut i: usize = 0;
        while i < services.len()
            invariant
                i <= services.len(),
                services@ == manager.configs(),
                manager.wf(),
                out@.len() == i,
            decreases services.len() - i,
        {
            let idle = match manager.get_runtime(services[i].id.as_str()) {
                Some(rt) => duration_millis(&duration_since(&now, &rt.last_active)),
                None => 0,
            };
            out.push(idle);
            i = i + 1;
        }
        out
    }

    /// Decides the transitions of one tick at time `now`: those of
    /// `spec_plan` for the services' idle times at `now`, which are
    /// readings of the clock and so are left open. Each moves an eligible,
    /// known service along a possible transition.
    pub fn plan(manager: &ServiceManager, active_id: Option<&str>, now: std::time::Instant, freeze_secs: u64,
        hibernate_secs: u64) -> (r: Vec<Transition>)
        requires
            manager.wf(),
        ensures
            exists|idle: Seq<u128>| idle.len() == manager.configs().len() && transitions_view(r@) == #[trigger] spec_plan(
                *manager,
                active_view(active_id),
                idle,
                freeze_secs as int,
                hibernate_secs as int,
            ),
            forall|k: int| 0 <= k < r@.len() ==> is_planned_transition(
                *manager,
                active_view(active_id),
                #[trigger] transitions_view(r@)[k],
                freeze_secs as int,
                hibernate_secs as int,
            ),
    {
        let idle = Self::idle_times(manager, now);
        let r = Self::decide(manager, active_id, &idle, freeze_secs, hibernate_secs);
        proof {
            lemma_plan_sound(*manager, active_view(active_id), idle@, freeze_secs as int, hibernate_secs as int, manager.configs().len());
        }
        r
    }
}

pub open spec fn is_digit(c: char) -> bool {
    '0' <= c && c <= '9'
}

/// The number that a sequence of ASCII digits spells in decimal.
pub open spec fn digits_value(s: Seq<char>) -> int
    decreases s.len(),
{
    if s.len() == 0 {
        0
    } else {
        digits_value(s.drop_last()) * 10 + (s.last() as int - '0' as int)
    }
}

pub open spec fn all_digits(s: Seq<char>) -> bool {
    forall|i: int| 0 <= i < s.len() ==> is_digit(#[trigger] s[i])
}

/// `s` without a leading sign character (`+`, or `-` when `allow_minus`).
pub open spec fn unsigned_part(s: Seq<char>, allow_minus: bool) -> Seq<char> {
    if s.len() > 0 && (s[0] == '+' || (allow_minus && s[0] == '-')) {
        s.drop_first()
    } else {
        s
    }
}

/// `str::parse::<u64>`: an optional `+` and at least one ASCII digit, with
/// a value that fits.
pub open spec fn spec_parse_u64(s: Seq<char>) -> Option<u64> {
    let body = unsigned_part(s, false);
    if body.len() > 0 && all_digits(body) && digits_value(body) <= u64::MAX {
        Some(digits_value(body) as u64)
    } else {
        None
    }
}

/// `str::parse::<i64>`: an optional sign and at least one ASCII digit, with
/// a value that fits.
pub open spec fn spec_parse_i64(s: Seq<char>) -> Option<i64> {
    let neg = s.len() > 0 && s[0] == '-';
    let body = unsigned_part(s, true);
    let v = if neg { -digits_value(body) } else { digits_value(body) };
    if body.len() > 0 && all_digits(body) && i64::MIN <= v && v <= i64::MAX {
        Some(v as i64)
    } else {
        None
    }
}

proof fn lemma_digits_value_grows(s: Seq<char>, k: int)
    requires
        0 <= k <= s.len(),
        all_digits(s),
    ensures
        digits_value(s.take(k)) <= digits_value(s),
        digits_value(s.take(k)) >= 0,
    decreases s.len() - k,
{
    if k < s.len() {
        lemma_digits_value_grows(s, k + 1);
        assert(s.take(k + 1).drop_last() =~= s.take(k));
        lemma_digits_value_grows(s.take(k), k);
        assert(s.take(k).take(k) =~= s.take(k));
    } else {
        assert(s.take(k) =~= s);
        lemma_digits_nonneg(s);
    }
}

proof fn lemma_digits_nonneg(s: Seq<char>)
    requires
        all_digits(s),
    ensures
        digits_value(s) >= 0,
    decreases s.len(),
{
    if s.len() > 0 {
        lemma_digits_nonneg(s.drop_last());
    }
}

/// The value of the digits of `body`, if they are all digits, at least one,
/// and the value is at most `bound`.
fn digits_up_to(body: &Vec<char>, from: usize, bound: u128) -> (r: Option<u128>)
    requires
        from <= body.len(),
        bound <= u64::MAX as u128 + 1,
    ensures
        match r {
            Some(v) => body@.skip(from as int).len() > 0 && all_digits(body@.skip(from as int))
                && v == digits_value(body@.skip(from as int)) && v <= bound,
            None => !(body@.skip(from as int).len() > 0 && all_digits(body@.skip(from as int))
                && digits_value(body@.skip(from as int)) <= bound),
        },
{
    let ghost t = body@.skip(from as int);
    if from == body.len() {
        return None;
    }
    let mut v: u128 = 0;
    let mut i: usize = from;
    assert(t.take(0) =~= Seq::<char>::empty());
    while i < body.len()
        invariant
            from <= i <= body.len(),
            t == body@.skip(from as int),
            all_digits(t.take(i - from)),
            v == digits_value(t.take(i - from)),
            v <= bound,
            bound <= u64::MAX as u128 + 1,
        decreases body.len() - i,
    {
        let c = body[i];
        assert(t[i - from] == c);
        if !('0' <= c && c <= '9') {
            return None;
        }
        assert(t.take(i + 1 - from).drop_last() =~= t.take(i - from));
        let d = (c as u32 - '0' as u32) as u128;
        v = v * 10 + d;
        assert(all_digits(t.take(i + 1 - from)));
        if v > bound {
            proof {
                if all_digits(t) {
                    lemma_digits_value_grows(t, i + 1 - from);
                }
            }
            return None;
        }
        i = i + 1;
    }
    assert(t.take(i - from) =~= t);
    Some(v)
}

/// Parses a decimal `u64` as `str::parse` does.
pub fn parse_u64(s: &str) -> (r: Option<u64>)
    ensures
        r == spec_parse_u64(s@),
{
    let v = crate::text::chars_of(s);
    let from: usize = if v.len() > 0 && v[0] == '+' { 1 } else { 0 };
    assert(v@.skip(from as int) =~= unsigned_part(s@, false));
    match digits_up_to(&v, from, u64::MAX as u128) {
        Some(x) => Some(x as u64),
        None => None,
    }
}

/// Parses a decimal `i64` as `str::parse` does.
pub fn parse_i64(s: &str) -> (r: Option<i64>)
    ensures
        r == spec_parse_i64(s@),
{
    let v = crate::text::chars_of(s);
    let neg = v.len() > 0 && v[0] == '-';
    let from: usize = if v.len() > 0 && (v[0] == '+' || v[0] == '-') { 1 } else { 0 };
    assert(v@.skip(from as int) =~= unsigned_part(s@, true));
    let bound: u128 = if neg { 0x8000_0000_0000_0000 } else { 0x7fff_ffff_ffff_ffff };
    match digits_up_to(&v, from, bound) {
        Some(x) => {
            if neg {
                if x == 0x8000_0000_0000_0000 {
                    Some(i64::MIN)
                } else {
                    Some(-(x as i64))
                }
            } else {
                Some(x as i64)
            }
        },
        None => None,
    }
}

/// An idle threshold in seconds from an optional setting text: the parsed
/// value, or `default` when absent or not a valid `u64`.
pub fn threshold_secs(setting: Option<&str>, default: u64) -> (secs: u64)
    ensures
        secs == match setting {
            Some(t) => match spec_parse_u64(t@) { Some(v) => v, None => default },
            None => default,
        },
{
    match setting {
        Some(t) => match parse_u64(t) {
            Some(v) => v,
            None => default,
        },
        None => default,
    }
}

/// The tick cadence in ms from an optional setting text: the parsed value,
/// or 30 000 when absent or not a valid `i64`.
pub fn tick_interval_ms(setting: Option<&str>) -> (ms: i64)
    ensures
        ms == match setting {
            Some(t) => match spec_parse_i64(t@) { Some(v) => v, None => DEFAULT_TICK_MS },
            None => DEFAULT_TICK_MS,
        },
{
    match setting {
        Some(t) => match parse_i64(t) {
            Some(v) => v,
            None => DEFAULT_TICK_MS,
        },
        None => DEFAULT_TICK_MS,
    }
}

/// What a poll timer does next for a service page.
#[derive(Debug, PartialEq, Eq, Structural)]
pub enum PollStep {
    /// Run the recipe's poll function, then poll again after this many ms.
    PollAndReschedule(i64),
    /// Do not poll now; check again after this many ms.
    Reschedule(i64),
    /// Stop polling this page.
    Stop,
}

/// The poll cadence: active pages every 2 s, backgrounded every 5 s; frozen
/// pages are not polled but rechecked every 10 s; hibernated pages and pages
/// whose browser is gone stop polling.
pub open spec fn spec_poll_step(browser_exists: bool, lifecycle: ServiceLifecycleState) -> PollStep {
    if !browser_exists {
        PollStep::Stop
    } else {
        match lifecycle {
            ServiceLifecycleState::Active => PollStep::PollAndReschedule(2000),
            ServiceLifecycleState::Backgrounded => PollStep::PollAndReschedule(5000),
            ServiceLifecycleState::Frozen => PollStep::Reschedule(10000),
            ServiceLifecycleState::Hibernated => PollStep::Stop,
        }
    }
}

/// The next poll step for a service whose runtime state (if any) is
/// `runtime`; a service without runtime state counts as hibernated.
pub fn poll_step(browser_exists: bool, runtime: Option<&ServiceRuntimeState>) -> (p: PollStep)
    ensures
        p == spec_poll_step(
            browser_exists,
            match runtime { Some(r) => r.lifecycle, None => ServiceLifecycleState::Hibernated },
        ),
{
    let lifecycle = match runtime {
        Some(r) => r.lifecycle,
        None => ServiceLifecycleState::Hibernated,
    };
    if !browser_exists {
        return PollStep::Stop;
    }
    match lifecycle {
        ServiceLifecycleState::Active => PollStep::PollAndReschedule(2000),
        ServiceLifecycleState::Backgrounded => PollStep::PollAndReschedule(5000),
        ServiceLifecycleState::Frozen => PollStep::Reschedule(10000),
        ServiceLifecycleState::Hibernated => PollStep::Stop,
    }
}

/// Ticks only move services forward: active and hibernated services never
/// change, a frozen service can only hibernate, and a backgrounded one can
/// only freeze or hibernate.
pub proof fn lemma_transitions_go_forward(from: ServiceLifecycleState, to: ServiceLifecycleState, f: int, h: int)
    requires
        is_possible_transition(from, to, f, h),
    ensures
        from is Backgrounded ==> (to is Frozen || to is Hibernated),
        from is Frozen ==> to is Hibernated,
        !(from is Active),
        !(from is Hibernated),
{
}

/// Once a service is idle long enough to hibernate, a tick hibernates it
/// whether it was backgrounded or frozen.
pub proof fn lemma_long_idle_hibernates(from: ServiceLifecycleState, idle: int, f: int, h: int)
    requires
        from is Backgrounded || from is Frozen,
        idle >= h * 1000,
    ensures
        spec_next_state(from, idle, f, h) == Some(ServiceLifecycleState::Hibernated),
{
}

} // verus!
