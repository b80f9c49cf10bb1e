//! Whether a carrier's client is being throttled: the upstream delivers, the carrier
//! is backed up, and the client gets little of it, for several windows in a row.

use vstd::prelude::*;

verus! {

/// The settings of the detection. The ratio of the two rates that counts as a throttle
/// is the caller's to compare.
#[derive(Clone, Copy, Debug, PartialEq, Eq, Structural)]
pub struct ThrottleDetectParams {
    pub enabled: bool,
    /// The length of a sampling window.
    pub window_ms: u64,
    /// How many throttled windows in a row make a signal.
    pub sustain_windows: u32,
    /// The rate below which a session is too slow to be judged.
    pub min_in_bytes_per_sec: u64,
    /// The least time between two signals.
    pub signal_cooldown_ms: u64,
}

impl Default for ThrottleDetectParams {
    fn default() -> (params: ThrottleDetectParams)
        ensures
            params == (ThrottleDetectParams {
                enabled: false,
                window_ms: 1000,
                sustain_windows: 5,
                min_in_bytes_per_sec: 1_000_000,
                signal_cooldown_ms: 30_000,
            }),
    {
        ThrottleDetectParams {
            enabled: false,
            window_ms: 1000,
            sustain_windows: 5,
            min_in_bytes_per_sec: 1_000_000,
            signal_cooldown_ms: 30_000,
        }
    }
}

pub open spec fn is_throttled(
    in_rate: u64,
    outruns: bool,
    backlog: bool,
    params: ThrottleDetectParams,
) -> bool {
    params.enabled && in_rate >= params.min_in_bytes_per_sec && backlog && outruns
}

/// The verdict on one window. `outruns` tells that the inbound rate is at least the
/// configured multiple of the outbound rate. Without a backlog a low outbound rate
/// only means that there was nothing to send.
pub fn window_is_throttled(in_rate: u64, outruns: bool, backlog: bool, params: &ThrottleDetectParams) -> (throttled:
    bool)
    ensures
        throttled == is_throttled(in_rate, outruns, backlog, *params),
{
    if !params.enabled {
        return false;
    }
    if in_rate < params.min_in_bytes_per_sec || !backlog {
        return false;
    }
    outruns
}

/// The counters of one carrier.
#[derive(Clone, Copy, Debug, PartialEq, Eq, Structural)]
pub struct ThroughputMonitor {
    pub in_bytes: u64,
    pub out_bytes: u64,
    /// A backlog was seen since the last window.
    pub backlog_seen: bool,
    pub params: ThrottleDetectParams,
}

impl ThroughputMonitor {
    /// Counters at zero.
    pub fn new(params: ThrottleDetectParams) -> (monitor: ThroughputMonitor)
        ensures
            monitor == (ThroughputMonitor {
                in_bytes: 0,
                out_bytes: 0,
                backlog_seen: false,
                params,
            }),
    {
        ThroughputMonitor { in_bytes: 0, out_bytes: 0, backlog_seen: false, params }
    }

    /// Counts bytes read from the upstream.
    pub fn add_inbound(&mut self, n: u64)
        ensures
            *final(self) == (ThroughputMonitor {
                in_bytes: ((old(self).in_bytes + n) % 0x1_0000_0000_0000_0000) as u64,
                ..*old(self)
            }),
    {
        self.in_bytes = self.in_bytes.wrapping_add(n);
    }

    /// Counts bytes handed to the carrier.
    pub fn add_outbound(&mut self, n: u64)
        ensures
            *final(self) == (ThroughputMonitor {
                out_bytes: ((old(self).out_bytes + n) % 0x1_0000_0000_0000_0000) as u64,
                ..*old(self)
            }),
    {
        self.out_bytes = self.out_bytes.wrapping_add(n);
    }

    /// Notes that the carrier is backed up.
    pub fn note_backlog(&mut self)
        ensures
            *final(self) == (ThroughputMonitor { backlog_seen: true, ..*old(self) }),
    {
        self.backlog_seen = true;
    }

    /// Counts a datagram for the client, and notes a backlog where the carrier's queue
    /// is at least half full.
    pub fn note_datagram(&mut self, data_len: usize, used: usize, max: usize)
        ensures
            *final(self) == (ThroughputMonitor {
                in_bytes: ((old(self).in_bytes + data_len) % 0x1_0000_0000_0000_0000) as u64,
                backlog_seen: old(self).backlog_seen || 2 * used >= max,
                ..*old(self)
            }),
    {
        self.add_inbound(data_len as u64);
        if half_full(used, max) {
            self.note_backlog();
        }
    }

    /// The settings.
    pub fn params(&self) -> (params: &ThrottleDetectParams)
        ensures
            *params == self.params,
    {
        &self.params
    }
}

/// Whether a queue is at least half full.
pub fn half_full(used: usize, max: usize) -> (half: bool)
    ensures
        half == (2 * used >= max),
{
    match used.checked_mul(2) {
        Some(doubled) => doubled >= max,
        None => true,
    }
}

// ── The tick ────────────────────────────────────────────────────────────────

/// What the detection remembers from window to window.
#[derive(Clone, Copy, Debug, PartialEq, Eq, Structural)]
pub struct ThrottleTick {
    pub prev_in: u64,
    pub prev_out: u64,
    /// Throttled windows in a row.
    pub sustain: u32,
    /// When the last signal was given.
    pub last_signal_ms: Option<u64>,
}

/// The traffic of one window.
#[derive(Clone, Copy, Debug, PartialEq, Eq, Structural)]
pub struct WindowSample {
    pub in_bytes: u64,
    pub out_bytes: u64,
    pub backlog: bool,
}

pub open spec fn cooled(last_signal_ms: Option<u64>, now_ms: u64, cooldown_ms: u64) -> bool {
    match last_signal_ms {
        None => true,
        Some(last) => if now_ms < last {
            cooldown_ms == 0
        } else {
            now_ms - last >= cooldown_ms
        },
    }
}

/// How many throttled windows in a row there are, with this one.
pub open spec fn sustained(sustain: u32, throttled: bool) -> u32 {
    if !throttled {
        0
    } else if sustain == u32::MAX {
        u32::MAX
    } else {
        (sustain + 1) as u32
    }
}

/// The verdict on one window, and when it was given.
pub struct Verdict {
    pub throttled: bool,
    pub now_ms: u64,
}

/// What the detection makes of a verdict, and whether the client is to be told.
pub open spec fn judged(tick: ThrottleTick, verdict: Verdict, params: ThrottleDetectParams) -> (
    ThrottleTick,
    bool,
) {
    let sustain = sustained(tick.sustain, verdict.throttled);
    if sustain >= params.sustain_windows && cooled(
        tick.last_signal_ms,
        verdict.now_ms,
        params.signal_cooldown_ms,
    ) {
        (ThrottleTick { sustain: 0, last_signal_ms: Some(verdict.now_ms), ..tick }, true)
    } else {
        (ThrottleTick { sustain, ..tick }, false)
    }
}

impl ThrottleTick {
    /// Starts on a carrier's counters as they are.
    pub fn new(monitor: &ThroughputMonitor) -> (tick: ThrottleTick)
        ensures
            tick == (ThrottleTick {
                prev_in: monitor.in_bytes,
                prev_out: monitor.out_bytes,
                sustain: 0,
                last_signal_ms: None,
            }),
    {
        ThrottleTick {
            prev_in: monitor.in_bytes,
            prev_out: monitor.out_bytes,
            sustain: 0,
            last_signal_ms: None,
        }
    }

    /// Takes the traffic since the last window off the counters, and the backlog mark
    /// with it.
    pub fn sample(&mut self, monitor: &mut ThroughputMonitor) -> (window: WindowSample)
        ensures
            *final(monitor) == (ThroughputMonitor { backlog_seen: false, ..*old(monitor) }),
            *final(self) == (ThrottleTick {
                prev_in: old(monitor).in_bytes,
                prev_out: old(monitor).out_bytes,
                ..*old(self)
            }),
            window.in_bytes == if old(monitor).in_bytes >= old(self).prev_in {
                old(monitor).in_bytes - old(self).prev_in
            } else {
                0
            },
            window.out_bytes == if old(monitor).out_bytes >= old(self).prev_out {
                old(monitor).out_bytes - old(self).prev_out
            } else {
                0
            },
            window.backlog == old(monitor).backlog_seen,
    {
        let window = WindowSample {
            in_bytes: monitor.in_bytes.saturating_sub(self.prev_in),
            out_bytes: monitor.out_bytes.saturating_sub(self.prev_out),
            backlog: monitor.backlog_seen,
        };
        monitor.backlog_seen = false;
        self.prev_in = monitor.in_bytes;
        self.prev_out = monitor.out_bytes;
        window
    }

    /// Takes in the verdict on a window; `true` where the client is to be told. A
    /// signal starts the count of windows over and starts the cooldown; a signal that
    /// the cooldown holds back leaves the count as it is.
    pub fn judge(&mut self, throttled: bool, now_ms: u64, params: &ThrottleDetectParams) -> (signal: bool)
        ensures
            (*final(self), signal) == judged(*old(self), Verdict { throttled, now_ms }, *params),
    {
        self.sustain = if throttled { self.sustain.saturating_add(1) } else { 0 };
        if self.sustain < params.sustain_windows {
            return false;
        }
        let cool = match self.last_signal_ms {
            None => true,
            Some(last) => now_ms.saturating_sub(last) >= params.signal_cooldown_ms,
        };
        if cool {
            self.last_signal_ms = Some(now_ms);
            self.sustain = 0;
        }
        cool
    }
}

// ── Laws ────────────────────────────────────────────────────────────────────

/// Nothing is ever signalled where the detection is off.
pub proof fn law_a_disabled_detection_is_silent(
    in_rate: u64,
    outruns: bool,
    backlog: bool,
    params: ThrottleDetectParams,
)
    requires
        !params.enabled,
    ensures
        !is_throttled(in_rate, outruns, backlog, params),
{
}

/// The detection after a run of verdicts.
pub open spec fn tick_run(start: ThrottleTick, params: ThrottleDetectParams, verdicts: Seq<Verdict>) -> ThrottleTick
    decreases verdicts.len(),
{
    if verdicts.len() == 0 {
        start
    } else {
        judged(tick_run(start, params, verdicts.drop_last()), verdicts.last(), params).0
    }
}

/// Whether the verdict at `at` of a run makes a signal.
pub open spec fn signals(start: ThrottleTick, params: ThrottleDetectParams, verdicts: Seq<Verdict>, at: int) -> bool {
    judged(tick_run(start, params, verdicts.take(at)), verdicts[at], params).1
}

/// A detection that has seen nothing yet.
pub open spec fn is_fresh(tick: ThrottleTick) -> bool {
    tick.sustain == 0 && tick.last_signal_ms is None
}

/// The verdicts of a run come one after the other.
pub open spec fn in_time(verdicts: Seq<Verdict>) -> bool {
    forall|i: int, j: int|
        0 <= i <= j < verdicts.len() ==> (#[trigger] verdicts[i]).now_ms <= (#[trigger] verdicts[j]).now_ms
}

proof fn lemma_last_signal(start: ThrottleTick, params: ThrottleDetectParams, verdicts: Seq<Verdict>)
    requires
        is_fresh(start),
        in_time(verdicts),
    ensures
        tick_run(start, params, verdicts).last_signal_ms matches Some(last) ==> verdicts.len() > 0
            && last <= verdicts.last().now_ms,
        forall|i: int|
            0 <= i < verdicts.len() && #[trigger] signals(start, params, verdicts, i) ==> (tick_run(
                start,
                params,
                verdicts,
            ).last_signal_ms matches Some(last) && verdicts[i].now_ms <= last),
    decreases verdicts.len(),
{
    if verdicts.len() > 0 {
        let front = verdicts.drop_last();
        lemma_last_signal(start, params, front);
        assert forall|i: int|
            0 <= i < verdicts.len() && #[trigger] signals(start, params, verdicts, i) implies (tick_run(
            start,
            params,
            verdicts,
        ).last_signal_ms matches Some(last) && verdicts[i].now_ms <= last) by {
            if i < front.len() {
                assert(front.take(i) =~= verdicts.take(i));
                assert(signals(start, params, front, i));
            } else {
                assert(verdicts.take(i) =~= front);
            }
        }
    }
}

/// Two signals are at least the cooldown apart, however the verdicts go.
pub proof fn law_signals_keep_their_distance(
    start: ThrottleTick,
    params: ThrottleDetectParams,
    verdicts: Seq<Verdict>,
    first: int,
    second: int,
)
    requires
        is_fresh(start),
        in_time(verdicts),
        0 <= first < second < verdicts.len(),
        signals(start, params, verdicts, first),
        signals(start, params, verdicts, second),
    ensures
        verdicts[second].now_ms - verdicts[first].now_ms >= params.signal_cooldown_ms,
{
    let before = verdicts.take(second);
    assert(in_time(before)) by {
        assert forall|i: int, j: int| 0 <= i <= j < before.len() implies (#[trigger] before[i]).now_ms
            <= (#[trigger] before[j]).now_ms by {
            assert(before[i] == verdicts[i] && before[j] == verdicts[j]);
        }
    }
    lemma_last_signal(start, params, before);
    assert(before.take(first) =~= verdicts.take(first));
    assert(signals(start, params, before, first));
    assert(before.last() == verdicts[second - 1]);
    assert(verdicts[second - 1].now_ms <= verdicts[second].now_ms);
}

/// The count a run has come to is that of the last windows, which were throttled and
/// made no signal.
proof fn lemma_sustained_windows(start: ThrottleTick, params: ThrottleDetectParams, verdicts: Seq<Verdict>)
    requires
        is_fresh(start),
    ensures
        tick_run(start, params, verdicts).sustain <= verdicts.len(),
        forall|i: int|
            verdicts.len() - tick_run(start, params, verdicts).sustain <= i < verdicts.len()
                ==> (#[trigger] verdicts[i]).throttled && !signals(start, params, verdicts, i),
    decreases verdicts.len(),
{
    if verdicts.len() > 0 {
        let front = verdicts.drop_last();
        lemma_sustained_windows(start, params, front);
        let now = tick_run(start, params, verdicts).sustain;
        assert forall|i: int| verdicts.len() - now <= i < verdicts.len() implies (
        #[trigger] verdicts[i]).throttled && !signals(start, params, verdicts, i) by {
            if i < front.len() {
                assert(front[i] == verdicts[i]);
                assert(front.take(i) =~= verdicts.take(i));
                assert(front.len() - tick_run(start, params, front).sustain <= i);
            } else {
                assert(verdicts.take(i) =~= front);
            }
        }
    }
}

/// A signal needs as many throttled windows in a row as the settings say, none of which
/// made a signal before.
pub proof fn law_a_signal_needs_a_sustained_throttle(
    start: ThrottleTick,
    params: ThrottleDetectParams,
    verdicts: Seq<Verdict>,
    at: int,
    window: int,
)
    requires
        is_fresh(start),
        0 <= at < verdicts.len(),
        signals(start, params, verdicts, at),
        at - params.sustain_windows < window <= at,
    ensures
        at + 1 >= params.sustain_windows,
        window >= 0,
        verdicts[window].throttled,
        window < at ==> !signals(start, params, verdicts, window),
{
    let before = verdicts.take(at);
    lemma_sustained_windows(start, params, before);
    if window < at {
        assert(before[window] == verdicts[window]);
        assert(before.take(window) =~= verdicts.take(window));
    }
}

// ── What detecting a throttle is for ────────────────────────────────────────

/// A window is throttled exactly where the detection is on, enough comes in, it outruns
/// what goes out, and the carrier is backed up: none of them alone is a throttle.
pub proof fn law_a_throttled_window_has_every_sign(
    in_rate: u64,
    outruns: bool,
    backlog: bool,
    params: ThrottleDetectParams,
)
    ensures
        is_throttled(in_rate, outruns, backlog, params) <==> {
            &&& params.enabled
            &&& in_rate >= params.min_in_bytes_per_sec
            &&& backlog
            &&& outruns
        },
{
}

/// A client whose throttle lasts is told, as soon as it has lasted long enough and the
/// last word is long enough ago; and is told only then. A word starts the count over and
/// is remembered; without one, a throttled window adds one to the count, any other sets
/// it back.
pub proof fn law_a_lasting_throttle_is_signalled(
    tick: ThrottleTick,
    throttled: bool,
    now_ms: u64,
    params: ThrottleDetectParams,
)
    requires
        tick.sustain < u32::MAX,
        tick.last_signal_ms matches Some(last) ==> last <= now_ms,
    ensures
        ({
            let (next, signal) = judged(tick, Verdict { throttled, now_ms }, params);
            let count = if throttled {
                tick.sustain + 1
            } else {
                0
            };
            let rested = tick.last_signal_ms is None || now_ms - tick.last_signal_ms->0
                >= params.signal_cooldown_ms;
            &&& signal <==> count >= params.sustain_windows && rested
            &&& signal ==> next.sustain == 0 && next.last_signal_ms == Some(now_ms)
            &&& !signal ==> next.sustain == count && next.last_signal_ms == tick.last_signal_ms
            &&& next.prev_in == tick.prev_in && next.prev_out == tick.prev_out
        }),
{
}

/// A count that cannot grow stays, and a clock that went back rests nobody unless there
/// is no rest to keep.
pub proof fn law_a_count_stays_at_its_limit(tick: ThrottleTick, now_ms: u64, params: ThrottleDetectParams)
    ensures
        ({
            let (next, signal) = judged(tick, Verdict { throttled: true, now_ms }, params);
            &&& tick.sustain == u32::MAX && !signal ==> next.sustain == u32::MAX
            &&& (tick.last_signal_ms matches Some(last) && now_ms < last) && signal
                ==> params.signal_cooldown_ms == 0
        }),
{
}

} // verus!
