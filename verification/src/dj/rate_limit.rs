//! Rate limiting of song related packets, so that anti-cheat plugins stay calm.
//!
//! Time is measured in milliseconds of a monotonic clock that starts when the
//! limiter is created.

use vstd::prelude::*;
use crate::clock::{instant_now, elapsed_millis};

verus! {

/// `a + b`, saturating at `u64::MAX`.
pub open spec fn sat_add(a: u64, b: u64) -> u64 {
    if a + b > u64::MAX { u64::MAX } else { (a + b) as u64 }
}

/// The larger of a previous deadline (if any) and a new one.
pub open spec fn extend(old: Option<u64>, new: u64) -> Option<u64> {
    match old {
        Some(o) => Some(if o >= new { o } else { new }),
        None => Some(new),
    }
}

/// Most cosmetic packets allowed per 100 ms window.
pub open spec fn max_cosmetic() -> u32 {
    20
}

/// Most packets allowed per 100 ms window.
pub open spec fn max_packets() -> u32 {
    25
}

/// What a rate limiter remembers (times in clock milliseconds).
pub struct RateLimiterView {
    pub window_start: Option<u64>,
    pub window_packets: u32,
    pub reduce_until: Option<u64>,
    pub stop_until: Option<u64>,
    pub last_look_at: Option<u64>,
    pub last_swing_at: Option<u64>,
}

/// Limits how many song packets are sent in each 100 ms window.
#[derive(Debug)]
pub struct SongRateLimiter {
    clock: std::time::Instant,
    last_100_ms_span_at: Option<u64>,
    last_100_ms_span_estimated_packets: u32,
    reduce_packets_until: Option<u64>,
    stop_packets_until: Option<u64>,
    last_look_sent_at: Option<u64>,
    last_swing_sent_at: Option<u64>,
}

impl View for SongRateLimiter {
    type V = RateLimiterView;

    closed spec fn view(&self) -> RateLimiterView {
        RateLimiterView {
            window_start: self.last_100_ms_span_at,
            window_packets: self.last_100_ms_span_estimated_packets,
            reduce_until: self.reduce_packets_until,
            stop_until: self.stop_packets_until,
            last_look_at: self.last_look_sent_at,
            last_swing_at: self.last_swing_sent_at,
        }
    }
}

/// The state of a limiter that has sent nothing.
pub open spec fn fresh_limiter() -> RateLimiterView {
    RateLimiterView {
        window_start: None,
        window_packets: 0,
        reduce_until: None,
        stop_until: None,
        last_look_at: None,
        last_swing_at: None,
    }
}

/// State after a tick at `now`: a new window starts when none has or 100 ms passed.
pub open spec fn spec_tick(s: RateLimiterView, now: u64) -> RateLimiterView {
    let new_window = match s.window_start {
        Some(start) => now >= start && now - start >= 100,
        None => true,
    };
    if new_window {
        RateLimiterView { window_start: Some(now), window_packets: 0, ..s }
    } else {
        s
    }
}

/// State after checking the limits at `now`: at 20 packets in the window cosmetic
/// packets pause for 500 ms; at 25 all packets pause for 250 ms and cosmetic ones for 10 s.
pub open spec fn spec_check_limits(s: RateLimiterView, now: u64) -> RateLimiterView {
    let s1 = if s.window_packets >= max_cosmetic() {
        RateLimiterView { reduce_until: extend(s.reduce_until, sat_add(now, 500)), ..s }
    } else {
        s
    };
    if s1.window_packets >= max_packets() {
        RateLimiterView {
            stop_until: extend(s1.stop_until, sat_add(now, 250)),
            reduce_until: extend(s1.reduce_until, sat_add(now, 10000)),
            ..s1
        }
    } else {
        s1
    }
}

/// State after a packet was sent at `now`.
pub open spec fn spec_packet_sent(s: RateLimiterView, now: u64) -> RateLimiterView {
    spec_check_limits(RateLimiterView { window_packets: (s.window_packets + 1) as u32, ..s }, now)
}

/// State after a look packet was sent at `now`.
pub open spec fn spec_look_sent(s: RateLimiterView, now: u64) -> RateLimiterView {
    spec_packet_sent(RateLimiterView { last_look_at: Some(now), ..s }, now)
}

/// State after a swing packet was sent at `now`.
pub open spec fn spec_swing_sent(s: RateLimiterView, now: u64) -> RateLimiterView {
    spec_packet_sent(RateLimiterView { last_swing_at: Some(now), ..s }, now)
}

/// Whether a look packet may be sent at `now` (at most one per 100 ms).
pub open spec fn spec_can_send_look(s: RateLimiterView, now: u64) -> bool {
    !within(s.last_look_at, now, 100) && spec_can_send_cosmetic(s, now)
}

/// Whether a swing packet may be sent at `now` (at most one per 150 ms).
pub open spec fn spec_can_send_swing(s: RateLimiterView, now: u64) -> bool {
    !within(s.last_swing_at, now, 150) && spec_can_send_cosmetic(s, now)
}

/// Whether a cosmetic packet may be sent at `now`.
pub open spec fn spec_can_send_cosmetic(s: RateLimiterView, now: u64) -> bool {
    match s.reduce_until {
        Some(until) if until >= now => false,
        _ => s.window_packets < max_cosmetic(),
    }
}

/// Whether a packet may be sent at `now` (the window cap here is the cosmetic one).
pub open spec fn spec_can_send(s: RateLimiterView, now: u64) -> bool {
    match s.stop_until {
        Some(until) if until >= now => false,
        _ => s.window_packets < max_cosmetic(),
    }
}

/// Whether less than `gap` milliseconds passed since `at` (a clock running
/// backwards counts as no time passed).
pub open spec fn within(at: Option<u64>, now: u64, gap: u64) -> bool {
    match at {
        Some(t) => !(now >= t && now - t >= gap),
        None => false,
    }
}

impl Default for SongRateLimiter {
    fn default() -> (r: SongRateLimiter)
        ensures
            r@ == fresh_limiter(),
    {
        SongRateLimiter::new()
    }
}

impl SongRateLimiter {
    /// A limiter that has sent nothing, with its clock starting now.
    pub fn new() -> (r: SongRateLimiter)
        ensures
            r@ == fresh_limiter(),
    {
        SongRateLimiter {
            clock: instant_now(),
            last_100_ms_span_at: None,
            last_100_ms_span_estimated_packets: 0,
            reduce_packets_until: None,
            stop_packets_until: None,
            last_look_sent_at: None,
            last_swing_sent_at: None,
        }
    }

    /// Milliseconds on this limiter's clock.
    pub fn now_millis(&self) -> u64 {
        elapsed_millis(&self.clock)
    }

    /// Forgets all sent packets and pauses.
    pub fn reset(&mut self)
        ensures
            final(self)@ == fresh_limiter(),
    {
        self.last_100_ms_span_at = None;
        self.last_100_ms_span_estimated_packets = 0;
        self.reduce_packets_until = None;
        self.stop_packets_until = None;
        self.last_look_sent_at = None;
        self.last_swing_sent_at = None;
    }

    /// Most cosmetic packets per 100 ms window.
    pub fn max_cosmetic_packets_per_100_ms() -> (r: u32)
        ensures
            r == max_cosmetic(),
    {
        200 / 10
    }

    /// Most packets per 100 ms window.
    pub fn max_packets_per_100_ms() -> (r: u32)
        ensures
            r == max_packets(),
    {
        250 / 10
    }

    /// Packets counted in the current window.
    pub fn estimated_packets(&self) -> (r: u32)
        ensures
            r == self@.window_packets,
    {
        self.last_100_ms_span_estimated_packets
    }

    /// Starts a new window at `now` if due.
    pub fn tick_at(&mut self, now: u64)
        ensures
            final(self)@ == spec_tick(old(self)@, now),
    {
        let new_window = match self.last_100_ms_span_at {
            Some(start) => now >= start && now - start >= 100,
            None => true,
        };
        if new_window {
            self.last_100_ms_span_estimated_packets = 0;
            self.last_100_ms_span_at = Some(now);
        }
    }

    /// Starts a new window if due (run before a batch of checks).
    pub fn tick(&mut self)
        ensures
            exists|now: u64| final(self)@ == #[trigger] spec_tick(old(self)@, now),
    {
        let now = self.now_millis();
        self.tick_at(now);
    }

    /// Applies the pauses that the packet count calls for at `now`.
    pub fn check_limits_at(&mut self, now: u64)
        ensures
            final(self)@ == spec_check_limits(old(self)@, now),
    {
        if self.last_100_ms_span_estimated_packets >= Self::max_cosmetic_packets_per_100_ms() {
            let new_reduce_until = now.saturating_add(500);
            self.reduce_packets_until = Some(match self.reduce_packets_until {
                Some(old) => if old >= new_reduce_until { old } else { new_reduce_until },
                None => new_reduce_until,
            });
        }
        if self.last_100_ms_span_estimated_packets >= Self::max_packets_per_100_ms() {
            let new_stop_until = now.saturating_add(250);
            self.stop_packets_until = Some(match self.stop_packets_until {
                Some(old) => if old >= new_stop_until { old } else { new_stop_until },
                None => new_stop_until,
            });
            let new_reduce_until = now.saturating_add(10000);
            self.reduce_packets_until = Some(match self.reduce_packets_until {
                Some(old) => if old >= new_reduce_until { old } else { new_reduce_until },
                None => new_reduce_until,
            });
        }
    }

    /// Applies the pauses that the packet count calls for.
    pub fn check_limits(&mut self)
        ensures
            exists|now: u64| final(self)@ == #[trigger] spec_check_limits(old(self)@, now),
    {
        let now = self.now_millis();
        self.check_limits_at(now);
    }

    /// Counts a sent packet at `now`.
    pub fn on_packet_sent_at(&mut self, now: u64)
        requires
            old(self)@.window_packets < u32::MAX,
        ensures
            final(self)@ == spec_packet_sent(old(self)@, now),
    {
        self.last_100_ms_span_estimated_packets = self.last_100_ms_span_estimated_packets + 1;
        self.check_limits_at(now);
    }

    /// Counts a sent packet.
    pub fn on_packet_sent(&mut self)
        requires
            old(self)@.window_packets < u32::MAX,
        ensures
            exists|now: u64| final(self)@ == #[trigger] spec_packet_sent(old(self)@, now),
    {
        let now = self.now_millis();
        self.on_packet_sent_at(now);
    }

    /// Counts a sent look packet at `now`.
    pub fn on_look_packet_sent_at(&mut self, now: u64)
        requires
            old(self)@.window_packets < u32::MAX,
        ensures
            final(self)@ == spec_look_sent(old(self)@, now),
    {
        self.last_look_sent_at = Some(now);
        self.on_packet_sent_at(now);
    }

    /// Counts a sent look packet.
    pub fn on_look_packet_sent(&mut self)
        requires
            old(self)@.window_packets < u32::MAX,
        ensures
            exists|now: u64| final(self)@ == #[trigger] spec_look_sent(old(self)@, now),
    {
        let now = self.now_millis();
        self.on_look_packet_sent_at(now);
    }

    /// Counts a sent swing packet at `now`.
    pub fn on_swing_packet_sent_at(&mut self, now: u64)
        requires
            old(self)@.window_packets < u32::MAX,
        ensures
            final(self)@ == spec_swing_sent(old(self)@, now),
    {
        self.last_swing_sent_at = Some(now);
        self.on_packet_sent_at(now);
    }

    /// Counts a sent swing packet.
    pub fn on_swing_packet_sent(&mut self)
        requires
            old(self)@.window_packets < u32::MAX,
        ensures
            exists|now: u64| final(self)@ == #[trigger] spec_swing_sent(old(self)@, now),
    {
        let now = self.now_millis();
        self.on_swing_packet_sent_at(now);
    }

    /// Whether a cosmetic packet may be sent at `now`.
    pub fn can_send_cosmetic_packet_at(&self, now: u64) -> (r: bool)
        ensures
            r == spec_can_send_cosmetic(self@, now),
    {
        match self.reduce_packets_until {
            Some(until) if until >= now => false,
            _ => self.last_100_ms_span_estimated_packets < Self::max_cosmetic_packets_per_100_ms(),
        }
    }

    /// Whether a cosmetic packet may be sent now.
    pub fn can_send_cosmetic_packet(&self) -> (r: bool)
        ensures
            exists|now: u64| r == #[trigger] spec_can_send_cosmetic(self@, now),
    {
        self.can_send_cosmetic_packet_at(self.now_millis())
    }

    /// Whether a packet may be sent at `now`.
    pub fn can_send_packet_at(&self, now: u64) -> (r: bool)
        ensures
            r == spec_can_send(self@, now),
    {
        match self.stop_packets_until {
            Some(until) if until >= now => false,
            _ => self.last_100_ms_span_estimated_packets < Self::max_cosmetic_packets_per_100_ms(),
        }
    }

    /// Whether a packet may be sent now.
    pub fn can_send_packet(&self) -> (r: bool)
        ensures
            exists|now: u64| r == #[trigger] spec_can_send(self@, now),
    {
        self.can_send_packet_at(self.now_millis())
    }

    /// Whether a look packet may be sent at `now` (at most one per 100 ms).
    pub fn can_send_look_packet_at(&self, now: u64) -> (r: bool)
        ensures
            r == spec_can_send_look(self@, now),
    {
        match self.last_look_sent_at {
            Some(at) if !(now >= at && now - at >= 100) => false,
            _ => self.can_send_cosmetic_packet_at(now),
        }
    }

    /// Whether a look packet may be sent now.
    pub fn can_send_look_packet(&self) -> (r: bool)
        ensures
            exists|now: u64| r == #[trigger] spec_can_send_look(self@, now),
    {
        self.can_send_look_packet_at(self.now_millis())
    }

    /// Whether a swing packet may be sent at `now` (at most one per 150 ms).
    pub fn can_send_swing_packet_at(&self, now: u64) -> (r: bool)
        ensures
            r == spec_can_send_swing(self@, now),
    {
        match self.last_swing_sent_at {
            Some(at) if !(now >= at && now - at >= 150) => false,
            _ => self.can_send_cosmetic_packet_at(now),
        }
    }

    /// Whether a swing packet may be sent now.
    pub fn can_send_swing_packet(&self) -> (r: bool)
        ensures
            exists|now: u64| r == #[trigger] spec_can_send_swing(self@, now),
    {
        self.can_send_swing_packet_at(self.now_millis())
    }
}

/// After 25 packets in one window, no further packet is allowed until the pause ends.
pub proof fn law_burst_stops_packets(s: RateLimiterView, now: u64, later: u64)
    requires
        s.window_packets + 1 >= max_packets(),
        s.window_packets < u32::MAX,
        now <= later,
        later <= sat_add(now, 250),
    ensures
        !spec_can_send(spec_packet_sent(s, now), later),
        !spec_can_send_cosmetic(spec_packet_sent(s, now), later),
{
}

/// A reset limiter allows every kind of packet.
pub proof fn law_reset_allows_all(now: u64)
    ensures
        spec_can_send(fresh_limiter(), now),
        spec_can_send_cosmetic(fresh_limiter(), now),
        !within(fresh_limiter().last_look_at, now, 100),
        !within(fresh_limiter().last_swing_at, now, 150),
{
}

/// Pauses never shorten: checking the limits keeps every deadline at least as late.
pub proof fn law_deadlines_never_shrink(s: RateLimiterView, now: u64)
    ensures
        s.reduce_until is Some ==> (spec_check_limits(s, now).reduce_until is Some
            && spec_check_limits(s, now).reduce_until->0 >= s.reduce_until->0),
        s.stop_until is Some ==> (spec_check_limits(s, now).stop_until is Some
            && spec_check_limits(s, now).stop_until->0 >= s.stop_until->0),
{
}

/// One call on a rate limiter, with the clock reading it happens at.
pub enum LimiterOp {
    Reset,
    Tick(u64),
    CheckLimits(u64),
    PacketSent(u64),
    LookSent(u64),
    SwingSent(u64),
}

/// The limiter after one call.
pub open spec fn apply_op(s: RateLimiterView, op: LimiterOp) -> RateLimiterView {
    match op {
        LimiterOp::Reset => fresh_limiter(),
        LimiterOp::Tick(now) => spec_tick(s, now),
        LimiterOp::CheckLimits(now) => spec_check_limits(s, now),
        LimiterOp::PacketSent(now) => spec_packet_sent(s, now),
        LimiterOp::LookSent(now) => spec_look_sent(s, now),
        LimiterOp::SwingSent(now) => spec_swing_sent(s, now),
    }
}

/// The limiter after a sequence of calls, in order.
pub open spec fn run_ops(s: RateLimiterView, ops: Seq<LimiterOp>) -> RateLimiterView
    decreases ops.len(),
{
    if ops.len() == 0 {
        s
    } else {
        apply_op(run_ops(s, ops.drop_last()), ops.last())
    }
}

/// Whether the stop of all packets ends no later than the reduction of cosmetic ones.
pub open spec fn limits_ordered(s: RateLimiterView) -> bool {
    match s.stop_until {
        Some(stop) => s.reduce_until matches Some(reduce) && reduce >= stop,
        None => true,
    }
}

proof fn lemma_op_keeps_order(s: RateLimiterView, op: LimiterOp)
    requires
        limits_ordered(s),
    ensures
        limits_ordered(apply_op(s, op)),
{
}

/// Whatever calls a fresh limiter goes through, a stop of all packets never outlasts
/// the reduction of cosmetic ones; so wherever a cosmetic packet may be sent, any
/// packet may.
pub proof fn law_stop_within_reduction(ops: Seq<LimiterOp>, now: u64)
    ensures
        limits_ordered(run_ops(fresh_limiter(), ops)),
        spec_can_send_cosmetic(run_ops(fresh_limiter(), ops), now) ==> spec_can_send(run_ops(fresh_limiter(), ops), now),
    decreases ops.len(),
{
    if ops.len() > 0 {
        law_stop_within_reduction(ops.drop_last(), now);
        lemma_op_keeps_order(run_ops(fresh_limiter(), ops.drop_last()), ops.last());
    }
}

/// Checking the limits counts no packet and changes no window or send time, and a
/// second check at the same time changes nothing more.
pub proof fn law_check_limits_settles(s: RateLimiterView, now: u64)
    ensures
        spec_check_limits(s, now).window_packets == s.window_packets,
        spec_check_limits(s, now).window_start == s.window_start,
        spec_check_limits(s, now).last_look_at == s.last_look_at,
        spec_check_limits(s, now).last_swing_at == s.last_swing_at,
        spec_check_limits(spec_check_limits(s, now), now) == spec_check_limits(s, now),
{
}

/// The limiter after packets sent at each of `times`, in order.
pub open spec fn after_sends(s: RateLimiterView, times: Seq<u64>) -> RateLimiterView
    decreases times.len(),
{
    if times.len() == 0 {
        s
    } else {
        spec_packet_sent(after_sends(s, times.drop_last()), times.last())
    }
}

proof fn lemma_sends_after_tick(t0: u64, times: Seq<u64>)
    requires
        times.len() < u32::MAX,
    ensures
        ({
            let s = after_sends(spec_tick(fresh_limiter(), t0), times);
            &&& s.window_packets == times.len()
            &&& times.len() < max_cosmetic() ==> s.reduce_until is None
            &&& times.len() >= max_cosmetic() ==> (s.reduce_until matches Some(r) && r >= sat_add(times.last(), 500))
        }),
    decreases times.len(),
{
    if times.len() > 0 {
        lemma_sends_after_tick(t0, times.drop_last());
    }
}

/// After a tick, `k` packets sent without another tick leave `k` packets counted, and
/// cosmetic packets stay allowed exactly while `k` is below 20 (asked no later than
/// 500 ms after the last send).
pub proof fn law_sends_after_tick(t0: u64, times: Seq<u64>, asked: u64)
    requires
        times.len() < u32::MAX,
        times.len() > 0 ==> asked <= sat_add(times.last(), 500),
    ensures
        after_sends(spec_tick(fresh_limiter(), t0), times).window_packets == times.len(),
        spec_can_send_cosmetic(after_sends(spec_tick(fresh_limiter(), t0), times), asked) == (times.len() < 20),
{
    lemma_sends_after_tick(t0, times);
}

/// Whether a call records a look packet, or resets the limiter.
pub open spec fn touches_look(op: LimiterOp) -> bool {
    op is Reset || op is LookSent
}

/// Whether a call records a swing packet, or resets the limiter.
pub open spec fn touches_swing(op: LimiterOp) -> bool {
    op is Reset || op is SwingSent
}

proof fn lemma_ops_keep_look(s: RateLimiterView, ops: Seq<LimiterOp>)
    requires
        forall|k: int| 0 <= k < ops.len() ==> !touches_look(#[trigger] ops[k]),
    ensures
        run_ops(s, ops).last_look_at == s.last_look_at,
    decreases ops.len(),
{
    if ops.len() > 0 {
        lemma_ops_keep_look(s, ops.drop_last());
        assert(!touches_look(ops[ops.len() - 1]));
    }
}

proof fn lemma_ops_keep_swing(s: RateLimiterView, ops: Seq<LimiterOp>)
    requires
        forall|k: int| 0 <= k < ops.len() ==> !touches_swing(#[trigger] ops[k]),
    ensures
        run_ops(s, ops).last_swing_at == s.last_swing_at,
    decreases ops.len(),
{
    if ops.len() > 0 {
        lemma_ops_keep_swing(s, ops.drop_last());
        assert(!touches_swing(ops[ops.len() - 1]));
    }
}

/// A look packet sent at `now` is counted as any packet is and its time is recorded;
/// until a reset (or another look is recorded), no look packet is allowed less than
/// 100 ms after it, whatever other calls come in between.
pub proof fn law_look_waits_100_ms(s: RateLimiterView, now: u64, ops: Seq<LimiterOp>, t: u64)
    requires
        forall|k: int| 0 <= k < ops.len() ==> !touches_look(#[trigger] ops[k]),
        now <= t < now + 100,
    ensures
        spec_look_sent(s, now) == (RateLimiterView { last_look_at: Some(now), ..spec_packet_sent(s, now) }),
        !spec_can_send_look(run_ops(spec_look_sent(s, now), ops), t),
{
    lemma_ops_keep_look(spec_look_sent(s, now), ops);
}

/// A swing packet sent at `now` is counted as any packet is and its time is recorded;
/// until a reset (or another swing is recorded), no swing packet is allowed less than
/// 150 ms after it. A swing is allowed only where a cosmetic packet is.
pub proof fn law_swing_waits_150_ms(s: RateLimiterView, now: u64, ops: Seq<LimiterOp>, t: u64, any: u64)
    requires
        forall|k: int| 0 <= k < ops.len() ==> !touches_swing(#[trigger] ops[k]),
        now <= t < now + 150,
    ensures
        spec_swing_sent(s, now) == (RateLimiterView { last_swing_at: Some(now), ..spec_packet_sent(s, now) }),
        !spec_can_send_swing(run_ops(spec_swing_sent(s, now), ops), t),
        spec_can_send_swing(s, any) ==> spec_can_send_cosmetic(s, any),
        spec_can_send_look(s, any) ==> spec_can_send_cosmetic(s, any),
{
    lemma_ops_keep_swing(spec_swing_sent(s, now), ops);
}

} // verus!
