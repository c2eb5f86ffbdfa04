//! Laws of the synthetic clock, stated and proved over the clock model that
//! the engine's contracts use: the position never runs backwards under
//! play/pause traffic, is frozen while paused or stopped, survives a resume
//! unchanged, and is unchanged at the instant of a speed change.

use vstd::prelude::*;
use vstd::arithmetic::mul::lemma_mul_inequality;
use vstd::arithmetic::div_mod::lemma_div_is_ordered;
use crate::engine::{
    SyntheticClock, clock_zero, spec_active_ms, spec_elapsed_ms, spec_pause_clock,
    spec_play_clock, spec_position, spec_rebase_clock, spec_total_scaled_ms,
};
use crate::manager::Track;

verus! {

/// Coherence of the pause bookkeeping: while paused, the accumulated paused
/// time cannot exceed the pause mark itself. Every clock the engine builds
/// under non-decreasing times satisfies this; `lemma_op_keeps_clock_sane`
/// shows it is preserved.
pub open spec fn clock_inv(c: SyntheticClock) -> bool {
    c.pause_time_ms matches Some(p) ==> c.paused_ms <= p
}

/// All times the clock stores lie at or before `t`: what holds of a clock
/// built by operations at times up to `t`.
pub open spec fn clock_times_le(c: SyntheticClock, t: u64) -> bool {
    &&& (c.start_time_ms matches Some(s) ==> s <= t)
    &&& (c.pause_time_ms matches Some(p) ==> p <= t)
    &&& c.paused_ms <= t
}

/// With no operation in between, the position never decreases as time
/// passes — whatever the clock and speed.
pub proof fn lemma_position_time_monotone(c: SyntheticClock, speed_hundredths: u32, t1: u64, t2: u64)
    requires
        t1 <= t2,
    ensures
        spec_position(c, speed_hundredths, t1) <= spec_position(c, speed_hundredths, t2),
{
    let a1 = spec_active_ms(c, t1);
    let a2 = spec_active_ms(c, t2);
    assert(a1 <= a2);
    lemma_mul_inequality(a1 as int, a2 as int, speed_hundredths as int);
    lemma_div_is_ordered(a1 as int * speed_hundredths as int, a2 as int * speed_hundredths as int, 100);
    let tot1 = spec_total_scaled_ms(c, speed_hundredths, t1);
    let tot2 = spec_total_scaled_ms(c, speed_hundredths, t2);
    assert(tot1 <= tot2);
    lemma_div_is_ordered(tot1 as int, tot2 as int, 1000);
}

/// While paused, and while no segment has started, the position is frozen:
/// it does not depend on the time at all.
pub proof fn lemma_position_frozen(c: SyntheticClock, speed_hundredths: u32, t1: u64, t2: u64)
    requires
        c.pause_time_ms is Some || c.start_time_ms is None,
    ensures
        spec_position(c, speed_hundredths, t1) == spec_position(c, speed_hundredths, t2),
{
    assert(spec_elapsed_ms(c, t1) == spec_elapsed_ms(c, t2));
}

/// Resuming does not move the position: right after `play` at `now_ms` the
/// position reads exactly what it read just before — paused time is excluded,
/// never replayed.
pub proof fn lemma_play_preserves_position(c: SyntheticClock, speed_hundredths: u32, now_ms: u64)
    requires
        clock_inv(c),
        clock_times_le(c, now_ms),
    ensures
        spec_position(spec_play_clock(c, now_ms), speed_hundredths, now_ms)
            == spec_position(c, speed_hundredths, now_ms),
{
    let c2 = spec_play_clock(c, now_ms);
    assert(spec_active_ms(c2, now_ms) == spec_active_ms(c, now_ms));
}

/// A first pause does not move the position: the pause mark freezes the
/// elapsed time exactly where it stands.
pub proof fn lemma_pause_preserves_position(c: SyntheticClock, speed_hundredths: u32, now_ms: u64)
    requires
        c.pause_time_ms is None,
    ensures
        spec_position(spec_pause_clock(c, now_ms), speed_hundredths, now_ms)
            == spec_position(c, speed_hundredths, now_ms),
{
    assert(spec_elapsed_ms(spec_pause_clock(c, now_ms), now_ms) == spec_elapsed_ms(c, now_ms));
}

/// Pausing never moves the position backwards, not even a repeated pause,
/// which slides the frozen point forward to `now_ms`.
pub proof fn lemma_pause_position_advances(c: SyntheticClock, speed_hundredths: u32, now_ms: u64)
    requires
        clock_times_le(c, now_ms),
    ensures
        spec_position(c, speed_hundredths, now_ms)
            <= spec_position(spec_pause_clock(c, now_ms), speed_hundredths, now_ms),
{
    let c2 = spec_pause_clock(c, now_ms);
    let a1 = spec_active_ms(c, now_ms);
    let a2 = spec_active_ms(c2, now_ms);
    assert(a1 <= a2);
    lemma_mul_inequality(a1 as int, a2 as int, speed_hundredths as int);
    lemma_div_is_ordered(a1 as int * speed_hundredths as int, a2 as int * speed_hundredths as int, 100);
    let tot1 = spec_total_scaled_ms(c, speed_hundredths, now_ms);
    let tot2 = spec_total_scaled_ms(c2, speed_hundredths, now_ms);
    assert(tot1 <= tot2);
    lemma_div_is_ordered(tot1 as int, tot2 as int, 1000);
}

/// A speed change at `now_ms` leaves the position at `now_ms` exactly where
/// it was, whatever the new speed: past progress is folded in at the old
/// speed and only the future runs at the new one.
pub proof fn lemma_speed_change_preserves_position(
    c: SyntheticClock,
    old_speed_hundredths: u32,
    new_speed_hundredths: u32,
    now_ms: u64,
)
    ensures
        spec_position(spec_rebase_clock(c, old_speed_hundredths, now_ms), new_speed_hundredths, now_ms)
            == spec_position(c, old_speed_hundredths, now_ms),
{
    let c2 = spec_rebase_clock(c, old_speed_hundredths, now_ms);
    assert(spec_active_ms(c2, now_ms) == 0);
    assert(0u64 * new_speed_hundredths == 0) by (nonlinear_arith);
    assert(spec_total_scaled_ms(c2, new_speed_hundredths, now_ms)
        == spec_total_scaled_ms(c, old_speed_hundredths, now_ms));
}

/// Play and pause keep the clock coherent, and a clock touched only at times
/// up to `now_ms` still stores no time beyond it.
pub proof fn lemma_op_keeps_clock_sane(c: SyntheticClock, op: TransportOp, now_ms: u64)
    requires
        clock_inv(c),
        clock_times_le(c, now_ms),
    ensures
        clock_inv(apply_op(c, op, now_ms)),
        clock_times_le(apply_op(c, op, now_ms), now_ms),
{
}

/// A transport operation: what a caller can do between loads and seeks.
#[derive(Debug, Clone, Copy, PartialEq, Eq, Structural)]
pub enum TransportOp {
    Play,
    Pause,
}

/// The clock after one transport operation at `at_ms`.
pub open spec fn apply_op(c: SyntheticClock, op: TransportOp, at_ms: u64) -> SyntheticClock {
    match op {
        TransportOp::Play => spec_play_clock(c, at_ms),
        TransportOp::Pause => spec_pause_clock(c, at_ms),
    }
}

/// The clock after a whole sequence of timed transport operations.
pub open spec fn apply_ops(c: SyntheticClock, ops: Seq<(TransportOp, u64)>) -> SyntheticClock
    decreases ops.len(),
{
    if ops.len() == 0 {
        c
    } else {
        apply_ops(apply_op(c, ops[0].0, ops[0].1), ops.drop_first())
    }
}

/// The operation times start no earlier than `t0` and never decrease.
pub open spec fn ops_monotone_from(ops: Seq<(TransportOp, u64)>, t0: u64) -> bool {
    &&& (forall|i: int| 0 <= i < ops.len() ==> t0 <= (#[trigger] ops[i]).1)
    &&& (forall|i: int, j: int|
        0 <= i <= j < ops.len() ==> (#[trigger] ops[i]).1 <= (#[trigger] ops[j]).1)
}

/// Along any sequence of play/pause operations at non-decreasing times — no
/// seek, stop or load among them — the position never decreases: it grows
/// while playing and stands still while paused.
pub proof fn lemma_transport_position_monotone(
    c: SyntheticClock,
    speed_hundredths: u32,
    ops: Seq<(TransportOp, u64)>,
    t0: u64,
    t_end: u64,
)
    requires
        clock_inv(c),
        clock_times_le(c, t0),
        ops_monotone_from(ops, t0),
        forall|i: int| 0 <= i < ops.len() ==> (#[trigger] ops[i]).1 <= t_end,
        t0 <= t_end,
    ensures
        spec_position(c, speed_hundredths, t0)
            <= spec_position(apply_ops(c, ops), speed_hundredths, t_end),
        clock_inv(apply_ops(c, ops)),
        clock_times_le(apply_ops(c, ops), t_end),
    decreases ops.len(),
{
    if ops.len() == 0 {
        lemma_position_time_monotone(c, speed_hundredths, t0, t_end);
    } else {
        let op = ops[0].0;
        let t1 = ops[0].1;
        let c1 = apply_op(c, op, t1);
        lemma_position_time_monotone(c, speed_hundredths, t0, t1);
        match op {
            TransportOp::Play => {
                lemma_play_preserves_position(c, speed_hundredths, t1);
            },
            TransportOp::Pause => {
                lemma_pause_position_advances(c, speed_hundredths, t1);
            },
        }
        lemma_op_keeps_clock_sane(c, op, t1);
        assert(ops_monotone_from(ops.drop_first(), t1));
        lemma_transport_position_monotone(c1, speed_hundredths, ops.drop_first(), t1, t_end);
    }
}

/// The zero clock — what stop and load leave behind — is coherent and stores
/// no time at all.
pub proof fn lemma_zero_clock_sane(t: u64)
    ensures
        clock_inv(clock_zero()),
        clock_times_le(clock_zero(), t),
{
}

/// The clock a seek leaves behind is coherent and stores only the seek time.
pub proof fn lemma_seek_clock_sane(
    state: crate::engine::PlaybackState,
    pos_secs: u64,
    now_ms: u64,
    t: u64,
)
    requires
        now_ms <= t,
    ensures
        clock_inv(crate::engine::spec_seek_clock(state, pos_secs, now_ms)),
        clock_times_le(crate::engine::spec_seek_clock(state, pos_secs, now_ms), t),
{
}

/// The clock a speed change leaves behind is coherent and stores only the
/// change time.
pub proof fn lemma_rebase_clock_sane(
    c: SyntheticClock,
    old_speed_hundredths: u32,
    now_ms: u64,
    t: u64,
)
    requires
        now_ms <= t,
    ensures
        clock_inv(spec_rebase_clock(c, old_speed_hundredths, now_ms)),
        clock_times_le(spec_rebase_clock(c, old_speed_hundredths, now_ms), t),
{
}

/// The zero clock — what stop and load leave behind — reads position 0 at
/// every time and speed.
pub proof fn lemma_zero_clock_position(speed_hundredths: u32, t: u64)
    ensures
        spec_position(clock_zero(), speed_hundredths, t) == 0,
{
    crate::engine::lemma_still_clock_position(clock_zero(), speed_hundredths, t);
}

/// The queue is first-in first-out: after enqueuing `a` then `b` into an
/// empty queue, the first pop yields `a`, the second yields `b`, and the
/// queue is then spent. Together with the contracts of `add_to_queue` and
/// `play_next`, this pins the manager's queue order.
pub proof fn lemma_queue_fifo(q: Seq<Track>, a: Track, b: Track)
    requires
        q.len() == 0,
    ensures
        q.push(a).push(b).len() == 2,
        q.push(a).push(b)[0] == a,
        q.push(a).push(b).drop_first()[0] == b,
        q.push(a).push(b).drop_first().drop_first().len() == 0,
{
    assert(q.push(a).push(b).drop_first() =~= seq![b]);
}

} // verus!
