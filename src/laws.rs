use vstd::prelude::*;

use crate::strategy::{interval_elapsed, StrategyState, MILLIS_PER_SECOND};

verus! {

/// A disabled policy is never due, and neither a tick nor a trigger changes it.
pub proof fn lemma_never_is_never_due(current_frame: u64, now_ms: u64, f: u64)
    ensures
        !StrategyState::Never.is_due(f),
        StrategyState::Never.triggered() == StrategyState::Never,
        StrategyState::Never.ticked(current_frame, now_ms) == StrategyState::Never,
{
}

/// Whatever ticks it sees, a disabled policy is due at no frame.
pub proof fn lemma_never_due_after_any_ticks(ticks: Seq<(u64, u64)>, f: u64)
    ensures
        StrategyState::Never.ticked_all(ticks) == StrategyState::Never,
        !StrategyState::Never.ticked_all(ticks).is_due(f),
    decreases ticks.len(),
{
    if ticks.len() > 0 {
        lemma_never_due_after_any_ticks(ticks.drop_last(), f);
    }
}

/// A periodic policy fires once at least `interval` whole seconds have
/// passed since it last fired: after that tick exactly the next frame is due.
pub proof fn lemma_every_fires_after_interval(
    interval: u8,
    last_ms: u64,
    frame_number: u64,
    current_frame: u64,
    now_ms: u64,
)
    requires
        current_frame < u64::MAX,
        last_ms as int + interval as int * MILLIS_PER_SECOND as int <= now_ms as int,
    ensures
        forall|f: u64| #[trigger]
            (StrategyState::Every { interval, last_ms, frame_number }).ticked(
                current_frame,
                now_ms,
            ).is_due(f) <==> f == current_frame + 1,
{
    let elapsed = now_ms as int - last_ms as int;
    assert(elapsed / 1000 >= interval) by (nonlinear_arith)
        requires
            elapsed >= interval as int * 1000,
    ;
    assert(interval_elapsed(interval, last_ms, now_ms));
}

/// Before `interval` whole seconds have passed since a periodic policy last
/// fired, a tick leaves it exactly as it was, at any frame.
pub proof fn lemma_every_waits_for_interval(
    interval: u8,
    last_ms: u64,
    frame_number: u64,
    current_frame: u64,
    now_ms: u64,
)
    requires
        (now_ms as int) < last_ms as int + interval as int * MILLIS_PER_SECOND as int,
    ensures
        ({
            let s = StrategyState::Every { interval, last_ms, frame_number };
            &&& !s.fires(now_ms)
            &&& s.ticked(current_frame, now_ms) == s
        }),
{
    let elapsed = now_ms as int - last_ms as int;
    if last_ms <= now_ms {
        assert(elapsed / 1000 < interval) by (nonlinear_arith)
            requires
                0 <= elapsed < interval as int * 1000,
        ;
    }
}

/// A freshly made periodic policy is due at no frame but the largest
/// frame number until its first firing tick.
pub proof fn lemma_fresh_every_not_due(interval: u8, f: u64)
    requires
        f < u64::MAX,
    ensures
        !(StrategyState::Every { interval, last_ms: 0, frame_number: u64::MAX }).is_due(f),
        !(StrategyState::Trigger { triggered: false, frame_number: u64::MAX }).is_due(f),
{
}

/// Calls of `trigger` before a tick coalesce: after one or more of them, the
/// next tick makes exactly the following frame due.
pub proof fn lemma_triggers_coalesce(
    s: StrategyState,
    k: nat,
    current_frame: u64,
    now_ms: u64,
)
    requires
        s is Trigger,
        k >= 1,
        current_frame < u64::MAX,
    ensures
        s.triggered_times(k) == s.triggered(),
        forall|f: u64| #[trigger]
            s.triggered_times(k).ticked(current_frame, now_ms).is_due(f) <==> f == current_frame
                + 1,
    decreases k,
{
    if k > 1 {
        lemma_triggers_coalesce(s, (k - 1) as nat, current_frame, now_ms);
    } else {
        assert(s.triggered_times(0) == s);
    }
    assert(s.triggered_times(k) == s.triggered_times((k - 1) as nat).triggered());
    assert(s.triggered().triggered() == s.triggered());
}

/// Without a trigger, a tick at any frame changes nothing: the pulse of an
/// earlier firing is not repeated and no new one starts.
pub proof fn lemma_untriggered_tick_changes_nothing(
    frame_number: u64,
    current_frame: u64,
    now_ms: u64,
)
    ensures
        ({
            let s = StrategyState::Trigger { triggered: false, frame_number };
            &&& !s.fires(now_ms)
            &&& s.ticked(current_frame, now_ms) == s
        }),
{
}

} // verus!
