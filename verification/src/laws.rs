//! What the refresh discipline guarantees, stated and proved once and for
//! all over the snapshot model: absence at the start, atomic per-field
//! replacement, tolerance of one fetch failing independently of the other,
//! monotonic freshness stamps, and the distinction between a dataset that
//! was never fetched and one that was fetched empty.

use vstd::prelude::*;

use crate::data::LeaderboardView;
use crate::data::ServerData;
use crate::snapshot::SnapshotView;
use crate::snapshot::after_cycle;

verus! {

/// One refresh cycle as an event: what each fetch brought (the fetched value
/// on success, nothing on failure) and the Unix second the cycle ran at.
pub ghost struct CycleEvent {
    pub lb_fetch: Option<LeaderboardView>,
    pub sl_fetch: Option<Seq<ServerData>>,
    pub now: u64,
}

/// The snapshot left behind by a sequence of refresh cycles, run in order.
pub open spec fn run_cycles(init: SnapshotView, events: Seq<CycleEvent>) -> SnapshotView
    decreases events.len(),
{
    if events.len() == 0 {
        init
    } else {
        after_cycle(
            run_cycles(init, events.drop_last()),
            events.last().lb_fetch,
            events.last().sl_fetch,
            events.last().now,
        )
    }
}

/// A freshly constructed snapshot answers both queries with absence, and
/// both stamps read as `0`.
pub proof fn lemma_absence_invariant()
    ensures
        SnapshotView::initial().leaderboard_query() is None,
        SnapshotView::initial().server_list_query() is None,
        SnapshotView::initial().leaderboard_stamp == 0,
        SnapshotView::initial().server_list_stamp == 0,
        SnapshotView::initial().wf(),
{
}

/// After a cycle in which the leaderboard fetch succeeded and the
/// server-list fetch failed, the leaderboard reads as the new data with the
/// cycle's stamp, while the server list reads exactly as before the cycle:
/// same value, same stamp.
pub proof fn lemma_atomic_replacement(pre: SnapshotView, lb: LeaderboardView, now: u64)
    ensures
        after_cycle(pre, Some(lb), None, now).leaderboard_query() == Some((lb, now)),
        after_cycle(pre, Some(lb), None, now).server_list_query() == pre.server_list_query(),
        after_cycle(pre, Some(lb), None, now).server_list == pre.server_list,
        after_cycle(pre, Some(lb), None, now).server_list_stamp == pre.server_list_stamp,
{
}

/// A failing server-list fetch neither prevents the leaderboard from
/// updating nor corrupts or clears the stored server list — and the other
/// way round.
pub proof fn lemma_independent_failure(
    pre: SnapshotView,
    lb: LeaderboardView,
    sl: Seq<ServerData>,
    now: u64,
)
    ensures
        after_cycle(pre, Some(lb), None, now).leaderboard_query() == Some((lb, now)),
        after_cycle(pre, Some(lb), None, now).server_list == pre.server_list,
        after_cycle(pre, Some(lb), None, now).server_list_stamp == pre.server_list_stamp,
        after_cycle(pre, None, Some(sl), now).server_list_query() == Some((sl, now)),
        after_cycle(pre, None, Some(sl), now).leaderboard == pre.leaderboard,
        after_cycle(pre, None, Some(sl), now).leaderboard_stamp == pre.leaderboard_stamp,
{
}

/// In one cycle, a field's stamp is set to the cycle's time exactly when its
/// fetch succeeded, and is left untouched when its fetch failed.
pub proof fn lemma_stamp_change(pre: SnapshotView, ev: CycleEvent)
    ensures
        ev.lb_fetch is Some ==> after_cycle(pre, ev.lb_fetch, ev.sl_fetch, ev.now).leaderboard_stamp
            == ev.now,
        ev.lb_fetch is None ==> after_cycle(pre, ev.lb_fetch, ev.sl_fetch, ev.now).leaderboard_stamp
            == pre.leaderboard_stamp,
        ev.sl_fetch is Some ==> after_cycle(pre, ev.lb_fetch, ev.sl_fetch, ev.now).server_list_stamp
            == ev.now,
        ev.sl_fetch is None ==> after_cycle(pre, ev.lb_fetch, ev.sl_fetch, ev.now).server_list_stamp
            == pre.server_list_stamp,
{
}

/// No cycle can leave a stamp above the latest wall-clock time it ran at:
/// stamps only ever hold times that have already passed.
proof fn lemma_stamp_upper_bound(init: SnapshotView, events: Seq<CycleEvent>, bound: u64)
    requires
        init.leaderboard_stamp <= bound,
        init.server_list_stamp <= bound,
        forall|k: int| 0 <= k < events.len() ==> #[trigger] events[k].now <= bound,
    ensures
        run_cycles(init, events).leaderboard_stamp <= bound,
        run_cycles(init, events).server_list_stamp <= bound,
    decreases events.len(),
{
    if events.len() > 0 {
        lemma_stamp_upper_bound(init, events.drop_last(), bound);
    }
}

/// Across any sequence of refresh cycles run at non-decreasing wall-clock
/// times no earlier than the stamps the snapshot started with, each field's
/// stamp is non-decreasing from cycle to cycle; it changes only on cycles
/// where that field's fetch succeeded, and a successful fetch sets it to
/// that cycle's time.
pub proof fn lemma_monotonic_stamps(init: SnapshotView, events: Seq<CycleEvent>, i: int)
    requires
        0 <= i < events.len(),
        forall|k: int, l: int|
            0 <= k <= l < events.len() ==> #[trigger] events[k].now <= #[trigger] events[l].now,
        forall|k: int| 0 <= k < events.len() ==> init.leaderboard_stamp <= #[trigger] events[k].now,
        forall|k: int| 0 <= k < events.len() ==> init.server_list_stamp <= #[trigger] events[k].now,
    ensures
        run_cycles(init, events.take(i + 1)).leaderboard_stamp >= run_cycles(
            init,
            events.take(i),
        ).leaderboard_stamp,
        run_cycles(init, events.take(i + 1)).server_list_stamp >= run_cycles(
            init,
            events.take(i),
        ).server_list_stamp,
        events[i].lb_fetch is Some ==> run_cycles(init, events.take(i + 1)).leaderboard_stamp
            == events[i].now,
        events[i].lb_fetch is None ==> run_cycles(init, events.take(i + 1)).leaderboard_stamp
            == run_cycles(init, events.take(i)).leaderboard_stamp,
        events[i].sl_fetch is Some ==> run_cycles(init, events.take(i + 1)).server_list_stamp
            == events[i].now,
        events[i].sl_fetch is None ==> run_cycles(init, events.take(i + 1)).server_list_stamp
            == run_cycles(init, events.take(i)).server_list_stamp,
{
    let prefix = events.take(i);
    let ev = events[i];
    assert(events.take(i + 1).drop_last() =~= prefix);
    assert(events.take(i + 1).last() == ev);
    lemma_stamp_upper_bound(init, prefix, ev.now);
    assert(run_cycles(init, events.take(i + 1)) == after_cycle(
        run_cycles(init, prefix),
        ev.lb_fetch,
        ev.sl_fetch,
        ev.now,
    ));
}

/// Across any sequence of refresh cycles run at non-decreasing wall-clock
/// times no earlier than the stamps the snapshot started with, each field's
/// stamp never moves backward: at any later point of the sequence it is at
/// least what it was at any earlier point.
pub proof fn lemma_stamps_never_move_backward(
    init: SnapshotView,
    events: Seq<CycleEvent>,
    i: int,
    j: int,
)
    requires
        0 <= i <= j <= events.len(),
        forall|k: int, l: int|
            0 <= k <= l < events.len() ==> #[trigger] events[k].now <= #[trigger] events[l].now,
        forall|k: int| 0 <= k < events.len() ==> init.leaderboard_stamp <= #[trigger] events[k].now,
        forall|k: int| 0 <= k < events.len() ==> init.server_list_stamp <= #[trigger] events[k].now,
    ensures
        run_cycles(init, events.take(i)).leaderboard_stamp <= run_cycles(
            init,
            events.take(j),
        ).leaderboard_stamp,
        run_cycles(init, events.take(i)).server_list_stamp <= run_cycles(
            init,
            events.take(j),
        ).server_list_stamp,
    decreases j - i,
{
    if i < j {
        lemma_monotonic_stamps(init, events, j - 1);
        lemma_stamps_never_move_backward(init, events, i, j - 1);
    }
}

/// A refresh cycle run at a positive wall-clock time keeps the snapshot
/// well-formed: after it, as before, a field is absent exactly while its
/// stamp is `0`.
pub proof fn lemma_cycle_preserves_wf(
    pre: SnapshotView,
    lb_fetch: Option<LeaderboardView>,
    sl_fetch: Option<Seq<ServerData>>,
    now: u64,
)
    requires
        pre.wf(),
        1 <= now,
    ensures
        after_cycle(pre, lb_fetch, sl_fetch, now).wf(),
{
}

/// An upstream answer with zero rows is served as present-but-empty, stamped
/// with the cycle's time, and so stays distinguishable from a snapshot whose
/// leaderboard was never fetched, which answers with absence and stamp `0`.
pub proof fn lemma_empty_vs_absent(pre: SnapshotView, now: u64)
    requires
        1 <= now,
    ensures
        after_cycle(pre, Some(LeaderboardView::empty()), None, now).leaderboard_query() == Some(
            (LeaderboardView::empty(), now),
        ),
        after_cycle(pre, Some(LeaderboardView::empty()), None, now).leaderboard_stamp != 0,
        SnapshotView::initial().leaderboard_query() is None,
        SnapshotView::initial().leaderboard_stamp == 0,
{
}

} // verus!
