//! The engine's laws, stated over the tick specification and proved once for
//! all inputs: reset commands count rising edges exactly, the pause table is
//! exhaustive, and the split cursor moves monotonically, stays in bounds and
//! advances strictly in order.

use vstd::prelude::*;
use crate::catalog::{MapId, cavern_regions, regions_of};
use crate::decode::{Layout, Scene};
use crate::engine::{
    State, TimerCommand, spec_active_after, spec_cursor_after, spec_cursor_mid, spec_pause_cmds,
    spec_paused, spec_reset_edge, spec_split_fires, spec_tick_cmds,
};

verus! {

/// How many Reset commands a command sequence holds.
pub open spec fn count_resets(cmds: Seq<TimerCommand>) -> int
    decreases cmds.len(),
{
    if cmds.len() == 0 {
        0
    } else {
        (if cmds[0] == TimerCommand::Reset {
            1int
        } else {
            0int
        }) + count_resets(cmds.drop_first())
    }
}

proof fn lemma_count_resets_add(a: Seq<TimerCommand>, b: Seq<TimerCommand>)
    ensures
        count_resets(a + b) == count_resets(a) + count_resets(b),
    decreases a.len(),
{
    if a.len() == 0 {
        assert(a + b =~= b);
    } else {
        assert((a + b).drop_first() =~= a.drop_first() + b);
        lemma_count_resets_add(a.drop_first(), b);
    }
}

proof fn lemma_count_resets_none(s: Seq<TimerCommand>)
    requires
        forall|i: int| 0 <= i < s.len() ==> s[i] != TimerCommand::Reset,
    ensures
        count_resets(s) == 0,
    decreases s.len(),
{
    if s.len() > 0 {
        lemma_count_resets_none(s.drop_first());
    }
}

/// Within one tick, a Reset command is emitted exactly once on a rising edge
/// of the reset-request flag and never otherwise — a level held high across
/// consecutive ticks repeats nothing.
pub proof fn lemma_reset_exactly_on_rising_edge(
    layout: Layout,
    prev: State,
    cur: State,
    cursor: int,
    active: Option<MapId>,
)
    ensures
        count_resets(spec_tick_cmds(layout, prev, cur, cursor, active)) == (
        if spec_reset_edge(layout, prev, cur) {
            1int
        } else {
            0int
        }),
{
    let r = if spec_reset_edge(layout, prev, cur) {
        seq![TimerCommand::Reset]
    } else {
        Seq::<TimerCommand>::empty()
    };
    let s = crate::engine::spec_scene_cmds(layout, prev, cur);
    let p = spec_pause_cmds(layout, prev, cur);
    let q = if spec_split_fires(layout, prev, cur, cursor, active) {
        seq![TimerCommand::Split]
    } else {
        Seq::<TimerCommand>::empty()
    };
    lemma_count_resets_add(r + s + p, q);
    lemma_count_resets_add(r + s, p);
    lemma_count_resets_add(r, s);
    lemma_count_resets_none(s);
    lemma_count_resets_none(p);
    lemma_count_resets_none(q);
    if spec_reset_edge(layout, prev, cur) {
        lemma_count_resets_none(r.drop_first());
    }
}

/// All commands of a whole run of ticks, each compared against its
/// predecessor, with the cursor and the binding threaded from tick to tick.
pub open spec fn spec_run_cmds(
    layout: Layout,
    prev: State,
    ticks: Seq<State>,
    cursor: int,
    active: Option<MapId>,
) -> Seq<TimerCommand>
    decreases ticks.len(),
{
    if ticks.len() == 0 {
        Seq::empty()
    } else {
        spec_tick_cmds(layout, prev, ticks[0], cursor, active) + spec_run_cmds(
            layout,
            ticks[0],
            ticks.drop_first(),
            spec_cursor_after(layout, prev, ticks[0], cursor, active),
            spec_active_after(layout, prev, ticks[0], active),
        )
    }
}

/// How many rising edges of the reset-request flag a run of ticks holds.
pub open spec fn count_rising_edges(layout: Layout, prev: State, ticks: Seq<State>) -> int
    decreases ticks.len(),
{
    if ticks.len() == 0 {
        0
    } else {
        (if spec_reset_edge(layout, prev, ticks[0]) {
            1int
        } else {
            0int
        }) + count_rising_edges(layout, ticks[0], ticks.drop_first())
    }
}

/// Over any run of ticks, the engine emits exactly one Reset command per
/// rising edge of the reset-request flag.
pub proof fn lemma_one_reset_per_rising_edge(
    layout: Layout,
    prev: State,
    ticks: Seq<State>,
    cursor: int,
    active: Option<MapId>,
)
    ensures
        count_resets(spec_run_cmds(layout, prev, ticks, cursor, active)) == count_rising_edges(
            layout,
            prev,
            ticks,
        ),
    decreases ticks.len(),
{
    if ticks.len() > 0 {
        lemma_count_resets_add(
            spec_tick_cmds(layout, prev, ticks[0], cursor, active),
            spec_run_cmds(
                layout,
                ticks[0],
                ticks.drop_first(),
                spec_cursor_after(layout, prev, ticks[0], cursor, active),
                spec_active_after(layout, prev, ticks[0], active),
            ),
        );
        lemma_reset_exactly_on_rising_edge(layout, prev, ticks[0], cursor, active);
        lemma_one_reset_per_rising_edge(
            layout,
            ticks[0],
            ticks.drop_first(),
            spec_cursor_after(layout, prev, ticks[0], cursor, active),
            spec_active_after(layout, prev, ticks[0], active),
        );
    }
}

/// Whether a command speaks of the secondary game-time clock.
pub open spec fn is_time_cmd(c: TimerCommand) -> bool {
    c == TimerCommand::PauseGameTime || c == TimerCommand::ResumeGameTime || c is SetGameTime
}

/// The subsequence of game-time commands of a command sequence.
pub open spec fn time_cmds(s: Seq<TimerCommand>) -> Seq<TimerCommand>
    decreases s.len(),
{
    if s.len() == 0 {
        Seq::empty()
    } else {
        (if is_time_cmd(s[0]) {
            seq![s[0]]
        } else {
            Seq::empty()
        }) + time_cmds(s.drop_first())
    }
}

proof fn lemma_time_cmds_add(a: Seq<TimerCommand>, b: Seq<TimerCommand>)
    ensures
        time_cmds(a + b) == time_cmds(a) + time_cmds(b),
    decreases a.len(),
{
    if a.len() == 0 {
        assert(a + b =~= b);
        assert(time_cmds(a) + time_cmds(b) =~= time_cmds(b));
    } else {
        assert((a + b).drop_first() =~= a.drop_first() + b);
        lemma_time_cmds_add(a.drop_first(), b);
        assert(time_cmds(a + b) =~= time_cmds(a) + time_cmds(b));
    }
}

proof fn lemma_time_cmds_none(s: Seq<TimerCommand>)
    requires
        forall|i: int| 0 <= i < s.len() ==> !is_time_cmd(s[i]),
    ensures
        time_cmds(s) == Seq::<TimerCommand>::empty(),
    decreases s.len(),
{
    if s.len() > 0 {
        lemma_time_cmds_none(s.drop_first());
        assert(time_cmds(s) =~= Seq::<TimerCommand>::empty());
    }
}

proof fn lemma_time_cmds_all(s: Seq<TimerCommand>)
    requires
        forall|i: int| 0 <= i < s.len() ==> is_time_cmd(s[i]),
    ensures
        time_cmds(s) == s,
    decreases s.len(),
{
    if s.len() > 0 {
        lemma_time_cmds_all(s.drop_first());
        assert(time_cmds(s) =~= s);
    } else {
        assert(time_cmds(s) =~= s);
    }
}

/// The pause table is exhaustive: the game-time commands of one whole tick
/// are exactly those of the pause check, and the four combinations of the
/// two ticks' pause flags yield, in order: synchronize only; freeze only;
/// unfreeze then synchronize; nothing.
pub proof fn lemma_pause_table(
    layout: Layout,
    prev: State,
    cur: State,
    cursor: int,
    active: Option<MapId>,
)
    ensures
        time_cmds(spec_tick_cmds(layout, prev, cur, cursor, active)) == spec_pause_cmds(
            layout,
            prev,
            cur,
        ),
        !spec_paused(layout, prev.mask) && !spec_paused(layout, cur.mask) ==> spec_pause_cmds(
            layout,
            prev,
            cur,
        ) == seq![TimerCommand::SetGameTime(cur.time_ms)],
        !spec_paused(layout, prev.mask) && spec_paused(layout, cur.mask) ==> spec_pause_cmds(
            layout,
            prev,
            cur,
        ) == seq![TimerCommand::PauseGameTime],
        spec_paused(layout, prev.mask) && !spec_paused(layout, cur.mask) ==> spec_pause_cmds(
            layout,
            prev,
            cur,
        ) == seq![TimerCommand::ResumeGameTime, TimerCommand::SetGameTime(cur.time_ms)],
        spec_paused(layout, prev.mask) && spec_paused(layout, cur.mask) ==> spec_pause_cmds(
            layout,
            prev,
            cur,
        ) == Seq::<TimerCommand>::empty(),
{
    let r = if spec_reset_edge(layout, prev, cur) {
        seq![TimerCommand::Reset]
    } else {
        Seq::<TimerCommand>::empty()
    };
    let s = crate::engine::spec_scene_cmds(layout, prev, cur);
    let p = spec_pause_cmds(layout, prev, cur);
    let q = if spec_split_fires(layout, prev, cur, cursor, active) {
        seq![TimerCommand::Split]
    } else {
        Seq::<TimerCommand>::empty()
    };
    lemma_time_cmds_add(r + s + p, q);
    lemma_time_cmds_add(r + s, p);
    lemma_time_cmds_add(r, s);
    lemma_time_cmds_none(r);
    lemma_time_cmds_none(s);
    lemma_time_cmds_none(q);
    lemma_time_cmds_all(p);
    assert(time_cmds(spec_tick_cmds(layout, prev, cur, cursor, active)) =~= p);
}

/// The split cursor is monotonic: within one tick it never decreases except
/// to zero on a reset edge, and it advances by at most one.
pub proof fn lemma_cursor_monotonic(
    layout: Layout,
    prev: State,
    cur: State,
    cursor: int,
    active: Option<MapId>,
)
    requires
        0 <= cursor,
    ensures
        !spec_reset_edge(layout, prev, cur) ==> cursor <= spec_cursor_after(
            layout,
            prev,
            cur,
            cursor,
            active,
        ) <= cursor + 1,
        spec_reset_edge(layout, prev, cur) ==> 0 <= spec_cursor_after(
            layout,
            prev,
            cur,
            cursor,
            active,
        ) <= 1,
{
}

/// The split cursor never exceeds the length of the active region sequence.
/// The one caveat is a rebind that shrinks the sequence under a cursor deep
/// into a longer one — entering the Cavern map mid-run with more regions
/// already passed than the Cavern sequence holds; the guard of the spatial
/// check keeps even that tick safe, but the bound itself needs the caveat
/// excluded.
pub proof fn lemma_cursor_bounded(
    layout: Layout,
    prev: State,
    cur: State,
    cursor: int,
    active: Option<MapId>,
)
    requires
        0 <= cursor <= regions_of(active).len(),
        (cur.scene == Scene::Cavern && active != Some(MapId::CavernMap) && !spec_reset_edge(
            layout,
            prev,
            cur,
        )) ==> cursor <= cavern_regions().len(),
    ensures
        0 <= spec_cursor_after(layout, prev, cur, cursor, active) <= regions_of(
            spec_active_after(layout, prev, cur, active),
        ).len(),
{
    crate::catalog::lemma_regions_len_bounded(active);
}

/// The snapshot tick `i` is compared against: the seed state for the first
/// tick, afterwards the tick before it.
pub open spec fn spec_prev_at(prev: State, ticks: Seq<State>, i: int) -> State {
    if i <= 0 {
        prev
    } else {
        ticks[i - 1]
    }
}

/// The sequence binding after the first `i` ticks of a run.
pub open spec fn spec_active_at(
    layout: Layout,
    prev: State,
    ticks: Seq<State>,
    active: Option<MapId>,
    i: int,
) -> Option<MapId>
    decreases i,
{
    if i <= 0 {
        active
    } else {
        spec_active_after(
            layout,
            spec_prev_at(prev, ticks, i - 1),
            ticks[i - 1],
            spec_active_at(layout, prev, ticks, active, i - 1),
        )
    }
}

/// The split cursor after the first `i` ticks of a run.
pub open spec fn spec_cursor_at(
    layout: Layout,
    prev: State,
    ticks: Seq<State>,
    cursor: int,
    active: Option<MapId>,
    i: int,
) -> int
    decreases i,
{
    if i <= 0 {
        cursor
    } else {
        spec_cursor_after(
            layout,
            spec_prev_at(prev, ticks, i - 1),
            ticks[i - 1],
            spec_cursor_at(layout, prev, ticks, cursor, active, i - 1),
            spec_active_at(layout, prev, ticks, active, i - 1),
        )
    }
}

proof fn lemma_cursor_at_nonneg(
    layout: Layout,
    prev: State,
    ticks: Seq<State>,
    cursor: int,
    active: Option<MapId>,
    i: int,
)
    requires
        0 <= cursor,
    ensures
        0 <= spec_cursor_at(layout, prev, ticks, cursor, active, i),
    decreases i,
{
    if i > 0 {
        lemma_cursor_at_nonneg(layout, prev, ticks, cursor, active, i - 1);
    }
}

/// Over any run of ticks, the split cursor never decreases from one tick to
/// the next, except that a rising reset edge clears it to zero — after which
/// at most one split may advance it within the same tick.
pub proof fn lemma_run_cursor_monotonic(
    layout: Layout,
    prev: State,
    ticks: Seq<State>,
    cursor: int,
    active: Option<MapId>,
    i: int,
)
    requires
        0 <= cursor,
        0 <= i < ticks.len(),
    ensures
        !spec_reset_edge(layout, spec_prev_at(prev, ticks, i), ticks[i]) ==> spec_cursor_at(
            layout,
            prev,
            ticks,
            cursor,
            active,
            i,
        ) <= spec_cursor_at(layout, prev, ticks, cursor, active, i + 1) <= spec_cursor_at(
            layout,
            prev,
            ticks,
            cursor,
            active,
            i,
        ) + 1,
        spec_reset_edge(layout, spec_prev_at(prev, ticks, i), ticks[i]) ==> 0 <= spec_cursor_at(
            layout,
            prev,
            ticks,
            cursor,
            active,
            i + 1,
        ) <= 1,
{
    lemma_cursor_at_nonneg(layout, prev, ticks, cursor, active, i);
    lemma_cursor_monotonic(
        layout,
        spec_prev_at(prev, ticks, i),
        ticks[i],
        spec_cursor_at(layout, prev, ticks, cursor, active, i),
        spec_active_at(layout, prev, ticks, active, i),
    );
}

/// Split advancement is strictly sequential: when the one region at the
/// cursor does not contain the position, no spatial split fires — whichever
/// other regions contain it — and the cursor moves only by the reset
/// clearing.
pub proof fn lemma_split_strictly_sequential(
    layout: Layout,
    prev: State,
    cur: State,
    cursor: int,
    active: Option<MapId>,
)
    requires
        ({
            let c = spec_cursor_mid(layout, prev, cur, cursor);
            let regs = regions_of(spec_active_after(layout, prev, cur, active));
            !(0 <= c < regs.len()) || !regs[c].spec_contains(cur.position)
        }),
    ensures
        !spec_split_fires(layout, prev, cur, cursor, active),
        spec_cursor_after(layout, prev, cur, cursor, active) == spec_cursor_mid(
            layout,
            prev,
            cur,
            cursor,
        ),
{
}

/// Entering the region at the cursor fires the spatial split and advances
/// the cursor by exactly one.
pub proof fn lemma_split_advances_once(
    layout: Layout,
    prev: State,
    cur: State,
    cursor: int,
    active: Option<MapId>,
)
    requires
        ({
            let c = spec_cursor_mid(layout, prev, cur, cursor);
            let regs = regions_of(spec_active_after(layout, prev, cur, active));
            0 <= c < regs.len() && regs[c].spec_contains(cur.position)
        }),
    ensures
        spec_split_fires(layout, prev, cur, cursor, active),
        spec_cursor_after(layout, prev, cur, cursor, active) == spec_cursor_mid(
            layout,
            prev,
            cur,
            cursor,
        ) + 1,
{
}

} // verus!
