//! The transition engine: given the previous and the current decoded
//! snapshot, it emits the timer commands of one tick and advances the split
//! cursor. Four checks run in a fixed order — reset edge, scene entry, pause
//! edge, spatial split — each contributing its commands independently.

use vstd::prelude::*;
use crate::catalog::{MapId, Splits, regions_of};
use crate::decode::{Layout, Scene};
use crate::geometry::{Rect, Vector2};

verus! {

/// One command for the timer application.
#[derive(Clone, Copy, Debug, PartialEq, Eq, Structural)]
pub enum TimerCommand {
    /// Clear all run progress and elapsed time.
    Reset,
    /// Begin run timing.
    Start,
    /// Advance to the next segment.
    Split,
    /// Freeze the secondary game-time clock.
    PauseGameTime,
    /// Unfreeze the secondary game-time clock.
    ResumeGameTime,
    /// Force the secondary game-time clock to an absolute value, in
    /// milliseconds.
    SetGameTime(i64),
}

/// One tick's decoded snapshot: the scene classification, the world-space
/// position in thousandths of a unit, the elapsed game time in milliseconds,
/// and the raw status word the scene was decoded from. The raw word is kept
/// because the edge checks compare individual bits between ticks.
#[derive(Clone, Copy, Debug, PartialEq, Eq, Structural)]
pub struct State {
    pub scene: Scene,
    pub position: Vector2,
    pub time_ms: i64,
    pub mask: u32,
}

impl State {
    /// Builds one tick's state, decoding the scene from the status word.
    pub fn new(layout: &Layout, mask: u32, time_ms: i64, position: Vector2) -> (s: State)
        requires
            layout.wf(),
        ensures
            s == (State { scene: layout.spec_decode(mask), position, time_ms, mask }),
    {
        State { scene: layout.decode(mask), position, time_ms, mask }
    }
}

/// Whether the bit at `shift` is set in `mask`.
pub open spec fn bit_is_set(mask: u32, shift: u32) -> bool {
    (mask >> shift) & 1 == 1
}

/// The pause flag of a status word.
pub open spec fn spec_paused(layout: Layout, mask: u32) -> bool {
    bit_is_set(mask, layout.pause_shift)
}

/// The reset-request flag of a status word.
pub open spec fn spec_reset_requested(layout: Layout, mask: u32) -> bool {
    bit_is_set(mask, layout.reset_shift)
}

/// A rising edge of the reset-request flag: clear on the previous tick, set
/// on the current one.
pub open spec fn spec_reset_edge(layout: Layout, prev: State, cur: State) -> bool {
    !spec_reset_requested(layout, prev.mask) && spec_reset_requested(layout, cur.mask)
}

/// The commands of the scene-entry check: Start when the Main scene is
/// entered while the previous tick already requested a reset, and the
/// terminal Split when the reward screen loads straight out of the Cavern
/// map (the finish trigger the game itself does not fire reliably). Both are
/// entry edges: staying in a scene across consecutive ticks repeats nothing.
pub open spec fn spec_scene_cmds(layout: Layout, prev: State, cur: State) -> Seq<TimerCommand> {
    if cur.scene == Scene::Main && prev.scene != Scene::Main && spec_reset_requested(
        layout,
        prev.mask,
    ) {
        seq![TimerCommand::Start]
    } else if cur.scene == Scene::Reward && prev.scene == Scene::Cavern {
        seq![TimerCommand::Split]
    } else {
        Seq::empty()
    }
}

/// The sequence binding after the scene-entry check: entering Main on a
/// started run binds the default map, entering the Cavern map rebinds to its
/// sequence unless it is already the active one; everything else leaves the
/// binding alone.
pub open spec fn spec_active_after(layout: Layout, prev: State, cur: State, active: Option<MapId>) -> Option<
    MapId,
> {
    if cur.scene == Scene::Main && prev.scene != Scene::Main && spec_reset_requested(
        layout,
        prev.mask,
    ) {
        Some(MapId::MainMap)
    } else if cur.scene == Scene::Cavern && active != Some(MapId::CavernMap) {
        Some(MapId::CavernMap)
    } else {
        active
    }
}

/// The commands of the pause-edge check, from the pause flags of the two
/// ticks: staying unpaused synchronizes the game time, a beginning pause
/// freezes it, an ending pause unfreezes and then synchronizes it, and
/// staying paused changes nothing.
pub open spec fn spec_pause_cmds(layout: Layout, prev: State, cur: State) -> Seq<TimerCommand> {
    let was_paused = spec_paused(layout, prev.mask);
    let now_paused = spec_paused(layout, cur.mask);
    if !was_paused && !now_paused {
        seq![TimerCommand::SetGameTime(cur.time_ms)]
    } else if !was_paused && now_paused {
        seq![TimerCommand::PauseGameTime]
    } else if was_paused && !now_paused {
        seq![TimerCommand::ResumeGameTime, TimerCommand::SetGameTime(cur.time_ms)]
    } else {
        Seq::empty()
    }
}

/// The cursor after the reset check: cleared to zero exactly on a rising
/// edge of the reset-request flag.
pub open spec fn spec_cursor_mid(layout: Layout, prev: State, cur: State, cursor: int) -> int {
    if spec_reset_edge(layout, prev, cur) {
        0
    } else {
        cursor
    }
}

/// Whether the spatial split check fires: the cursor still points into the
/// active sequence and the position lies strictly inside the one region at
/// the cursor — never any earlier or later region.
pub open spec fn spec_split_fires(
    layout: Layout,
    prev: State,
    cur: State,
    cursor: int,
    active: Option<MapId>,
) -> bool {
    let c = spec_cursor_mid(layout, prev, cur, cursor);
    let regs = regions_of(spec_active_after(layout, prev, cur, active));
    0 <= c < regs.len() && regs[c].spec_contains(cur.position)
}

/// The cursor after the whole tick.
pub open spec fn spec_cursor_after(
    layout: Layout,
    prev: State,
    cur: State,
    cursor: int,
    active: Option<MapId>,
) -> int {
    spec_cursor_mid(layout, prev, cur, cursor) + if spec_split_fires(layout, prev, cur, cursor, active) {
        1int
    } else {
        0int
    }
}

/// All commands of one tick, in emission order: the reset check, the
/// scene-entry check, the pause check, the spatial split check.
pub open spec fn spec_tick_cmds(
    layout: Layout,
    prev: State,
    cur: State,
    cursor: int,
    active: Option<MapId>,
) -> Seq<TimerCommand> {
    (if spec_reset_edge(layout, prev, cur) {
        seq![TimerCommand::Reset]
    } else {
        Seq::empty()
    }) + spec_scene_cmds(layout, prev, cur) + spec_pause_cmds(layout, prev, cur) + (
    if spec_split_fires(layout, prev, cur, cursor, active) {
        seq![TimerCommand::Split]
    } else {
        Seq::empty()
    })
}

/// Whether the bit at `shift` is set in `mask`.
fn mask_bit(mask: u32, shift: u32) -> (r: bool)
    requires
        shift < 32,
    ensures
        r == bit_is_set(mask, shift),
{
    (mask >> shift) & 1 == 1
}

/// The engine's state across ticks: the bit layout it was configured with,
/// the split cursor, and the active region sequence.
pub struct Tracker {
    layout: Layout,
    cursor: usize,
    active: Option<MapId>,
    splits: Vec<Rect>,
}

impl Tracker {
    /// The layout this tracker was configured with.
    pub closed spec fn spec_layout(&self) -> Layout {
        self.layout
    }

    /// The split cursor: how many regions of the active sequence have been
    /// entered, in order, since the last reset.
    pub closed spec fn spec_cursor(&self) -> int {
        self.cursor as int
    }

    /// Which region sequence is bound, if any.
    pub closed spec fn spec_active(&self) -> Option<MapId> {
        self.active
    }

    /// The tracker's invariant: the layout is sane and the held region list
    /// is exactly the catalog sequence of the active map.
    pub closed spec fn wf(&self) -> bool {
        &&& self.layout.wf()
        &&& self.splits@ == regions_of(self.active)
    }

    /// A fresh tracker: cursor at zero, no sequence bound.
    pub fn new(layout: Layout) -> (t: Tracker)
        requires
            layout.wf(),
        ensures
            t.wf(),
            t.spec_layout() == layout,
            t.spec_cursor() == 0,
            t.spec_active() is None,
    {
        let t = Tracker { layout, cursor: 0, active: None, splits: Vec::new() };
        proof {
            assert(t.splits@ =~= regions_of(None::<MapId>));
        }
        t
    }

    /// The split cursor.
    pub fn cursor(&self) -> (c: usize)
        ensures
            c as int == self.spec_cursor(),
    {
        self.cursor
    }

    /// Which region sequence is bound, if any.
    pub fn active(&self) -> (a: Option<MapId>)
        ensures
            a == self.spec_active(),
    {
        self.active
    }

    /// One tick of the engine: compares the previous and the current
    /// snapshot, emits the tick's commands in order, and advances the
    /// cursor and the sequence binding.
    pub fn advance(&mut self, prev: &State, cur: &State) -> (cmds: Vec<TimerCommand>)
        requires
            old(self).wf(),
        ensures
            final(self).wf(),
            final(self).spec_layout() == old(self).spec_layout(),
            cmds@ == spec_tick_cmds(
                old(self).spec_layout(),
                *prev,
                *cur,
                old(self).spec_cursor(),
                old(self).spec_active(),
            ),
            final(self).spec_cursor() == spec_cursor_after(
                old(self).spec_layout(),
                *prev,
                *cur,
                old(self).spec_cursor(),
                old(self).spec_active(),
            ),
            final(self).spec_active() == spec_active_after(
                old(self).spec_layout(),
                *prev,
                *cur,
                old(self).spec_active(),
            ),
    {
        let ghost layout0 = self.layout;
        let ghost cursor0 = self.cursor as int;
        let ghost active0 = self.active;

        let mut cmds: Vec<TimerCommand> = Vec::new();

        // Reset check: strictly an edge, never a level trigger.
        let prev_reset = mask_bit(prev.mask, self.layout.reset_shift);
        let cur_reset = mask_bit(cur.mask, self.layout.reset_shift);
        if !prev_reset && cur_reset {
            cmds.push(TimerCommand::Reset);
            self.cursor = 0;
        }

        // Scene-entry check.
        match cur.scene {
            Scene::Main => {
                if prev_reset && prev.scene != Scene::Main {
                    cmds.push(TimerCommand::Start);
                    self.active = Some(MapId::MainMap);
                    self.splits = Splits::default_map();
                }
            },
            Scene::Cavern => {
                let already_bound = match self.active {
                    Some(MapId::CavernMap) => true,
                    _ => false,
                };
                if !already_bound {
                    self.active = Some(MapId::CavernMap);
                    self.splits = Splits::cavern_map();
                }
            },
            Scene::Reward => {
                if prev.scene == Scene::Cavern {
                    cmds.push(TimerCommand::Split);
                }
            },
            _ => {},
        }
        assert(cmds@ =~= (if spec_reset_edge(layout0, *prev, *cur) {
            seq![TimerCommand::Reset]
        } else {
            Seq::<TimerCommand>::empty()
        }) + spec_scene_cmds(layout0, *prev, *cur));

        // Pause check: the four combinations of the two ticks' pause flags.
        let was_paused = mask_bit(prev.mask, self.layout.pause_shift);
        let now_paused = mask_bit(cur.mask, self.layout.pause_shift);
        if !was_paused && !now_paused {
            cmds.push(TimerCommand::SetGameTime(cur.time_ms));
        } else if !was_paused && now_paused {
            cmds.push(TimerCommand::PauseGameTime);
        } else if was_paused && !now_paused {
            cmds.push(TimerCommand::ResumeGameTime);
            cmds.push(TimerCommand::SetGameTime(cur.time_ms));
        }
        assert(cmds@ =~= (if spec_reset_edge(layout0, *prev, *cur) {
            seq![TimerCommand::Reset]
        } else {
            Seq::<TimerCommand>::empty()
        }) + spec_scene_cmds(layout0, *prev, *cur) + spec_pause_cmds(layout0, *prev, *cur));

        // Spatial split check: only the region at the cursor is live.
        if self.cursor < self.splits.len() {
            let region = self.splits[self.cursor];
            if cur.position.in_bounds(&region) {
                cmds.push(TimerCommand::Split);
                self.cursor = self.cursor + 1;
            }
        }
        proof {
            assert(cmds@ =~= spec_tick_cmds(layout0, *prev, *cur, cursor0, active0));
        }
        cmds
    }
}

} // verus!
