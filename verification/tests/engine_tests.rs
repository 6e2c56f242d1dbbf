use autosplitter::catalog::MapId;
use autosplitter::decode::{Layout, Scene, SceneKind};
use autosplitter::engine::{State, TimerCommand, Tracker};
use autosplitter::geometry::Vector2;

// Standard-layout masks: pause = bit 0, reset = bit 1, scene = bits 2..=3,
// extended map identifier = bits 4 and up.
const MENU: u32 = 0b0000;
const MAIN: u32 = 0b0100;
const REWARD: u32 = 0b1000;
const CAVERN: u32 = 0b11100;
const RESET_FLAG: u32 = 0b0010;
const PAUSE_FLAG: u32 = 0b0001;

fn st(mask: u32, time_ms: i64, x: i64, y: i64) -> State {
    State::new(&Layout::standard(), mask, time_ms, Vector2::new(x, y))
}

// The state the tick loop starts from before the first real snapshot.
fn initial() -> State {
    st(0b1100, 0, 0, 0)
}

fn fresh() -> Tracker {
    Tracker::new(Layout::standard())
}

// Centers of the default map's regions, in traversal order.
const DEFAULT_CENTERS: [(i64, i64); 10] = [
    (-10000, 14500),
    (26000, 89000),
    (15000, 125500),
    (5000, 164500),
    (21000, 228000),
    (75000, 254000),
    (20000, 288000),
    (44000, 324000),
    (100000, 360000),
    (100000, 471000),
];

fn count_resets(cmds: &[TimerCommand]) -> usize {
    cmds.iter().filter(|c| **c == TimerCommand::Reset).count()
}

#[test]
fn reset_fires_once_per_rising_edge() {
    let mut t = fresh();
    let mut prev = initial();
    let reset_bits = [0u32, 1, 1, 1, 0, 1];
    let mut per_tick = Vec::new();
    for (i, bit) in reset_bits.iter().enumerate() {
        let cur = st(MENU | (bit * RESET_FLAG), i as i64, 0, 0);
        let cmds = t.advance(&prev, &cur);
        per_tick.push(count_resets(&cmds));
        prev = cur;
    }
    assert_eq!(per_tick, vec![0, 1, 0, 0, 0, 1]);
}

#[test]
fn pause_table_covers_all_four_cases() {
    // (unpaused, unpaused): synchronize the game time only
    let cmds = fresh().advance(&st(MENU, 0, 0, 0), &st(MENU, 1234, 0, 0));
    assert_eq!(cmds, vec![TimerCommand::SetGameTime(1234)]);
    // (unpaused, paused): freeze only, no synchronization this tick
    let cmds = fresh().advance(&st(MENU, 0, 0, 0), &st(MENU | PAUSE_FLAG, 1234, 0, 0));
    assert_eq!(cmds, vec![TimerCommand::PauseGameTime]);
    // (paused, unpaused): unfreeze, then synchronize
    let cmds = fresh().advance(&st(MENU | PAUSE_FLAG, 0, 0, 0), &st(MENU, 1234, 0, 0));
    assert_eq!(cmds, vec![TimerCommand::ResumeGameTime, TimerCommand::SetGameTime(1234)]);
    // (paused, paused): nothing changes while paused
    let cmds = fresh().advance(&st(MENU | PAUSE_FLAG, 0, 0, 0), &st(MENU | PAUSE_FLAG, 1234, 0, 0));
    assert_eq!(cmds, vec![]);
}

#[test]
fn game_time_is_truncated_milliseconds() {
    // the host converts seconds to whole milliseconds by truncation
    let ms = (1.9999f32 * 1000.0).trunc() as i64;
    assert_eq!(ms, 1999);
    let cmds = fresh().advance(&st(MENU, 0, 0, 0), &st(MENU, ms, 0, 0));
    assert_eq!(cmds, vec![TimerCommand::SetGameTime(1999)]);
}

#[test]
fn run_start_scenario() {
    // menu, menu with reset raised, main with reset still raised, main
    let mut t = fresh();
    let mut prev = initial();
    let masks = [MENU, MENU | RESET_FLAG, MAIN | RESET_FLAG, MAIN];
    let mut outputs = Vec::new();
    for (i, mask) in masks.iter().enumerate() {
        let cur = st(*mask, 10 * (i as i64 + 1), 0, 0);
        outputs.push(t.advance(&prev, &cur));
        prev = cur;
    }
    assert_eq!(outputs[0], vec![TimerCommand::SetGameTime(10)]);
    assert_eq!(outputs[1], vec![TimerCommand::Reset, TimerCommand::SetGameTime(20)]);
    // Start fires on the tick the scene becomes Main, the prior tick having
    // already raised the reset flag
    assert_eq!(outputs[2], vec![TimerCommand::Start, TimerCommand::SetGameTime(30)]);
    assert_eq!(outputs[3], vec![TimerCommand::SetGameTime(40)]);
    // the run-control commands alone: [], [Reset], [Start], []
    let control: Vec<Vec<TimerCommand>> = outputs
        .iter()
        .map(|cmds| {
            cmds.iter()
                .filter(|c| !matches!(c, TimerCommand::SetGameTime(_)))
                .cloned()
                .collect()
        })
        .collect();
    assert_eq!(control[0], vec![]);
    assert_eq!(control[1], vec![TimerCommand::Reset]);
    assert_eq!(control[2], vec![TimerCommand::Start]);
    assert_eq!(control[3], vec![]);
    assert_eq!(t.active(), Some(MapId::MainMap));
    assert_eq!(t.cursor(), 0);
}

// Binds the default map by running the start edge; leaves the cursor at 0.
fn started() -> (Tracker, State) {
    let mut t = fresh();
    let prev = st(MENU | RESET_FLAG, 0, 0, 0);
    let cur = st(MAIN | RESET_FLAG, 0, 0, 0);
    let cmds = t.advance(&prev, &cur);
    assert_eq!(cmds, vec![TimerCommand::Start, TimerCommand::SetGameTime(0)]);
    (t, cur)
}

#[test]
fn split_fires_once_and_advances_cursor() {
    let (mut t, mut prev) = started();
    // pass through the first three regions
    for i in 0..3 {
        let (x, y) = DEFAULT_CENTERS[i];
        let cur = st(MAIN, i as i64, x, y);
        let cmds = t.advance(&prev, &cur);
        assert_eq!(cmds, vec![TimerCommand::SetGameTime(i as i64), TimerCommand::Split]);
        prev = cur;
    }
    assert_eq!(t.cursor(), 3);
    // entering the fourth region fires exactly one split
    let (x, y) = DEFAULT_CENTERS[3];
    let cur = st(MAIN, 50, x, y);
    let cmds = t.advance(&prev, &cur);
    assert_eq!(cmds, vec![TimerCommand::SetGameTime(50), TimerCommand::Split]);
    assert_eq!(t.cursor(), 4);
    prev = cur;
    // staying inside the same region fires no further split
    let again = st(MAIN, 60, x, y);
    let cmds = t.advance(&prev, &again);
    assert_eq!(cmds, vec![TimerCommand::SetGameTime(60)]);
    assert_eq!(t.cursor(), 4);
}

#[test]
fn out_of_order_region_entry_is_rejected() {
    let (mut t, prev) = started();
    // the position sits inside region 2, but only region 0 is live
    let (x, y) = DEFAULT_CENTERS[2];
    let cur = st(MAIN, 5, x, y);
    let cmds = t.advance(&prev, &cur);
    assert_eq!(cmds, vec![TimerCommand::SetGameTime(5)]);
    assert_eq!(t.cursor(), 0);
}

#[test]
fn cursor_stops_at_sequence_length() {
    let (mut t, mut prev) = started();
    for (i, (x, y)) in DEFAULT_CENTERS.iter().enumerate() {
        let cur = st(MAIN, i as i64, *x, *y);
        let cmds = t.advance(&prev, &cur);
        assert_eq!(cmds, vec![TimerCommand::SetGameTime(i as i64), TimerCommand::Split]);
        prev = cur;
    }
    assert_eq!(t.cursor(), 10);
    // the whole sequence is done: nothing more can fire
    let (x, y) = DEFAULT_CENTERS[9];
    let cur = st(MAIN, 99, x, y);
    let cmds = t.advance(&prev, &cur);
    assert_eq!(cmds, vec![TimerCommand::SetGameTime(99)]);
    assert_eq!(t.cursor(), 10);
}

#[test]
fn reset_edge_clears_the_cursor() {
    let (mut t, mut prev) = started();
    for i in 0..2 {
        let (x, y) = DEFAULT_CENTERS[i];
        let cur = st(MAIN, i as i64, x, y);
        t.advance(&prev, &cur);
        prev = cur;
    }
    assert_eq!(t.cursor(), 2);
    let cur = st(MENU | RESET_FLAG, 7, 0, 0);
    let cmds = t.advance(&prev, &cur);
    assert_eq!(cmds, vec![TimerCommand::Reset, TimerCommand::SetGameTime(7)]);
    assert_eq!(t.cursor(), 0);
}

#[test]
fn cavern_entry_binds_its_sequence_once() {
    let mut t = fresh();
    let mut prev = initial();
    let cur = st(CAVERN, 1, 0, 0);
    let cmds = t.advance(&prev, &cur);
    assert_eq!(cmds, vec![TimerCommand::SetGameTime(1)]);
    assert_eq!(t.active(), Some(MapId::CavernMap));
    assert_eq!(t.cursor(), 0);
    prev = cur;
    // first cavern region: around (370.75, 60.5) units
    let cur = st(CAVERN, 2, 370750, 60500);
    let cmds = t.advance(&prev, &cur);
    assert_eq!(cmds, vec![TimerCommand::SetGameTime(2), TimerCommand::Split]);
    assert_eq!(t.cursor(), 1);
}

#[test]
fn reward_after_cavern_fires_the_terminal_split() {
    let mut t = fresh();
    let mut prev = initial();
    let cur = st(CAVERN, 1, 0, 0);
    t.advance(&prev, &cur);
    prev = cur;
    let cur = st(REWARD, 2, 0, 0);
    let cmds = t.advance(&prev, &cur);
    assert_eq!(cmds, vec![TimerCommand::Split, TimerCommand::SetGameTime(2)]);
    // the terminal split does not touch the cursor
    assert_eq!(t.cursor(), 0);
    prev = cur;
    // reward after anything else fires nothing
    let cur = st(REWARD, 3, 0, 0);
    let cmds = t.advance(&prev, &cur);
    assert_eq!(cmds, vec![TimerCommand::SetGameTime(3)]);
}

#[test]
fn engine_reads_the_configured_bit_positions() {
    let l = Layout {
        pause_shift: 31,
        reset_shift: 30,
        scene_shift: 2,
        ext_shift: 4,
        scene_kinds: [SceneKind::Menu, SceneKind::Main, SceneKind::Reward, SceneKind::Custom],
    };
    let mut t = Tracker::new(l);
    let prev = State::new(&l, 0, 0, Vector2::new(0, 0));
    assert_eq!(prev.scene, Scene::Menu);
    let cur = State::new(&l, 1 << 30, 4, Vector2::new(0, 0));
    let cmds = t.advance(&prev, &cur);
    assert_eq!(cmds, vec![TimerCommand::Reset, TimerCommand::SetGameTime(4)]);
    let paused = State::new(&l, 1 << 31, 5, Vector2::new(0, 0));
    let cmds = t.advance(&cur, &paused);
    assert_eq!(cmds, vec![TimerCommand::PauseGameTime]);
}
