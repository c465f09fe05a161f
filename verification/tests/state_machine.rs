use builder_ai::controller::MissionController;
use builder_ai::state::{Candidate, Cell, Phase, Query, ScanVerdict};

fn candidate(row: usize, col: usize, on_street: bool) -> Candidate {
    Candidate { cell: Cell { row, col }, on_street }
}

#[test]
fn new_controller_defaults() {
    let c = MissionController::new(64);
    assert_eq!(c.phase, Phase::Ready);
    assert_eq!(c.world_size, 64);
    assert_eq!(c.scan_radius, 5);
    assert_eq!(c.row, 0);
    assert_eq!(c.col, 0);
    assert!(c.rocks.is_empty());
    assert!(c.builds.is_empty());
    assert!(c.actions.is_empty());
    assert_eq!(c.progress, 0);
    assert_eq!(c.required, 5);
}

#[test]
fn phase_default_is_ready() {
    assert_eq!(Phase::default(), Phase::Ready);
}

#[test]
fn first_tick_enters_discover() {
    // Phase `Ready`, first tick: straight to `Discover`, nothing else asked.
    let mut c = MissionController::new(64);
    let (q, cmds) = c.tick_begin(0, 0);
    assert_eq!(q, Query::Done);
    assert!(cmds.is_empty());
    assert_eq!(c.phase, Phase::Discover);
}

#[test]
fn tick_refreshes_position_cache() {
    let mut c = MissionController::new(64);
    let _ = c.tick_begin(7, 9);
    assert_eq!(c.row, 7);
    assert_eq!(c.col, 9);
}

#[test]
fn discover_asks_for_scan_with_current_radius() {
    let mut c = MissionController::new(64);
    c.phase = Phase::Discover;
    let (q, cmds) = c.tick_begin(0, 0);
    assert_eq!(q, Query::Scan(5));
    assert!(cmds.is_empty());
    assert_eq!(c.phase, Phase::Discover);
}

#[test]
fn scan_complete_advances_to_locate_and_widens_radius() {
    let mut c = MissionController::new(64);
    c.phase = Phase::Discover;
    let _ = c.tick_begin(0, 0);
    c.tick_scanned(ScanVerdict::Complete);
    assert_eq!(c.phase, Phase::Locate);
    assert_eq!(c.scan_radius, 6);
}

#[test]
fn scan_failed_stays_in_discover_and_widens_radius() {
    let mut c = MissionController::new(64);
    c.phase = Phase::Discover;
    let _ = c.tick_begin(0, 0);
    c.tick_scanned(ScanVerdict::Failed);
    assert_eq!(c.phase, Phase::Discover);
    assert_eq!(c.scan_radius, 6);
}

#[test]
fn scan_unfinished_stays_in_discover() {
    let mut c = MissionController::new(64);
    c.phase = Phase::Discover;
    let _ = c.tick_begin(0, 0);
    c.tick_scanned(ScanVerdict::Scanning);
    assert_eq!(c.phase, Phase::Discover);
    assert_eq!(c.scan_radius, 6);
}

#[test]
fn two_candidates_fill_build_queue() {
    // Scanner done, two matching cells at (3,4) and (5,1), neither on street:
    // the locate tick queues both, in the reported order, and advances to
    // navigation.
    let mut c = MissionController::new(64);
    c.phase = Phase::Locate;
    let (q, _) = c.tick_begin(0, 0);
    assert_eq!(q, Query::Targets);
    let cands = vec![candidate(3, 4, false), candidate(5, 1, false)];
    c.tick_targets(&cands);
    assert_eq!(c.builds, vec![Cell { row: 3, col: 4 }, Cell { row: 5, col: 1 }]);
    assert_eq!(c.phase, Phase::Goto);
}

#[test]
fn locate_filters_street_cells() {
    let mut c = MissionController::new(64);
    c.phase = Phase::Locate;
    let _ = c.tick_begin(0, 0);
    let cands = vec![candidate(3, 4, true), candidate(5, 1, false), candidate(2, 2, true)];
    c.tick_targets(&cands);
    assert_eq!(c.builds, vec![Cell { row: 5, col: 1 }]);
    assert_eq!(c.phase, Phase::Goto);
}

#[test]
fn locate_empty_falls_back_to_discover() {
    // Zero filtered candidates: straight back to `Discover`.
    let mut c = MissionController::new(64);
    c.phase = Phase::Locate;
    let _ = c.tick_begin(0, 0);
    c.tick_targets(&vec![]);
    assert_eq!(c.phase, Phase::Discover);
    assert!(c.builds.is_empty());
}

#[test]
fn locate_all_street_falls_back_to_discover() {
    let mut c = MissionController::new(64);
    c.phase = Phase::Locate;
    let _ = c.tick_begin(0, 0);
    c.tick_targets(&vec![candidate(1, 1, true), candidate(2, 2, true)]);
    assert_eq!(c.phase, Phase::Discover);
    assert!(c.builds.is_empty());
}

#[test]
fn locate_rocks_variant_fills_rock_queue() {
    let mut c = MissionController::new(64);
    c.phase = Phase::Locate;
    let _ = c.tick_begin(0, 0);
    let cands = vec![candidate(8, 8, false), candidate(1, 2, true)];
    c.locate_rocks(&cands);
    assert_eq!(c.rocks, vec![Cell { row: 8, col: 8 }]);
    assert_eq!(c.phase, Phase::Find);
}

#[test]
fn locate_rocks_empty_falls_back_to_discover() {
    let mut c = MissionController::new(64);
    c.phase = Phase::Locate;
    let _ = c.tick_begin(0, 0);
    c.locate_rocks(&vec![candidate(1, 2, true)]);
    assert_eq!(c.rocks, Vec::<Cell>::new());
    assert_eq!(c.phase, Phase::Discover);
}

#[test]
fn collect_success_completing_goal_advances_to_build() {
    // Count > 0 and the tracker's goal becomes satisfied: next phase `Build`.
    let mut c = MissionController::new(64);
    c.phase = Phase::Collect;
    let (q, cmds) = c.tick_begin(0, 0);
    assert_eq!(q, Query::Collect);
    assert!(cmds.is_empty());
    c.tick_collected(Some(5));
    assert_eq!(c.progress, 5);
    assert_eq!(c.phase, Phase::Build);
}

#[test]
fn collect_partial_count_returns_to_find() {
    let mut c = MissionController::new(64);
    c.phase = Phase::Collect;
    let _ = c.tick_begin(0, 0);
    c.tick_collected(Some(2));
    assert_eq!(c.progress, 2);
    assert_eq!(c.phase, Phase::Find);
}

#[test]
fn collect_failure_returns_to_find() {
    let mut c = MissionController::new(64);
    c.phase = Phase::Collect;
    let _ = c.tick_begin(0, 0);
    c.tick_collected(None);
    assert_eq!(c.progress, 0);
    assert_eq!(c.phase, Phase::Find);
}

#[test]
fn collect_progress_is_capped_at_requirement() {
    let mut c = MissionController::new(64);
    c.phase = Phase::Collect;
    c.progress = 3;
    let _ = c.tick_begin(0, 0);
    c.tick_collected(Some(100));
    assert_eq!(c.progress, 5);
    assert_eq!(c.phase, Phase::Build);
}

#[test]
fn collect_accumulates_across_ticks() {
    let mut c = MissionController::new(64);
    c.phase = Phase::Collect;
    let _ = c.tick_begin(0, 0);
    c.tick_collected(Some(2));
    assert_eq!(c.phase, Phase::Find);
    c.phase = Phase::Collect;
    let _ = c.tick_begin(0, 0);
    c.tick_collected(Some(3));
    assert_eq!(c.progress, 5);
    assert_eq!(c.phase, Phase::Build);
}

#[test]
fn terminate_signals_done_every_tick() {
    let mut c = MissionController::new(64);
    c.phase = Phase::Terminate;
    let (q, cmds) = c.tick_begin(0, 0);
    assert_eq!(q, Query::Done);
    assert_eq!(cmds, vec![builder_ai::state::Cmd::SignalDone]);
    assert_eq!(c.phase, Phase::Terminate);
    let (_, cmds2) = c.tick_begin(0, 0);
    assert_eq!(cmds2, vec![builder_ai::state::Cmd::SignalDone]);
}
