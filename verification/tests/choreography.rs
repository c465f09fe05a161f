use builder_ai::controller::{build_commands, dance_commands, MissionController};
use builder_ai::state::{
    BuildMode, BuildResult, Candidate, Cell, Cmd, Dir, NavAction, Phase, Query, ScanVerdict,
};

fn expected_build_commands() -> Vec<Cmd> {
    let pattern = vec![
        Dir::Left,
        Dir::Left,
        Dir::Up,
        Dir::Right,
        Dir::Right,
        Dir::Down,
        Dir::Down,
        Dir::Left,
        Dir::Left,
        Dir::Left,
        Dir::Up,
        Dir::Up,
        Dir::Up,
        Dir::Right,
        Dir::Right,
        Dir::Right,
    ];
    let mut cmds = vec![Cmd::RefreshView];
    for d in pattern {
        cmds.push(Cmd::ClearObstacle(d));
        cmds.push(Cmd::BuildStreet(d));
        cmds.push(Cmd::Move(d));
        cmds.push(Cmd::RefreshView);
    }
    cmds.push(Cmd::Move(Dir::Left));
    cmds.push(Cmd::Move(Dir::Down));
    cmds.push(Cmd::Move(Dir::Left));
    cmds.push(Cmd::Move(Dir::Down));
    cmds
}

fn expected_dance_commands() -> Vec<Cmd> {
    let pattern = vec![
        Dir::Left,
        Dir::Right,
        Dir::Up,
        Dir::Down,
        Dir::Right,
        Dir::Up,
        Dir::Down,
        Dir::Right,
        Dir::Left,
        Dir::Up,
        Dir::Right,
        Dir::Left,
        Dir::Up,
        Dir::Down,
        Dir::Left,
        Dir::Up,
        Dir::Down,
        Dir::Left,
        Dir::Right,
        Dir::Right,
        Dir::Down,
    ];
    pattern.into_iter().map(Cmd::Move).collect()
}

#[test]
fn patterned_build_is_the_full_fixed_sequence() {
    // The patterned build runs its whole scripted choreography in one tick --
    // per-step failures are swallowed by the host and change nothing -- and
    // ends in `Dance` after exactly the scripted number of commands.
    let mut c = MissionController::new(64);
    c.phase = Phase::Build;
    let (q, cmds) = c.tick_begin(0, 0);
    assert_eq!(q, Query::Done);
    assert_eq!(cmds.len(), 69);
    assert_eq!(cmds, expected_build_commands());
    assert_eq!(c.phase, Phase::Dance);
}

#[test]
fn build_commands_match_the_declared_table() {
    assert_eq!(build_commands(), expected_build_commands());
}

#[test]
fn patterned_build_leaves_queues_alone() {
    let mut c = MissionController::new(64);
    c.phase = Phase::Build;
    c.builds = vec![Cell { row: 1, col: 2 }];
    c.actions = vec![NavAction::North];
    let _ = c.tick_begin(0, 0);
    assert_eq!(c.builds, vec![Cell { row: 1, col: 2 }]);
    assert_eq!(c.actions, vec![NavAction::North]);
}

#[test]
fn simple_build_shortage_falls_back_to_discover() {
    // Simple mode: the construction call reports a material shortage; the
    // phase returns to `Discover` and both queues are exactly as before.
    let mut c = MissionController::new(64);
    c.build_mode = BuildMode::Simple;
    c.phase = Phase::Build;
    c.builds = vec![Cell { row: 3, col: 4 }];
    c.rocks = vec![Cell { row: 5, col: 1 }];
    let (q, cmds) = c.tick_begin(0, 0);
    assert_eq!(q, Query::Construct(Dir::Left));
    assert!(cmds.is_empty());
    c.tick_built(BuildResult::MaterialShortage);
    assert_eq!(c.phase, Phase::Discover);
    assert_eq!(c.builds, vec![Cell { row: 3, col: 4 }]);
    assert_eq!(c.rocks, vec![Cell { row: 5, col: 1 }]);
    assert!(c.actions.is_empty());
}

#[test]
fn simple_build_success_terminates() {
    let mut c = MissionController::new(64);
    c.build_mode = BuildMode::Simple;
    c.phase = Phase::Build;
    let _ = c.tick_begin(0, 0);
    c.tick_built(BuildResult::Success);
    assert_eq!(c.phase, Phase::Terminate);
}

#[test]
fn simple_build_other_failure_retries_next_tick() {
    let mut c = MissionController::new(64);
    c.build_mode = BuildMode::Simple;
    c.phase = Phase::Build;
    let _ = c.tick_begin(0, 0);
    c.tick_built(BuildResult::Failure);
    assert_eq!(c.phase, Phase::Build);
}

#[test]
fn dance_runs_the_fixed_moves_then_terminates() {
    let mut c = MissionController::new(64);
    c.phase = Phase::Dance;
    let (q, cmds) = c.tick_begin(0, 0);
    assert_eq!(q, Query::Done);
    assert_eq!(cmds.len(), 21);
    assert_eq!(cmds, expected_dance_commands());
    assert_eq!(c.phase, Phase::Terminate);
}

#[test]
fn dance_commands_match_the_declared_table() {
    assert_eq!(dance_commands(), expected_dance_commands());
}

#[test]
fn mission_happy_path_reaches_terminate() {
    // Drive a whole mission through the protocol: discover, locate, navigate,
    // collect enough rock, build, dance, terminate.
    let mut c = MissionController::new(64);
    let (q, _) = c.tick_begin(0, 0);
    assert_eq!(q, Query::Done);
    assert_eq!(c.phase, Phase::Discover);

    let (q, _) = c.tick_begin(0, 0);
    assert_eq!(q, Query::Scan(5));
    c.tick_scanned(ScanVerdict::Complete);
    assert_eq!(c.phase, Phase::Locate);

    let (q, _) = c.tick_begin(0, 0);
    assert_eq!(q, Query::Targets);
    c.tick_targets(&vec![Candidate { cell: Cell { row: 0, col: 2 }, on_street: false }]);
    assert_eq!(c.phase, Phase::Goto);

    let (q, _) = c.tick_begin(0, 0);
    assert_eq!(q, Query::Plan(0, 2));
    let cmds = c.tick_planned(Some(vec![NavAction::East, NavAction::East]));
    assert_eq!(cmds, vec![Cmd::Move(Dir::Right), Cmd::RefreshView]);
    assert_eq!(c.phase, Phase::Collect);

    let (q, _) = c.tick_begin(0, 1);
    assert_eq!(q, Query::Collect);
    c.tick_collected(Some(5));
    assert_eq!(c.phase, Phase::Build);

    let (_, cmds) = c.tick_begin(0, 1);
    assert_eq!(cmds.len(), 69);
    assert_eq!(c.phase, Phase::Dance);

    let (_, cmds) = c.tick_begin(0, 1);
    assert_eq!(cmds.len(), 21);
    assert_eq!(c.phase, Phase::Terminate);

    let (_, cmds) = c.tick_begin(0, 1);
    assert_eq!(cmds, vec![Cmd::SignalDone]);
    assert_eq!(c.phase, Phase::Terminate);
}
