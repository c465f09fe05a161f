use vstd::prelude::*;
use crate::state::{
    BuildMode, BuildResult, Candidate, Cell, Cmd, Dir, NavAction, Pending, Phase, Query,
    ScanVerdict,
};
use crate::model::{
    action_cmds, advance_t, build_cmds, build_pattern, build_steps_cmds, built_t, collect_t,
    dance_cmds, dance_pattern, discover_t, find_begin_t, goto_begin_t, init_state, kept_cells,
    locate_rocks_t, locate_t, move_cmds, plan_t, tick_begin_t, INITIAL_SCAN_RADIUS, ModelState,
    ROCKS_REQUIRED,
};

verus! {

/// The mission controller: the phase register, the target and action queues,
/// the position cache, and the collection-goal bookkeeping. The host drives it
/// one tick at a time: `tick_begin` dispatches on the phase and either
/// finishes the tick or names the one collaborator to consult; the matching
/// reply method consumes that collaborator's result and finishes the tick.
/// Commands handed back are performed by the host, which owns the world.
pub struct MissionController {
    pub phase: Phase,
    pub pending: Pending,
    pub row: usize,
    pub col: usize,
    pub world_size: usize,
    pub scan_radius: usize,
    pub rocks: Vec<Cell>,
    pub builds: Vec<Cell>,
    pub actions: Vec<NavAction>,
    pub progress: usize,
    pub required: usize,
    pub build_mode: BuildMode,
}

impl View for MissionController {
    type V = ModelState;

    open spec fn view(&self) -> ModelState {
        ModelState {
            phase: self.phase,
            pending: self.pending,
            row: self.row,
            col: self.col,
            world_size: self.world_size,
            scan_radius: self.scan_radius,
            rocks: self.rocks@,
            builds: self.builds@,
            actions: self.actions@,
            progress: self.progress,
            required: self.required,
            build_mode: self.build_mode,
        }
    }
}

/// Append the commands that execute one navigation directive.
fn push_action_cmds(cmds: &mut Vec<Cmd>, a: NavAction)
    ensures
        final(cmds)@ == old(cmds)@ + action_cmds(a),
{
    match a {
        NavAction::North => {
            cmds.push(Cmd::Move(Dir::Up));
            cmds.push(Cmd::RefreshView);
            proof {
                assert(cmds@ =~= old(cmds)@ + action_cmds(a));
            }
        },
        NavAction::South => {
            cmds.push(Cmd::Move(Dir::Down));
            cmds.push(Cmd::RefreshView);
            proof {
                assert(cmds@ =~= old(cmds)@ + action_cmds(a));
            }
        },
        NavAction::East => {
            cmds.push(Cmd::Move(Dir::Right));
            cmds.push(Cmd::RefreshView);
            proof {
                assert(cmds@ =~= old(cmds)@ + action_cmds(a));
            }
        },
        NavAction::West => {
            cmds.push(Cmd::Move(Dir::Left));
            cmds.push(Cmd::RefreshView);
            proof {
                assert(cmds@ =~= old(cmds)@ + action_cmds(a));
            }
        },
        NavAction::Teleport(r, c) => {
            cmds.push(Cmd::Teleport(r, c));
            proof {
                assert(cmds@ =~= old(cmds)@ + action_cmds(a));
            }
        },
    }
}

/// The patterned-build direction table as a vector.
fn build_pattern_vec() -> (v: Vec<Dir>)
    ensures
        v@ == build_pattern(),
{
    let mut v: Vec<Dir> = Vec::new();
    v.push(Dir::Left);
    v.push(Dir::Left);
    v.push(Dir::Up);
    v.push(Dir::Right);
    v.push(Dir::Right);
    v.push(Dir::Down);
    v.push(Dir::Down);
    v.push(Dir::Left);
    v.push(Dir::Left);
    v.push(Dir::Left);
    v.push(Dir::Up);
    v.push(Dir::Up);
    v.push(Dir::Up);
    v.push(Dir::Right);
    v.push(Dir::Right);
    v.push(Dir::Right);
    proof {
        assert(v@ =~= build_pattern());
    }
    v
}

/// The dance direction table as a vector.
fn dance_pattern_vec() -> (v: Vec<Dir>)
    ensures
        v@ == dance_pattern(),
{
    let mut v: Vec<Dir> = Vec::new();
    v.push(Dir::Left);
    v.push(Dir::Right);
    v.push(Dir::Up);
    v.push(Dir::Down);
    v.push(Dir::Right);
    v.push(Dir::Up);
    v.push(Dir::Down);
    v.push(Dir::Right);
    v.push(Dir::Left);
    v.push(Dir::Up);
    v.push(Dir::Right);
    v.push(Dir::Left);
    v.push(Dir::Up);
    v.push(Dir::Down);
    v.push(Dir::Left);
    v.push(Dir::Up);
    v.push(Dir::Down);
    v.push(Dir::Left);
    v.push(Dir::Right);
    v.push(Dir::Right);
    v.push(Dir::Down);
    proof {
        assert(v@ =~= dance_pattern());
    }
    v
}

/// The full fixed command sequence of one patterned build tick.
pub fn build_commands() -> (cmds: Vec<Cmd>)
    ensures
        cmds@ == build_cmds(),
{
    let dirs = build_pattern_vec();
    let mut cmds: Vec<Cmd> = Vec::new();
    cmds.push(Cmd::RefreshView);
    let mut i: usize = 0;
    while i < dirs.len()
        invariant
            dirs@ == build_pattern(),
            i <= dirs.len(),
            cmds@ == seq![Cmd::RefreshView] + build_steps_cmds(build_pattern(), i as int),
        decreases dirs.len() - i,
    {
        let d = dirs[i];
        cmds.push(Cmd::ClearObstacle(d));
        cmds.push(Cmd::BuildStreet(d));
        cmds.push(Cmd::Move(d));
        cmds.push(Cmd::RefreshView);
        proof {
            assert(cmds@ =~= seq![Cmd::RefreshView] + build_steps_cmds(
                build_pattern(),
                i as int + 1,
            ));
        }
        i = i + 1;
    }
    cmds.push(Cmd::Move(Dir::Left));
    cmds.push(Cmd::Move(Dir::Down));
    cmds.push(Cmd::Move(Dir::Left));
    cmds.push(Cmd::Move(Dir::Down));
    proof {
        assert(cmds@ =~= build_cmds());
    }
    cmds
}

/// The full fixed command sequence of one dance tick.
pub fn dance_commands() -> (cmds: Vec<Cmd>)
    ensures
        cmds@ == dance_cmds(),
{
    let dirs = dance_pattern_vec();
    let mut cmds: Vec<Cmd> = Vec::new();
    let mut i: usize = 0;
    while i < dirs.len()
        invariant
            dirs@ == dance_pattern(),
            i <= dirs.len(),
            cmds@ == move_cmds(dance_pattern(), i as int),
        decreases dirs.len() - i,
    {
        cmds.push(Cmd::Move(dirs[i]));
        proof {
            assert(cmds@ =~= move_cmds(dance_pattern(), i as int + 1));
        }
        i = i + 1;
    }
    proof {
        assert(cmds@ =~= dance_cmds());
    }
    cmds
}

/// Filter a candidate list down to the cells not already on street tiles,
/// keeping the reported order.
fn filter_candidates(candidates: &Vec<Candidate>) -> (kept: Vec<Cell>)
    ensures
        kept@ == kept_cells(candidates@),
{
    let mut kept: Vec<Cell> = Vec::new();
    let mut i: usize = 0;
    while i < candidates.len()
        invariant
            i <= candidates.len(),
            kept@ == kept_cells(candidates@.take(i as int)),
        decreases candidates.len() - i,
    {
        let c = candidates[i];
        if !c.on_street {
            kept.push(c.cell);
        }
        proof {
            assert(candidates@.take(i as int + 1).drop_last() =~= candidates@.take(i as int));
            assert(candidates@.take(i as int + 1).last() == candidates@[i as int]);
            assert(kept@ =~= kept_cells(candidates@.take(i as int + 1)));
        }
        i = i + 1;
    }
    proof {
        assert(candidates@.take(candidates@.len() as int) =~= candidates@);
    }
    kept
}

impl MissionController {
    /// A controller for a world of the given size: phase `Ready`, empty
    /// queues, zero progress, patterned construction.
    pub fn new(world_size: usize) -> (r: MissionController)
        ensures
            r@ == init_state(world_size),
    {
        let r = MissionController {
            phase: Phase::Ready,
            pending: Pending::Idle,
            row: 0,
            col: 0,
            world_size,
            scan_radius: INITIAL_SCAN_RADIUS,
            rocks: Vec::new(),
            builds: Vec::new(),
            actions: Vec::new(),
            progress: 0,
            required: ROCKS_REQUIRED,
            build_mode: BuildMode::Patterned,
        };
        proof {
            assert(r@ =~= init_state(world_size));
        }
        r
    }

    /// Drain one step of the non-empty action queue, as `advance_t` says:
    /// execute the front directive while more than one remains; discard a
    /// queue reduced to a single entry and turn to collection.
    fn advance(&mut self) -> (cmds: Vec<Cmd>)
        requires
            old(self)@.actions.len() >= 1,
        ensures
            final(self)@ == advance_t(old(self)@).0,
            cmds@ == advance_t(old(self)@).1,
    {
        let mut cmds: Vec<Cmd> = Vec::new();
        if self.actions.len() > 1 {
            let a = self.actions.remove(0);
            push_action_cmds(&mut cmds, a);
            proof {
                assert(self.actions@ =~= old(self)@.actions.drop_first());
                assert(cmds@ =~= action_cmds(old(self)@.actions[0]));
            }
        }
        if self.actions.len() == 1 {
            self.actions = Vec::new();
            self.phase = Phase::Collect;
        }
        proof {
            assert(self@ =~= advance_t(old(self)@).0);
        }
        cmds
    }

    /// The `Goto` handler, first half, as `goto_begin_t` says.
    fn goto_begin(&mut self) -> (r: (Query, Vec<Cmd>))
        requires
            old(self)@.phase is Goto,
            old(self)@.pending is Idle,
        ensures
            final(self)@ == goto_begin_t(old(self)@).state,
            r.0 == goto_begin_t(old(self)@).query,
            r.1@ == goto_begin_t(old(self)@).cmds,
    {
        if self.actions.len() == 0 && self.builds.len() == 0 {
            self.phase = Phase::Locate;
            proof {
                assert(self@ =~= goto_begin_t(old(self)@).state);
            }
            (Query::Done, Vec::new())
        } else if self.actions.len() == 0 {
            let target = self.builds.remove(0);
            self.pending = Pending::AwaitPlan;
            proof {
                assert(self.builds@ =~= old(self)@.builds.drop_first());
                assert(self@ =~= goto_begin_t(old(self)@).state);
            }
            (Query::Plan(target.row, target.col), Vec::new())
        } else {
            let cmds = self.advance();
            (Query::Done, cmds)
        }
    }

    /// The `Find` handler, first half, as `find_begin_t` says: the same
    /// navigation policy as `Goto`, consuming the rock queue instead.
    fn find_begin(&mut self) -> (r: (Query, Vec<Cmd>))
        requires
            old(self)@.phase is Find,
            old(self)@.pending is Idle,
        ensures
            final(self)@ == find_begin_t(old(self)@).state,
            r.0 == find_begin_t(old(self)@).query,
            r.1@ == find_begin_t(old(self)@).cmds,
    {
        if self.actions.len() == 0 && self.rocks.len() == 0 {
            self.phase = Phase::Locate;
            proof {
                assert(self@ =~= find_begin_t(old(self)@).state);
            }
            (Query::Done, Vec::new())
        } else if self.actions.len() == 0 {
            let target = self.rocks.remove(0);
            self.pending = Pending::AwaitPlan;
            proof {
                assert(self.rocks@ =~= old(self)@.rocks.drop_first());
                assert(self@ =~= find_begin_t(old(self)@).state);
            }
            (Query::Plan(target.row, target.col), Vec::new())
        } else {
            let cmds = self.advance();
            (Query::Done, cmds)
        }
    }

    /// One tick, first half: refresh the position cache from the host's
    /// authoritative coordinates, then dispatch on the current phase. Either
    /// the tick is finished (`Query::Done`, with the commands to perform) or
    /// exactly one collaborator must be consulted; until its reply lands the
    /// phase is untouched.
    pub fn tick_begin(&mut self, row: usize, col: usize) -> (r: (Query, Vec<Cmd>))
        requires
            old(self)@.pending is Idle,
        ensures
            final(self)@ == tick_begin_t(old(self)@, row, col).state,
            r.0 == tick_begin_t(old(self)@, row, col).query,
            r.1@ == tick_begin_t(old(self)@, row, col).cmds,
    {
        self.row = row;
        self.col = col;
        match self.phase {
            Phase::Ready => {
                self.phase = Phase::Discover;
                proof {
                    assert(self@ =~= tick_begin_t(old(self)@, row, col).state);
                }
                (Query::Done, Vec::new())
            },
            Phase::Discover => {
                self.pending = Pending::AwaitScan;
                proof {
                    assert(self@ =~= tick_begin_t(old(self)@, row, col).state);
                }
                (Query::Scan(self.scan_radius), Vec::new())
            },
            Phase::Locate => {
                self.pending = Pending::AwaitTargets;
                proof {
                    assert(self@ =~= tick_begin_t(old(self)@, row, col).state);
                }
                (Query::Targets, Vec::new())
            },
            Phase::Find => {
                let r = self.find_begin();
                proof {
                    assert(self@ =~= tick_begin_t(old(self)@, row, col).state);
                }
                r
            },
            Phase::Goto => {
                let r = self.goto_begin();
                proof {
                    assert(self@ =~= tick_begin_t(old(self)@, row, col).state);
                }
                r
            },
            Phase::Collect => {
                self.pending = Pending::AwaitCollect;
                proof {
                    assert(self@ =~= tick_begin_t(old(self)@, row, col).state);
                }
                (Query::Collect, Vec::new())
            },
            Phase::Build => {
                match self.build_mode {
                    BuildMode::Patterned => {
                        let cmds = build_commands();
                        self.phase = Phase::Dance;
                        proof {
                            assert(self@ =~= tick_begin_t(old(self)@, row, col).state);
                        }
                        (Query::Done, cmds)
                    },
                    BuildMode::Simple => {
                        self.pending = Pending::AwaitBuild;
                        proof {
                            assert(self@ =~= tick_begin_t(old(self)@, row, col).state);
                        }
                        (Query::Construct(Dir::Left), Vec::new())
                    },
                }
            },
            Phase::Dance => {
                let cmds = dance_commands();
                self.phase = Phase::Terminate;
                proof {
                    assert(self@ =~= tick_begin_t(old(self)@, row, col).state);
                }
                (Query::Done, cmds)
            },
            Phase::Terminate => {
                let mut cmds: Vec<Cmd> = Vec::new();
                cmds.push(Cmd::SignalDone);
                proof {
                    assert(self@ =~= tick_begin_t(old(self)@, row, col).state);
                    assert(cmds@ =~= tick_begin_t(old(self)@, row, col).cmds);
                }
                (Query::Done, cmds)
            },
        }
    }

    /// Reply to `Query::Scan` with the scanner's verdict, as `discover_t`
    /// says: the radius widens for the next scan, a completed scan advances
    /// to `Locate`, and an unfinished or failed one stays for a retry.
    pub fn tick_scanned(&mut self, verdict: ScanVerdict)
        requires
            old(self)@.pending is AwaitScan,
        ensures
            final(self)@ == discover_t(old(self)@, verdict),
    {
        if self.scan_radius < usize::MAX {
            self.scan_radius = self.scan_radius + 1;
        }
        self.pending = Pending::Idle;
        if let ScanVerdict::Complete = verdict {
            self.phase = Phase::Locate;
        }
        proof {
            assert(self@ =~= discover_t(old(self)@, verdict));
        }
    }

    /// Reply to `Query::Targets` with the planner's candidate list, as
    /// `locate_t` says: the build-site queue is rebuilt from scratch with
    /// street cells filtered out; an empty result falls back to `Discover`,
    /// otherwise `Goto` is next.
    pub fn tick_targets(&mut self, candidates: &Vec<Candidate>)
        requires
            old(self)@.pending is AwaitTargets,
        ensures
            final(self)@ == locate_t(old(self)@, candidates@),
    {
        let kept = filter_candidates(candidates);
        self.builds = kept;
        self.pending = Pending::Idle;
        if self.builds.len() == 0 {
            self.phase = Phase::Discover;
        } else {
            self.phase = Phase::Goto;
        }
        proof {
            assert(self@ =~= locate_t(old(self)@, candidates@));
        }
    }

    /// The resource-cell variant of the target-discovery reply: a host that
    /// chases raw resource cells answers `Query::Targets` with this method
    /// instead, as `locate_rocks_t` says; the rock queue is rebuilt and a
    /// non-empty result advances to `Find`.
    pub fn locate_rocks(&mut self, candidates: &Vec<Candidate>)
        requires
            old(self)@.pending is AwaitTargets,
        ensures
            final(self)@ == locate_rocks_t(old(self)@, candidates@),
    {
        let kept = filter_candidates(candidates);
        self.rocks = kept;
        self.pending = Pending::Idle;
        if self.rocks.len() == 0 {
            self.phase = Phase::Discover;
        } else {
            self.phase = Phase::Find;
        }
        proof {
            assert(self@ =~= locate_rocks_t(old(self)@, candidates@));
        }
    }

    /// Reply to `Query::Plan` with the planner's route (or `None` when the
    /// target is unreachable), as `plan_t` says: an unreachable target stays
    /// dropped, an empty route means the target is adjacent (one orienting
    /// move, then collect this very tick), any other route is loaded and its
    /// first step drained.
    pub fn tick_planned(&mut self, plan: Option<Vec<NavAction>>) -> (cmds: Vec<Cmd>)
        requires
            old(self)@.pending is AwaitPlan,
            old(self)@.actions.len() == 0,
        ensures
            final(self)@ == plan_t(old(self)@, plan_model(&plan)).0,
            cmds@ == plan_t(old(self)@, plan_model(&plan)).1,
    {
        let ghost pm = plan_model(&plan);
        self.pending = Pending::Idle;
        match plan {
            Option::None => {
                proof {
                    assert(self@ =~= plan_t(old(self)@, pm).0);
                }
                Vec::new()
            },
            Option::Some(route) => {
                if route.len() == 0 {
                    self.phase = Phase::Collect;
                    let mut cmds: Vec<Cmd> = Vec::new();
                    cmds.push(Cmd::Move(Dir::Left));
                    cmds.push(Cmd::RefreshView);
                    proof {
                        assert(self@ =~= plan_t(old(self)@, pm).0);
                        assert(cmds@ =~= plan_t(old(self)@, pm).1);
                    }
                    cmds
                } else {
                    self.actions = route;
                    let cmds = self.advance();
                    proof {
                        assert(self@ =~= plan_t(old(self)@, pm).0);
                        assert(cmds@ =~= plan_t(old(self)@, pm).1);
                    }
                    cmds
                }
            },
        }
    }

    /// Reply to `Query::Collect` with the collector's count (or `None` on
    /// failure), as `collect_t` says: the count is reported to the goal, and
    /// a now-satisfied goal advances to `Build` while anything else returns
    /// to `Find`. A failed or empty collection is never fatal.
    pub fn tick_collected(&mut self, got: Option<usize>)
        requires
            old(self)@.pending is AwaitCollect,
            old(self)@.progress <= old(self)@.required,
        ensures
            final(self)@ == collect_t(old(self)@, got),
    {
        if let Option::Some(c) = got {
            if c >= self.required - self.progress {
                self.progress = self.required;
            } else {
                self.progress = self.progress + c;
            }
        }
        self.pending = Pending::Idle;
        if self.progress >= self.required {
            self.phase = Phase::Build;
        } else {
            self.phase = Phase::Find;
        }
        proof {
            assert(self@ =~= collect_t(old(self)@, got));
        }
    }

    /// Reply to `Query::Construct` with the constructor's verdict, as
    /// `built_t` says: success terminates the mission, a material shortage
    /// falls back to `Discover` with both queues untouched, and any other
    /// failure is retried next tick.
    pub fn tick_built(&mut self, result: BuildResult)
        requires
            old(self)@.pending is AwaitBuild,
        ensures
            final(self)@ == built_t(old(self)@, result),
    {
        self.pending = Pending::Idle;
        match result {
            BuildResult::Success => {
                self.phase = Phase::Terminate;
            },
            BuildResult::MaterialShortage => {
                self.phase = Phase::Discover;
            },
            BuildResult::Failure => {},
        }
        proof {
            assert(self@ =~= built_t(old(self)@, result));
        }
    }
}

/// The mathematical value of a planner reply.
pub open spec fn plan_model(plan: &Option<Vec<NavAction>>) -> Option<Seq<NavAction>> {
    match plan {
        Option::None => Option::None,
        Option::Some(v) => Option::Some(v@),
    }
}

} // verus!
