use vstd::prelude::*;
use crate::state::{
    BuildMode, BuildResult, Candidate, Cell, Cmd, Dir, NavAction, Pending, Phase, Query,
    ScanVerdict,
};

verus! {

/// How far the area scanner looks on the first scan; the radius then widens by
/// one for every further scan.
pub const INITIAL_SCAN_RADIUS: usize = 5;

/// How many units of the resource the collection goal requires before the
/// controller moves on to construction.
pub const ROCKS_REQUIRED: usize = 5;

/// The mathematical state of the mission controller: the phase register, the
/// two target queues, the action queue, the position cache, the scan radius,
/// and the collection-goal progress. Every tick of the controller is specified
/// as a function from this state (plus the tick's collaborator inputs) to the
/// next state and the commands ordered from the host.
#[verifier::ext_equal]
pub struct ModelState {
    pub phase: Phase,
    pub pending: Pending,
    pub row: usize,
    pub col: usize,
    pub world_size: usize,
    pub scan_radius: usize,
    /// Pending resource cells, consumed from the front by the `Find` phase.
    pub rocks: Seq<Cell>,
    /// Pending build-site cells, consumed from the front by the `Goto` phase.
    pub builds: Seq<Cell>,
    /// Pending navigation steps for the current target, drained from the front.
    pub actions: Seq<NavAction>,
    /// Units of resource reported to the goal so far, capped at `required`.
    pub progress: usize,
    /// Units of resource the goal demands.
    pub required: usize,
    pub build_mode: BuildMode,
}

/// What one call of `tick_begin` yields: the successor state, the commands the
/// host must perform, and the collaborator query (or `Done`).
#[verifier::ext_equal]
pub struct TickStep {
    pub state: ModelState,
    pub cmds: Seq<Cmd>,
    pub query: Query,
}

/// The state of a freshly constructed controller: `Ready`, idle, empty queues,
/// zero progress.
pub open spec fn init_state(world_size: usize) -> ModelState {
    ModelState {
        phase: Phase::Ready,
        pending: Pending::Idle,
        row: 0,
        col: 0,
        world_size: world_size,
        scan_radius: INITIAL_SCAN_RADIUS,
        rocks: Seq::empty(),
        builds: Seq::empty(),
        actions: Seq::empty(),
        progress: 0,
        required: ROCKS_REQUIRED,
        build_mode: BuildMode::Patterned,
    }
}

/// The phases a handler for `p` is allowed to leave the controller in.
pub open spec fn allowed_successors(p: Phase) -> Set<Phase> {
    match p {
        Phase::Ready => set![Phase::Discover],
        Phase::Discover => set![Phase::Discover, Phase::Locate],
        Phase::Locate => set![Phase::Discover, Phase::Goto, Phase::Find],
        Phase::Find => set![Phase::Locate, Phase::Find, Phase::Collect],
        Phase::Goto => set![Phase::Locate, Phase::Goto, Phase::Collect],
        Phase::Collect => set![Phase::Build, Phase::Find],
        Phase::Build => set![Phase::Build, Phase::Dance, Phase::Discover, Phase::Terminate],
        Phase::Dance => set![Phase::Terminate],
        Phase::Terminate => set![Phase::Terminate],
    }
}

/// The commands that execute one navigation directive: cardinal moves are
/// followed by a view refresh, a teleport is not.
pub open spec fn action_cmds(a: NavAction) -> Seq<Cmd> {
    match a {
        NavAction::North => seq![Cmd::Move(Dir::Up), Cmd::RefreshView],
        NavAction::South => seq![Cmd::Move(Dir::Down), Cmd::RefreshView],
        NavAction::East => seq![Cmd::Move(Dir::Right), Cmd::RefreshView],
        NavAction::West => seq![Cmd::Move(Dir::Left), Cmd::RefreshView],
        NavAction::Teleport(r, c) => seq![Cmd::Teleport(r, c)],
    }
}

/// The cells of a candidate list that are not already on street tiles, in the
/// order the planner reported them.
pub open spec fn kept_cells(cs: Seq<Candidate>) -> Seq<Cell>
    decreases cs.len(),
{
    if cs.len() == 0 {
        Seq::empty()
    } else {
        let rest = kept_cells(cs.drop_last());
        if cs.last().on_street {
            rest
        } else {
            rest.push(cs.last().cell)
        }
    }
}

/// `Ready` tick: hand control straight to discovery.
pub open spec fn ready_t(s: ModelState) -> ModelState {
    ModelState { phase: Phase::Discover, ..s }
}

/// `Discover` tick, given the scanner's verdict. The radius widens by one
/// after every scan (up to the machine limit); a completed scan advances to
/// `Locate`, anything else stays in `Discover` for a retry.
pub open spec fn discover_t(s: ModelState, v: ScanVerdict) -> ModelState {
    let widened = if s.scan_radius < usize::MAX {
        (s.scan_radius + 1) as usize
    } else {
        s.scan_radius
    };
    ModelState {
        scan_radius: widened,
        pending: Pending::Idle,
        phase: if v is Complete {
            Phase::Locate
        } else {
            s.phase
        },
        ..s
    }
}

/// `Locate` tick, given the planner's candidate list: rebuild the build-site
/// queue from scratch with the street cells filtered out. An empty result
/// falls back to `Discover`; otherwise navigation (`Goto`) is next.
pub open spec fn locate_t(s: ModelState, cands: Seq<Candidate>) -> ModelState {
    let kept = kept_cells(cands);
    ModelState {
        builds: kept,
        pending: Pending::Idle,
        phase: if kept.len() == 0 {
            Phase::Discover
        } else {
            Phase::Goto
        },
        ..s
    }
}

/// The resource-cell variant of the locate handler: rebuild the rock queue
/// instead, and advance to `Find` when it is non-empty.
pub open spec fn locate_rocks_t(s: ModelState, cands: Seq<Candidate>) -> ModelState {
    let kept = kept_cells(cands);
    ModelState {
        rocks: kept,
        pending: Pending::Idle,
        phase: if kept.len() == 0 {
            Phase::Discover
        } else {
            Phase::Find
        },
        ..s
    }
}

/// Drain one step of a non-empty action queue. With two or more entries the
/// front one is executed; a queue thereby (or already) reduced to exactly one
/// entry is discarded unexecuted and the controller turns to collection --
/// one step away counts as close enough to interact.
pub open spec fn advance_t(s: ModelState) -> (ModelState, Seq<Cmd>)
    recommends
        s.actions.len() >= 1,
{
    if s.actions.len() == 1 {
        (ModelState { actions: Seq::empty(), phase: Phase::Collect, ..s }, Seq::empty())
    } else if s.actions.len() == 2 {
        (
            ModelState { actions: Seq::empty(), phase: Phase::Collect, ..s },
            action_cmds(s.actions[0]),
        )
    } else {
        (ModelState { actions: s.actions.drop_first(), ..s }, action_cmds(s.actions[0]))
    }
}

/// `Goto` tick, first half. With nothing queued at all, fall back to `Locate`.
/// With an empty action queue but pending build sites, pop the front site and
/// ask the host for a route to it. Otherwise drain the action queue.
pub open spec fn goto_begin_t(s: ModelState) -> TickStep {
    if s.actions.len() == 0 && s.builds.len() == 0 {
        TickStep {
            state: ModelState { phase: Phase::Locate, ..s },
            cmds: Seq::empty(),
            query: Query::Done,
        }
    } else if s.actions.len() == 0 {
        TickStep {
            state: ModelState { builds: s.builds.drop_first(), pending: Pending::AwaitPlan, ..s },
            cmds: Seq::empty(),
            query: Query::Plan(s.builds[0].row, s.builds[0].col),
        }
    } else {
        let (s2, cmds) = advance_t(s);
        TickStep { state: s2, cmds: cmds, query: Query::Done }
    }
}

/// `Find` tick, first half: as `goto_begin_t`, but consuming the rock queue.
pub open spec fn find_begin_t(s: ModelState) -> TickStep {
    if s.actions.len() == 0 && s.rocks.len() == 0 {
        TickStep {
            state: ModelState { phase: Phase::Locate, ..s },
            cmds: Seq::empty(),
            query: Query::Done,
        }
    } else if s.actions.len() == 0 {
        TickStep {
            state: ModelState { rocks: s.rocks.drop_first(), pending: Pending::AwaitPlan, ..s },
            cmds: Seq::empty(),
            query: Query::Plan(s.rocks[0].row, s.rocks[0].col),
        }
    } else {
        let (s2, cmds) = advance_t(s);
        TickStep { state: s2, cmds: cmds, query: Query::Done }
    }
}

/// Navigation tick, second half, given the planner's answer for the popped
/// target. No route: the target stays dropped and the phase is unchanged. An
/// empty route: the target is adjacent, so make one orienting move, refresh,
/// and go collect this very tick. Otherwise load the route and drain one step.
pub open spec fn plan_t(s: ModelState, plan: Option<Seq<NavAction>>) -> (ModelState, Seq<Cmd>) {
    match plan {
        Option::None => (ModelState { pending: Pending::Idle, ..s }, Seq::empty()),
        Option::Some(route) => {
            if route.len() == 0 {
                (
                    ModelState { pending: Pending::Idle, phase: Phase::Collect, ..s },
                    seq![Cmd::Move(Dir::Left), Cmd::RefreshView],
                )
            } else {
                let (s2, cmds) = advance_t(ModelState { actions: route, ..s });
                (ModelState { pending: Pending::Idle, ..s2 }, cmds)
            }
        },
    }
}

/// `Collect` tick, given the collector's count (or `None` on failure). The
/// count is reported to the goal, whose progress is monotonic and capped at
/// the requirement; a now-satisfied goal advances to `Build`, anything else
/// returns to `Find` for the next target.
pub open spec fn collect_t(s: ModelState, got: Option<usize>) -> ModelState {
    let p = match got {
        Option::Some(c) => if s.progress + c >= s.required {
            s.required
        } else {
            (s.progress + c) as usize
        },
        Option::None => s.progress,
    };
    ModelState {
        progress: p,
        pending: Pending::Idle,
        phase: if p >= s.required {
            Phase::Build
        } else {
            Phase::Find
        },
        ..s
    }
}

/// The single-call build reply: on success the mission ends, on a material
/// shortage the controller goes back to `Discover` to gather more resource,
/// and on any other failure it stays in `Build` for a retry.
pub open spec fn built_t(s: ModelState, r: BuildResult) -> ModelState {
    ModelState {
        pending: Pending::Idle,
        phase: match r {
            BuildResult::Success => Phase::Terminate,
            BuildResult::MaterialShortage => Phase::Discover,
            BuildResult::Failure => s.phase,
        },
        ..s
    }
}

/// The direction of each (clear, build, move) triple of the patterned build,
/// in choreography order.
pub open spec fn build_pattern() -> Seq<Dir> {
    seq![
        Dir::Left,
        Dir::Left,
        Dir::Up,
        Dir::Right,
        Dir::Right,
        Dir::Down,
        Dir::Down,
        Dir::Left,
        Dir::Left,
        Dir::Left,
        Dir::Up,
        Dir::Up,
        Dir::Up,
        Dir::Right,
        Dir::Right,
        Dir::Right,
    ]
}

/// One patterned build step: clear the adjacent tile, lay one street segment,
/// step onto it, refresh the view. Each call is best-effort; failures are
/// swallowed and the choreography continues regardless.
pub open spec fn build_step_cmds(d: Dir) -> Seq<Cmd> {
    seq![Cmd::ClearObstacle(d), Cmd::BuildStreet(d), Cmd::Move(d), Cmd::RefreshView]
}

/// The commands of the first `n` patterned build steps.
pub open spec fn build_steps_cmds(dirs: Seq<Dir>, n: int) -> Seq<Cmd>
    decreases n,
{
    if n <= 0 {
        Seq::empty()
    } else {
        build_steps_cmds(dirs, n - 1) + build_step_cmds(dirs[n - 1])
    }
}

/// The four trailing repositioning moves after the pattern completes.
pub open spec fn build_tail_cmds() -> Seq<Cmd> {
    seq![Cmd::Move(Dir::Left), Cmd::Move(Dir::Down), Cmd::Move(Dir::Left), Cmd::Move(Dir::Down)]
}

/// The full fixed command sequence of one patterned build tick: an initial
/// view refresh, the sixteen triples, then the trailing moves.
pub open spec fn build_cmds() -> Seq<Cmd> {
    seq![Cmd::RefreshView] + build_steps_cmds(build_pattern(), build_pattern().len() as int)
        + build_tail_cmds()
}

/// The fixed cosmetic move sequence of the `Dance` phase, in order.
pub open spec fn dance_pattern() -> Seq<Dir> {
    seq![
        Dir::Left,
        Dir::Right,
        Dir::Up,
        Dir::Down,
        Dir::Right,
        Dir::Up,
        Dir::Down,
        Dir::Right,
        Dir::Left,
        Dir::Up,
        Dir::Right,
        Dir::Left,
        Dir::Up,
        Dir::Down,
        Dir::Left,
        Dir::Up,
        Dir::Down,
        Dir::Left,
        Dir::Right,
        Dir::Right,
        Dir::Down,
    ]
}

/// The commands of the first `n` dance moves.
pub open spec fn move_cmds(dirs: Seq<Dir>, n: int) -> Seq<Cmd>
    decreases n,
{
    if n <= 0 {
        Seq::empty()
    } else {
        move_cmds(dirs, n - 1) + seq![Cmd::Move(dirs[n - 1])]
    }
}

/// The full command sequence of one dance tick.
pub open spec fn dance_cmds() -> Seq<Cmd> {
    move_cmds(dance_pattern(), dance_pattern().len() as int)
}

/// The dispatcher: one tick, first half. The position cache is refreshed, then
/// exactly the handler of the current phase runs. It either finishes the tick
/// (`Done`, possibly with commands) or asks for exactly one collaborator
/// result, leaving the phase untouched until the reply lands.
pub open spec fn tick_begin_t(s: ModelState, row: usize, col: usize) -> TickStep {
    let s0 = ModelState { row: row, col: col, ..s };
    match s.phase {
        Phase::Ready => TickStep { state: ready_t(s0), cmds: Seq::empty(), query: Query::Done },
        Phase::Discover => TickStep {
            state: ModelState { pending: Pending::AwaitScan, ..s0 },
            cmds: Seq::empty(),
            query: Query::Scan(s.scan_radius),
        },
        Phase::Locate => TickStep {
            state: ModelState { pending: Pending::AwaitTargets, ..s0 },
            cmds: Seq::empty(),
            query: Query::Targets,
        },
        Phase::Find => find_begin_t(s0),
        Phase::Goto => goto_begin_t(s0),
        Phase::Collect => TickStep {
            state: ModelState { pending: Pending::AwaitCollect, ..s0 },
            cmds: Seq::empty(),
            query: Query::Collect,
        },
        Phase::Build => match s.build_mode {
            BuildMode::Patterned => TickStep {
                state: ModelState { phase: Phase::Dance, ..s0 },
                cmds: build_cmds(),
                query: Query::Done,
            },
            BuildMode::Simple => TickStep {
                state: ModelState { pending: Pending::AwaitBuild, ..s0 },
                cmds: Seq::empty(),
                query: Query::Construct(Dir::Left),
            },
        },
        Phase::Dance => TickStep {
            state: ModelState { phase: Phase::Terminate, ..s0 },
            cmds: dance_cmds(),
            query: Query::Done,
        },
        Phase::Terminate => TickStep { state: s0, cmds: seq![Cmd::SignalDone], query: Query::Done },
    }
}

/// The collaborator result a tick consumes, for stating whole-tick laws.
pub enum TickEvent {
    Nothing,
    Scanned(ScanVerdict),
    Targets(Seq<Candidate>),
    Planned(Option<Seq<NavAction>>),
    Collected(Option<usize>),
    Built(BuildResult),
}

/// Whether an event answers the given query.
pub open spec fn event_matches(q: Query, ev: TickEvent) -> bool {
    match q {
        Query::Done => ev is Nothing,
        Query::Scan(_) => ev is Scanned,
        Query::Targets => ev is Targets,
        Query::Plan(_, _) => ev is Planned,
        Query::Collect => ev is Collected,
        Query::Construct(_) => ev is Built,
    }
}

/// One whole tick: the dispatch, then the reply handler for whatever the
/// dispatch asked, with the commands of both halves in order.
pub open spec fn full_tick(s: ModelState, row: usize, col: usize, ev: TickEvent) -> (
    ModelState,
    Seq<Cmd>,
) {
    let step = tick_begin_t(s, row, col);
    match ev {
        TickEvent::Nothing => (step.state, step.cmds),
        TickEvent::Scanned(v) => (discover_t(step.state, v), step.cmds),
        TickEvent::Targets(cands) => (locate_t(step.state, cands), step.cmds),
        TickEvent::Planned(plan) => {
            let (s2, cmds) = plan_t(step.state, plan);
            (s2, step.cmds + cmds)
        },
        TickEvent::Collected(got) => (collect_t(step.state, got), step.cmds),
        TickEvent::Built(r) => (built_t(step.state, r), step.cmds),
    }
}

} // verus!
