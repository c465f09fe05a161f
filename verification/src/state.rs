use vstd::prelude::*;

verus! {

/// The authoritative phase of the mission state machine. Exactly one phase is
/// active per tick; `Ready` is the initial phase and `Terminate` has no
/// outgoing transition other than staying put.
#[derive(Clone, Copy, PartialEq, Eq, Structural, Debug)]
pub enum Phase {
    Ready,
    Discover,
    Locate,
    Find,
    Collect,
    Build,
    Dance,
    Goto,
    Terminate,
}

impl Default for Phase {
    /// A freshly built controller starts in `Ready`.
    fn default() -> (r: Self)
        ensures
            r is Ready,
    {
        Phase::Ready
    }
}

/// A cardinal direction for a single-step move, an obstacle clear, or one
/// street segment.
#[derive(Clone, Copy, PartialEq, Eq, Structural, Debug)]
pub enum Dir {
    Up,
    Down,
    Left,
    Right,
}

/// One atomic navigation directive of the action queue: a cardinal move or a
/// teleport to explicit coordinates.
#[derive(Clone, Copy, PartialEq, Eq, Structural, Debug)]
pub enum NavAction {
    North,
    South,
    East,
    West,
    Teleport(usize, usize),
}

/// A grid coordinate.
#[derive(Clone, Copy, PartialEq, Eq, Structural, Debug)]
pub struct Cell {
    pub row: usize,
    pub col: usize,
}

/// One cell reported by the planner's content index, together with whether its
/// tile is already classified as street. Street cells are filtered out of the
/// target queue so the agent does not re-path over ground it already built.
#[derive(Clone, Copy, PartialEq, Eq, Structural, Debug)]
pub struct Candidate {
    pub cell: Cell,
    pub on_street: bool,
}

/// A primitive world effect the controller orders for the current tick. The
/// host performs them in order; their outcomes, if any, come back only as the
/// next tick's inputs.
#[derive(Clone, Copy, PartialEq, Eq, Structural, Debug)]
pub enum Cmd {
    /// Single-step move in a direction, consuming energy.
    Move(Dir),
    /// Teleport to the given (row, col).
    Teleport(usize, usize),
    /// Refresh the agent's view of the tiles around it.
    RefreshView,
    /// Best-effort removal of whatever blocks the adjacent tile.
    ClearObstacle(Dir),
    /// Lay one street segment of length one in a direction.
    BuildStreet(Dir),
    /// Emit the terminal lifecycle signal to the host.
    SignalDone,
}

/// The area scanner's verdict for one scan call.
#[derive(Clone, Copy, PartialEq, Eq, Structural, Debug)]
pub enum ScanVerdict {
    /// The scan is not finished yet; stay in the discover phase.
    Scanning,
    /// The scan completed and the revealed map can be interpreted.
    Complete,
    /// The scan failed; non-fatal, retried with a widened radius.
    Failed,
}

/// The constructor's verdict for a single-call (simple mode) build attempt.
#[derive(Clone, Copy, PartialEq, Eq, Structural, Debug)]
pub enum BuildResult {
    Success,
    /// Not enough collected material; fall back to discovery to gather more.
    MaterialShortage,
    /// Any other failure; non-fatal, retried next tick.
    Failure,
}

/// Which of the two valid construction designs the controller runs.
#[derive(Clone, Copy, PartialEq, Eq, Structural, Debug)]
pub enum BuildMode {
    /// A fixed choreography of (clear, build, move) triples in one tick.
    Patterned,
    /// One construction call per tick, branching on its result.
    Simple,
}

/// Which collaborator reply the controller is waiting for inside the current
/// tick. `Idle` between ticks.
#[derive(Clone, Copy, PartialEq, Eq, Structural, Debug)]
pub enum Pending {
    Idle,
    AwaitScan,
    AwaitTargets,
    AwaitPlan,
    AwaitCollect,
    AwaitBuild,
}

/// What `tick_begin` asks of the host: either the tick is already finished
/// (`Done`, with the commands to perform), or exactly one collaborator must be
/// consulted and its result handed back through the matching reply method.
#[derive(Clone, Copy, PartialEq, Eq, Structural, Debug)]
pub enum Query {
    /// No collaborator needed; the tick is complete.
    Done,
    /// Run the area scanner with the given radius, reply with `tick_scanned`.
    Scan(usize),
    /// Query the planner's content index, reply with `tick_targets`.
    Targets,
    /// Plan a route to (row, col), reply with `tick_planned`.
    Plan(usize, usize),
    /// Attempt a collection, reply with `tick_collected`.
    Collect,
    /// Lay one street segment in the given direction, reply with `tick_built`.
    Construct(Dir),
}

} // verus!
