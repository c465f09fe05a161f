use vstd::prelude::*;
use crate::state::{Candidate, NavAction, Phase, Query, ScanVerdict};
use crate::model::{
    allowed_successors, collect_t, discover_t, event_matches, full_tick, kept_cells,
    locate_rocks_t, locate_t, tick_begin_t, ModelState, TickEvent,
};

verus! {

/// Every phase is handled: the dispatch is a total function of the phase,
/// and one whole tick, whatever its collaborator input, leaves the phase
/// inside the allowed successor set of the phase it dispatched on.
pub proof fn lemma_tick_phase_in_successors(s: ModelState, row: usize, col: usize, ev: TickEvent)
    requires
        s.pending is Idle,
        event_matches(tick_begin_t(s, row, col).query, ev),
    ensures
        allowed_successors(s.phase).contains(full_tick(s, row, col, ev).0.phase),
{
    match s.phase {
        Phase::Ready => {
            assert(allowed_successors(s.phase).contains(Phase::Discover));
        },
        Phase::Discover => {
            assert(allowed_successors(s.phase).contains(Phase::Discover));
            assert(allowed_successors(s.phase).contains(Phase::Locate));
        },
        Phase::Locate => {
            assert(allowed_successors(s.phase).contains(Phase::Discover));
            assert(allowed_successors(s.phase).contains(Phase::Goto));
        },
        Phase::Find => {
            assert(allowed_successors(s.phase).contains(Phase::Locate));
            assert(allowed_successors(s.phase).contains(Phase::Find));
            assert(allowed_successors(s.phase).contains(Phase::Collect));
        },
        Phase::Goto => {
            assert(allowed_successors(s.phase).contains(Phase::Locate));
            assert(allowed_successors(s.phase).contains(Phase::Goto));
            assert(allowed_successors(s.phase).contains(Phase::Collect));
        },
        Phase::Collect => {
            assert(allowed_successors(s.phase).contains(Phase::Build));
            assert(allowed_successors(s.phase).contains(Phase::Find));
        },
        Phase::Build => {
            assert(allowed_successors(s.phase).contains(Phase::Build));
            assert(allowed_successors(s.phase).contains(Phase::Dance));
            assert(allowed_successors(s.phase).contains(Phase::Discover));
            assert(allowed_successors(s.phase).contains(Phase::Terminate));
        },
        Phase::Dance => {
            assert(allowed_successors(s.phase).contains(Phase::Terminate));
        },
        Phase::Terminate => {
            assert(allowed_successors(s.phase).contains(Phase::Terminate));
        },
    }
}

/// A dispatch that asks for a collaborator reply leaves the phase untouched
/// until that reply lands, so a single tick changes the phase at most once --
/// in the dispatch half or in the reply half, never in both.
pub proof fn lemma_phase_changes_at_most_once(s: ModelState, row: usize, col: usize)
    requires
        s.pending is Idle,
    ensures
        tick_begin_t(s, row, col).query != Query::Done ==> tick_begin_t(
            s,
            row,
            col,
        ).state.phase == s.phase,
{
}

/// Within one navigation tick the action queue never grows. A non-empty
/// queue shrinks by at least one entry; an empty queue is only ever replaced
/// wholesale by a freshly planned route, less whatever of it the same tick
/// already drains.
pub proof fn lemma_action_queue_never_grows(s: ModelState, row: usize, col: usize, ev: TickEvent)
    requires
        s.pending is Idle,
        s.phase is Goto || s.phase is Find,
        event_matches(tick_begin_t(s, row, col).query, ev),
    ensures
        s.actions.len() > 0 ==> full_tick(s, row, col, ev).0.actions.len() < s.actions.len(),
        s.actions.len() == 0 && ev is Nothing ==> full_tick(s, row, col, ev).0.actions.len() == 0,
        s.actions.len() == 0 ==> (ev matches TickEvent::Planned(plan) ==> full_tick(
            s,
            row,
            col,
            ev,
        ).0.actions == (match plan {
            Option::Some(route) => if route.len() > 2 {
                route.drop_first()
            } else {
                Seq::<NavAction>::empty()
            },
            Option::None => Seq::<NavAction>::empty(),
        })),
{
    let post = full_tick(s, row, col, ev).0;
    if s.actions.len() == 0 {
        match ev {
            TickEvent::Planned(plan) => {
                match plan {
                    Option::Some(route) => {
                        if route.len() <= 2 {
                            assert(post.actions =~= Seq::<NavAction>::empty());
                        }
                    },
                    Option::None => {
                        assert(post.actions =~= Seq::<NavAction>::empty());
                    },
                }
            },
            _ => {},
        }
    }
}

/// Entering a navigation tick with the action queue holding exactly one
/// entry, the handler discards that entry unexecuted -- no command is
/// ordered -- and turns to collection within the same tick.
pub proof fn lemma_last_step_discarded(s: ModelState, row: usize, col: usize)
    requires
        s.pending is Idle,
        s.phase is Goto || s.phase is Find,
        s.actions.len() == 1,
    ensures
        tick_begin_t(s, row, col).state.phase is Collect,
        tick_begin_t(s, row, col).state.actions.len() == 0,
        tick_begin_t(s, row, col).cmds.len() == 0,
        tick_begin_t(s, row, col).query == Query::Done,
{
}

/// When target discovery yields zero filtered candidates, either variant of
/// the locate handler falls back to `Discover` -- never to an undefined or
/// do-nothing state.
pub proof fn lemma_no_targets_back_to_discover(s: ModelState, cands: Seq<Candidate>)
    requires
        kept_cells(cands).len() == 0,
    ensures
        locate_t(s, cands).phase is Discover,
        locate_rocks_t(s, cands).phase is Discover,
{
}

/// A collection tick advances to `Build` exactly when the reported count, if
/// any, brings the goal's progress up to its requirement; every other outcome
/// returns to `Find`. Progress never decreases.
pub proof fn lemma_collect_branches_on_goal(s: ModelState, got: Option<usize>)
    requires
        s.progress <= s.required,
    ensures
        collect_t(s, got).phase is Build <==> (match got {
            Option::Some(c) => s.progress + c >= s.required,
            Option::None => s.progress >= s.required,
        }),
        collect_t(s, got).phase is Build || collect_t(s, got).phase is Find,
        collect_t(s, got).progress >= s.progress,
{
}

/// Between ticks the controller is idle: a whole tick, fed the reply its
/// dispatch asked for, always hands control back with no reply outstanding.
pub proof fn lemma_tick_ends_idle(s: ModelState, row: usize, col: usize, ev: TickEvent)
    requires
        s.pending is Idle,
        event_matches(tick_begin_t(s, row, col).query, ev),
    ensures
        full_tick(s, row, col, ev).0.pending is Idle,
{
}

/// The scan radius never shrinks: discovery retries widen coverage
/// monotonically, up to the machine limit.
pub proof fn lemma_radius_never_shrinks(s: ModelState, v: ScanVerdict)
    ensures
        discover_t(s, v).scan_radius >= s.scan_radius,
{
}

} // verus!
