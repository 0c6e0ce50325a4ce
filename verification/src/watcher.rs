use vstd::prelude::*;
use crate::region::{CursorPoint, HitRegion, hit_test, region_contains};

verus! {

/// Whether the overlay window currently intercepts pointer input or lets
/// it pass through to the windows beneath it.
#[derive(Clone, Copy, PartialEq, Eq, Structural, Debug)]
pub enum InputMode {
    /// The window ignores cursor events; clicks fall through.
    Passthrough,
    /// The window receives cursor events; clicks land on it.
    Intercept,
}

/// The mode a tick settles on once its hit test has evaluated: a hit
/// means the window must intercept, a miss means it must pass through.
pub open spec fn mode_for_hit(hit: bool) -> InputMode {
    if hit {
        InputMode::Intercept
    } else {
        InputMode::Passthrough
    }
}

/// The `ignore` flag the windowing system expects for a mode: in
/// passthrough the window ignores cursor events.
pub open spec fn ignore_flag(mode: InputMode) -> bool {
    mode is Passthrough
}

/// What a tick with a successful cursor sample asks of the windowing
/// system: nothing while the mode stays as it was, and exactly one toggle
/// carrying the new mode's `ignore` flag when it flips.
pub open spec fn toggle_for(prev: InputMode, hit: bool) -> Option<bool> {
    if mode_for_hit(hit) == prev {
        None
    } else {
        Some(ignore_flag(mode_for_hit(hit)))
    }
}

/// The polling side of the click-through loop: it remembers the last
/// hit-test outcome as the window's current input mode and decides, tick
/// by tick, whether the window's transparency flag has to change.
pub struct CursorWatcher {
    pub mode: InputMode,
}

impl CursorWatcher {
    /// A fresh watcher: the window starts out passing clicks through.
    pub fn new() -> (w: CursorWatcher)
        ensures
            w.mode == InputMode::Passthrough,
    {
        CursorWatcher { mode: InputMode::Passthrough }
    }

    /// The window's current input mode.
    pub fn current_mode(&self) -> (m: InputMode)
        ensures
            m == self.mode,
    {
        self.mode
    }

    /// One poll tick.
    ///
    /// A failed cursor query (`sample` is `None`) skips the tick entirely:
    /// the mode is unchanged and no toggle is requested. A successful
    /// sample is hit-tested against `region`; the mode follows the hit
    /// result, and a toggle is requested exactly when that changed the
    /// mode, so repeated identical results never reach the window system.
    pub fn tick(&mut self, sample: Option<CursorPoint>, region: HitRegion) -> (toggle: Option<bool>)
        ensures
            sample is None ==> final(self).mode == old(self).mode && toggle is None,
            sample matches Some(p) ==> {
                let hit = region_contains(region, p.x as int, p.y as int);
                &&& final(self).mode == mode_for_hit(hit)
                &&& toggle == toggle_for(old(self).mode, hit)
            },
    {
        match sample {
            None => None,
            Some(p) => {
                let hit = hit_test(p, region);
                let new_mode = if hit {
                    InputMode::Intercept
                } else {
                    InputMode::Passthrough
                };
                if new_mode == self.mode {
                    None
                } else {
                    self.mode = new_mode;
                    Some(!hit)
                }
            },
        }
    }
}

/// The mode a run of successful ticks ends in, starting from `init`, when
/// the ticks' hit tests evaluated to `hits` in order: the empty run keeps
/// the initial mode, and otherwise the last hit result decides.
pub open spec fn mode_after(init: InputMode, hits: Seq<bool>) -> InputMode {
    if hits.len() == 0 {
        init
    } else {
        mode_for_hit(hits.last())
    }
}

/// The toggle, if any, that tick `i` of a run issues: the ticks before it
/// saw the hit results `hits.take(i)`, so the window is in
/// `mode_after(init, hits.take(i))` when the result `hits[i]` arrives.
pub open spec fn toggle_at(init: InputMode, hits: Seq<bool>, i: int) -> Option<bool> {
    toggle_for(mode_after(init, hits.take(i)), hits[i])
}

/// Transition suppression: within a run of successful ticks, a toggle is
/// issued exactly when a hit result differs from its predecessor (for the
/// first tick: when it disagrees with the initial mode), never on a
/// repeated result; and the toggle issued carries the new mode's ignore
/// flag.
pub proof fn lemma_toggle_only_on_transition(init: InputMode, hits: Seq<bool>, i: int)
    requires
        0 <= i < hits.len(),
    ensures
        i == 0 ==> (toggle_at(init, hits, i) is Some <==> mode_for_hit(hits[i]) != init),
        i > 0 ==> (toggle_at(init, hits, i) is Some <==> hits[i] != hits[i - 1]),
        toggle_at(init, hits, i) is Some ==> toggle_at(init, hits, i) == Some(
            ignore_flag(mode_for_hit(hits[i])),
        ),
{
    let before = hits.take(i);
    assert(before.len() == i);
    if i > 0 {
        assert(before.last() == hits[i - 1]);
    }
}

/// Gluing a run to the single-tick contract: appending one more hit
/// result leaves the run in that result's mode, and the toggle of the
/// appended tick is the one a single tick issues from the run's final
/// mode.
pub proof fn lemma_run_extends_by_one_tick(init: InputMode, hits: Seq<bool>, hit: bool)
    ensures
        mode_after(init, hits.push(hit)) == mode_for_hit(hit),
        toggle_at(init, hits.push(hit), hits.len() as int) == toggle_for(
            mode_after(init, hits),
            hit,
        ),
{
    assert(hits.push(hit).take(hits.len() as int) =~= hits);
    assert(hits.push(hit).last() == hit);
}

} // verus!
