//! Suppression of redundant output: a new value is emitted only when it
//! differs structurally from the last one held.
use vstd::prelude::*;
use crate::action::{Action, same_actions, views, ActionView};
use crate::{Game, game_opt_view};

verus! {

/// One observation: whether to emit, and the value held afterwards.
pub open spec fn detect<V>(last: Option<V>, next: V) -> (bool, Option<V>) {
    (last != Some(next), Some(next))
}

pub open spec fn actions_opt_view(a: Option<Vec<Action>>) -> Option<Seq<ActionView>> {
    match a {
        Some(v) => Some(views(v@)),
        None => None,
    }
}

/// The last emitted value of each artifact, owned by the driver.
pub struct ChangeDetector {
    pub last_game: Option<Game>,
    pub last_actions: Option<Vec<Action>>,
}

impl ChangeDetector {
    /// A detector that has seen nothing: the first observation emits.
    pub fn new() -> (r: ChangeDetector)
        ensures
            r.last_game is None,
            r.last_actions is None,
    {
        ChangeDetector { last_game: None, last_actions: None }
    }

    /// Holds `game`; true if it differs from the snapshot held before.
    pub fn observe_game(&mut self, game: Game) -> (emit: bool)
        ensures
            (emit, game_opt_view(final(self).last_game)) == detect(
                game_opt_view(old(self).last_game),
                game@,
            ),
            final(self).last_actions == old(self).last_actions,
    {
        let emit = match &self.last_game {
            Some(prev) => !prev.same(&game),
            None => true,
        };
        self.last_game = Some(game);
        emit
    }

    /// Holds `actions`; true if they differ from the sequence held before.
    pub fn observe_actions(&mut self, actions: Vec<Action>) -> (emit: bool)
        ensures
            (emit, actions_opt_view(final(self).last_actions)) == detect(
                actions_opt_view(old(self).last_actions),
                views(actions@),
            ),
            final(self).last_game == old(self).last_game,
    {
        let emit = match &self.last_actions {
            Some(prev) => !same_actions(prev, &actions),
            None => true,
        };
        self.last_actions = Some(actions);
        emit
    }
}

/// Observing the same value twice emits at most once, after the first
/// observation nothing is emitted for it, and from a fresh detector exactly
/// once.
pub proof fn lemma_repeat_emits_once<V>(last: Option<V>, v: V)
    ensures
        !detect(detect(last, v).1, v).0,
        detect(None::<V>, v).0,
        !detect(detect(None::<V>, v).1, v).0,
{
}

/// The same for snapshots: held by a detector, a snapshot equal to the
/// held one is not emitted again.
pub proof fn lemma_same_snapshot_not_reemitted(held: Game, next: Game)
    requires
        held@ == next@,
    ensures
        !detect(game_opt_view(Some(held)), next@).0,
{
}

} // verus!
