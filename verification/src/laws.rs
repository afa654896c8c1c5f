//! The guarantees every loaded game enjoys, stated on their own so a reader
//! need not unfold the invariant: density of the id spaces, referential
//! integrity, cursor validity on entering a stage, and uniqueness of the
//! exit stage.
use vstd::prelude::*;

use crate::game_components::{cond_ref_ok, spec_is_filled, StageOption, Statistic};
use crate::game_state::{
    confirm_step, effect_refs_ok, finished_game, item_effect_refs_ok, option_refs_ok, GameState,
};
use crate::loader::{dead_ends_ok, spec_loads_ok, stage_ids, stages_pass_ok};
use crate::navigation::{lemma_enter_cursor_valid, spec_enter_cursor};
use crate::validation::last_index_of;

verus! {

/// Density: in a well-formed game — `post_process` returns no other — every
/// stage stands at the array position its `index` field names, and every
/// item at the position its `id` field names.
pub proof fn lemma_density(g: GameState)
    requires
        g.wf(),
    ensures
        forall|i: int| 0 <= i < g.stages@.len() ==> #[trigger] g.stages@[i].index == i,
        forall|k: int| 0 <= k < g.items@.len() ==> #[trigger] g.items@[k].id == k,
{
}

/// Referential integrity: in a well-formed game every option's target is a
/// stage position, every condition's and effect's stat reference is a stat
/// position, and every item reference is an item position.
pub proof fn lemma_referential_integrity(g: GameState)
    requires
        g.wf(),
    ensures
        forall|i: int, j: int|
            0 <= i < g.stages@.len() && 0 <= j < g.stages@[i].options@.len() ==> (
            #[trigger] g.stages@[i].options@[j]).target_stage < g.stages@.len(),
        forall|i: int, j: int|
            0 <= i < g.stages@.len() && 0 <= j < g.stages@[i].options@.len() ==> cond_ref_ok(
                (#[trigger] g.stages@[i].options@[j]).condition,
                g.stats@.len() as int,
            ),
        forall|i: int, j: int|
            0 <= i < g.stages@.len() && 0 <= j < g.stages@[i].options@.len() ==> effect_refs_ok(
                (#[trigger] g.stages@[i].options@[j]).effect,
                g.stats@.len() as int,
                g.items@.len() as int,
            ),
        forall|k: int|
            0 <= k < g.items@.len() ==> item_effect_refs_ok(
                (#[trigger] g.items@[k]).effect,
                g.stats@.len() as int,
                g.items@.len() as int,
            ),
{
    assert forall|i: int, j: int|
        0 <= i < g.stages@.len() && 0 <= j < g.stages@[i].options@.len() implies {
        &&& (#[trigger] g.stages@[i].options@[j]).target_stage < g.stages@.len()
        &&& cond_ref_ok(g.stages@[i].options@[j].condition, g.stats@.len() as int)
        &&& effect_refs_ok(
            g.stages@[i].options@[j].effect,
            g.stats@.len() as int,
            g.items@.len() as int,
        )
    } by {
        assert(option_refs_ok(
            g.stages@[i].options@[j],
            g.stages@.len() as int,
            g.stats@.len() as int,
            g.items@.len() as int,
        ));
    }
}

/// Cursor validity: the cursor the enter-stage algorithm selects is 0 — and
/// then no option is visible — exactly when it does not rest on a visible
/// option of the raw list. (`enter_current_stage`, `change_to_stage_index`,
/// `post_process` and `handle_action` all pin the entered cursor to
/// `spec_enter_cursor`.)
pub proof fn lemma_enter_cursor_xor(stats: Seq<Statistic>, options: Seq<StageOption>)
    ensures
        (spec_enter_cursor(stats, options) == 0) != {
            &&& 1 <= spec_enter_cursor(stats, options) <= options.len()
            &&& spec_is_filled(stats, options[spec_enter_cursor(stats, options) - 1].condition)
        },
{
    lemma_enter_cursor_valid(stats, options);
}

/// Terminal behavior: `Confirm` on the designated exit stage — in a
/// well-formed game exactly the zero-option stage — sets the finished flag
/// and changes nothing else; in particular the walk stays where it is.
pub proof fn lemma_terminal_confirm(g: GameState, r: GameState)
    requires
        g.wf(),
        g.current_stage == g.exit_stage,
        confirm_step(g, r),
    ensures
        r == finished_game(g),
        r.finished,
        r.current_stage == g.current_stage,
        r.stages == g.stages,
        r.stats == g.stats,
{
    assert(g.stages@[g.exit_stage as int].options@.len() == 0);
}

/// Exit uniqueness: an authored game with two zero-option stages, or with
/// none at all, never loads.
pub proof fn lemma_exit_uniqueness(g: GameState)
    requires
        (exists|i: int, j: int|
            0 <= i < j < g.stages@.len() && (#[trigger] g.stages@[i]).options@.len() == 0 && (
            #[trigger] g.stages@[j]).options@.len() == 0) || (forall|i: int|
            0 <= i < g.stages@.len() ==> (#[trigger] g.stages@[i]).options@.len() != 0),
    ensures
        !spec_loads_ok(g),
{
    if spec_loads_ok(g) {
        if exists|i: int, j: int|
            0 <= i < j < g.stages@.len() && (#[trigger] g.stages@[i]).options@.len() == 0 && (
            #[trigger] g.stages@[j]).options@.len() == 0 {
            let (i, j) = choose|i: int, j: int|
                0 <= i < j < g.stages@.len() && (#[trigger] g.stages@[i]).options@.len() == 0 && (
                #[trigger] g.stages@[j]).options@.len() == 0;
            // with dead ends checked, both carry the exit id, so the id
            // resolves to two distinct positions: impossible
            assert(g.stages@[i].index == g.exit_stage);
            assert(g.stages@[j].index == g.exit_stage);
            assert(last_index_of(stage_ids(g.stages@), g.stages@[i].index) == i);
            assert(last_index_of(stage_ids(g.stages@), g.stages@[j].index) == j);
            assert(false);
        } else {
            // with no zero-option stage, no exit stage exists
            assert(dead_ends_ok(g));
            let e = choose|i: int|
                0 <= i < g.stages@.len() && (#[trigger] g.stages@[i]).options@.len() == 0
                    && g.stages@[i].index == g.exit_stage;
            assert(g.stages@[e].options@.len() != 0);
            assert(false);
        }
    }
}

} // verus!
