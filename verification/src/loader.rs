//! The load-time pipeline: it checks that exactly the declared exit stage is
//! option-free, remaps every author-chosen stat, stage and item id to a dense
//! array position, and enters the entry stage. Each pass fails fast on the
//! first unresolved or duplicated id.
use vstd::prelude::*;

use crate::game_components::{
    cond_ref_ok, cond_stat_id, cond_with_stat_id, effect_stat_id, effect_with_stat_id,
    item_effect_inner, Condition, Effect, Item, ItemEffect, Stage, StageOption, Statistic,
};
use crate::game_state::{effect_refs_ok, item_effect_refs_ok, option_refs_ok, GameState};
use crate::navigation::{conds_ok, spec_enter_cursor};
use crate::validation::{last_index_of, lemma_last_index_of, lookup_id, ValidationError};

verus! {

/// The author-chosen ids of the stats, by position.
pub open spec fn stat_ids(stats: Seq<Statistic>) -> Seq<usize> {
    Seq::new(stats.len(), |i: int| stats[i].id)
}

/// The author-chosen indices of the stages, by position.
pub open spec fn stage_ids(stages: Seq<Stage>) -> Seq<usize> {
    Seq::new(stages.len(), |i: int| stages[i].index)
}

/// The author-chosen ids of the items, by position.
pub open spec fn item_ids(items: Seq<Item>) -> Seq<usize> {
    Seq::new(items.len(), |i: int| items[i].id)
}

/// Whether the condition's stat reference (if any) occurs in the id table.
pub open spec fn cond_stat_resolvable(c: Condition, ids: Seq<usize>) -> bool {
    match cond_stat_id(c) {
        None => true,
        Some(sid) => last_index_of(ids, sid) != -1,
    }
}

/// The condition with its stat reference replaced by the position it
/// resolves to.
pub open spec fn remap_condition(c: Condition, ids: Seq<usize>) -> Condition {
    match cond_stat_id(c) {
        None => c,
        Some(sid) => cond_with_stat_id(c, last_index_of(ids, sid) as usize),
    }
}

/// Whether the effect's stat reference (if any) occurs in the id table.
pub open spec fn effect_stat_resolvable(e: Effect, ids: Seq<usize>) -> bool {
    match effect_stat_id(e) {
        None => true,
        Some(sid) => last_index_of(ids, sid) != -1,
    }
}

/// The effect with its stat reference replaced by the position it resolves
/// to.
pub open spec fn remap_effect_stat(e: Effect, ids: Seq<usize>) -> Effect {
    match effect_stat_id(e) {
        None => e,
        Some(sid) => effect_with_stat_id(e, last_index_of(ids, sid) as usize),
    }
}

/// Whether both stat references of an option resolve.
pub open spec fn option_stats_resolvable(o: StageOption, ids: Seq<usize>) -> bool {
    cond_stat_resolvable(o.condition, ids) && effect_stat_resolvable(o.effect, ids)
}

/// The id named by the first unresolved stat reference of an option: its
/// condition's, or else its effect's.
pub open spec fn offending_stat_id(o: StageOption, ids: Seq<usize>) -> usize {
    if !cond_stat_resolvable(o.condition, ids) {
        cond_stat_id(o.condition)->Some_0
    } else {
        effect_stat_id(o.effect)->Some_0
    }
}

/// An option after the stat pass: stat references resolved, the rest
/// untouched.
pub open spec fn option_stats_remapped(o: StageOption, ids: Seq<usize>) -> StageOption {
    StageOption {
        target_stage: o.target_stage,
        text: o.text,
        condition: remap_condition(o.condition, ids),
        effect: remap_effect_stat(o.effect, ids),
    }
}

/// Whether every stat reference of the stage's options resolves.
pub open spec fn stage_stats_clean(st: Stage, ids: Seq<usize>) -> bool {
    forall|j: int|
        0 <= j < st.options@.len() ==> option_stats_resolvable(#[trigger] st.options@[j], ids)
}

/// Whether the stat reference of the item's effect (if any) resolves.
pub open spec fn item_effect_stat_resolvable(e: ItemEffect, ids: Seq<usize>) -> bool {
    match item_effect_inner(e) {
        None => true,
        Some(inner) => effect_stat_resolvable(inner, ids),
    }
}

/// The item id an effect carries, if any.
pub open spec fn effect_item_id(e: Effect) -> Option<usize> {
    match e {
        Effect::UseItem { item_id } => Some(item_id),
        _ => None,
    }
}

/// Whether the effect's item reference (if any) occurs in the id table.
pub open spec fn effect_item_resolvable(e: Effect, ids: Seq<usize>) -> bool {
    match effect_item_id(e) {
        None => true,
        Some(id) => last_index_of(ids, id) != -1,
    }
}

/// The effect with its item reference replaced by the position it resolves
/// to.
pub open spec fn remap_effect_item(e: Effect, ids: Seq<usize>) -> Effect {
    match e {
        Effect::UseItem { item_id } => Effect::UseItem {
            item_id: last_index_of(ids, item_id) as usize,
        },
        _ => e,
    }
}

/// Whether the item reference of an item effect's inner effect resolves.
pub open spec fn item_effect_item_resolvable(e: ItemEffect, ids: Seq<usize>) -> bool {
    match item_effect_inner(e) {
        None => true,
        Some(inner) => effect_item_resolvable(inner, ids),
    }
}

/// An item effect after the item pass.
pub open spec fn item_effect_item_remapped(e: ItemEffect, ids: Seq<usize>) -> ItemEffect {
    match e {
        ItemEffect::NoEffect => e,
        ItemEffect::Consumable { on_consume } => ItemEffect::Consumable {
            on_consume: remap_effect_item(on_consume, ids),
        },
        ItemEffect::Equippable { slot, when_equipped } => ItemEffect::Equippable {
            slot,
            when_equipped: remap_effect_item(when_equipped, ids),
        },
    }
}

/// An option after the item pass: its effect's item reference resolved.
pub open spec fn option_item_remapped(o: StageOption, ids: Seq<usize>) -> StageOption {
    StageOption {
        target_stage: o.target_stage,
        text: o.text,
        condition: o.condition,
        effect: remap_effect_item(o.effect, ids),
    }
}

/// Whether every item reference of the stage's options resolves.
pub open spec fn stage_items_clean(st: Stage, ids: Seq<usize>) -> bool {
    forall|j: int|
        0 <= j < st.options@.len() ==> effect_item_resolvable(
            (#[trigger] st.options@[j]).effect,
            ids,
        )
}

/// Whether `new` is `orig` after the item pass.
pub open spec fn stage_items_mapped(orig: Stage, new: Stage, ids: Seq<usize>) -> bool {
    &&& new.index == orig.index
    &&& new.name == orig.name
    &&& new.text == orig.text
    &&& new.current_option == orig.current_option
    &&& new.options@.len() == orig.options@.len()
    &&& forall|j: int|
        0 <= j < orig.options@.len() ==> #[trigger] new.options@[j] == option_item_remapped(
            orig.options@[j],
            ids,
        )
}

/// Whether the item at position `k` passes the item pass whole: its own id
/// resolves back to `k` (no duplicate) and its effect's item reference
/// resolves.
pub open spec fn item_fully_ok(items: Seq<Item>, ids: Seq<usize>, k: int) -> bool {
    last_index_of(ids, items[k].id) == k && item_effect_item_resolvable(items[k].effect, ids)
}

/// The success condition of the item pass.
pub open spec fn items_pass_ok(g: GameState) -> bool {
    &&& forall|i: int|
        0 <= i < g.stages@.len() ==> stage_items_clean(
            #[trigger] g.stages@[i],
            item_ids(g.items@),
        )
    &&& forall|k: int| 0 <= k < g.items@.len() ==> item_fully_ok(g.items@, item_ids(g.items@), k)
}

/// Whether a stage with zero options exists and every such stage carries the
/// declared exit id.
pub open spec fn dead_ends_ok(g: GameState) -> bool {
    &&& exists|i: int|
        0 <= i < g.stages@.len() && (#[trigger] g.stages@[i]).options@.len() == 0
            && g.stages@[i].index == g.exit_stage
    &&& forall|i: int|
        0 <= i < g.stages@.len() && (#[trigger] g.stages@[i]).options@.len() == 0
            ==> g.stages@[i].index == g.exit_stage
}

/// Whether every stat reference of the game resolves: the success condition
/// of the stat pass.
pub open spec fn stats_pass_ok(g: GameState) -> bool {
    &&& forall|i: int|
        0 <= i < g.stages@.len() ==> stage_stats_clean(
            #[trigger] g.stages@[i],
            stat_ids(g.stats@),
        )
    &&& forall|k: int|
        0 <= k < g.items@.len() ==> item_effect_stat_resolvable(
            (#[trigger] g.items@[k]).effect,
            stat_ids(g.stats@),
        )
}

/// The success condition of the whole loading pipeline, stated of the
/// author-supplied game.
pub open spec fn spec_loads_ok(g: GameState) -> bool {
    &&& dead_ends_ok(g)
    &&& stats_pass_ok(g)
    &&& stages_pass_ok(g)
    &&& items_pass_ok(g)
}

/// How a successfully loaded game `s` relates to the author-supplied game
/// `g`: every id replaced by the array position it resolves to, stage ids
/// and item ids made dense, the walk placed on the remapped entry stage,
/// and that stage entered.
pub open spec fn loaded_from(g: GameState, s: GameState) -> bool {
    let sids = stat_ids(g.stats@);
    let gids = stage_ids(g.stages@);
    let iids = item_ids(g.items@);
    let entry = last_index_of(gids, g.entry_stage);
    &&& s.name == g.name
    &&& s.stats == g.stats
    &&& s.item_slots == g.item_slots
    &&& s.finished == g.finished
    &&& s.entry_stage == entry
    &&& s.exit_stage == last_index_of(gids, g.exit_stage)
    &&& s.current_stage == entry
    &&& s.stages@.len() == g.stages@.len()
    &&& forall|i: int|
        0 <= i < g.stages@.len() ==> {
            &&& (#[trigger] s.stages@[i]).index == i
            &&& s.stages@[i].name == g.stages@[i].name
            &&& s.stages@[i].text == g.stages@[i].text
            &&& s.stages@[i].options@.len() == g.stages@[i].options@.len()
            &&& (i != entry ==> s.stages@[i].current_option == g.stages@[i].current_option)
            &&& (i == entry ==> s.stages@[i].current_option as int == spec_enter_cursor(
                g.stats@,
                s.stages@[i].options@,
            ))
        }
    &&& forall|i: int, j: int|
        0 <= i < g.stages@.len() && 0 <= j < g.stages@[i].options@.len()
            ==> #[trigger] s.stages@[i].options@[j] == (StageOption {
            target_stage: last_index_of(gids, g.stages@[i].options@[j].target_stage) as usize,
            text: g.stages@[i].options@[j].text,
            condition: remap_condition(g.stages@[i].options@[j].condition, sids),
            effect: remap_effect_item(
                remap_effect_stat(g.stages@[i].options@[j].effect, sids),
                iids,
            ),
        })
    &&& s.items@.len() == g.items@.len()
    &&& forall|k: int|
        0 <= k < g.items@.len() ==> #[trigger] s.items@[k] == (Item {
            id: k as usize,
            name: g.items@[k].name,
            effect: item_effect_item_remapped(
                item_effect_stats_remapped(g.items@[k].effect, sids),
                iids,
            ),
        })
}

impl GameState {
    /// Checks that some stage has zero options and that every such stage is
    /// the declared exit stage; the first offender is the error.
    pub fn check_dead_ends(self) -> (r: Result<GameState, ValidationError>)
        ensures
            r is Ok <==> dead_ends_ok(self),
            r matches Ok(s) ==> s == self,
            r matches Err(e) ==> match e {
                ValidationError::DeadEndStage { stage_index } => exists|i: int|
                    {
                        &&& 0 <= i < self.stages@.len()
                        &&& (#[trigger] self.stages@[i]).options@.len() == 0
                        &&& self.stages@[i].index != self.exit_stage
                        &&& forall|i2: int|
                            0 <= i2 < i ==> !((#[trigger] self.stages@[i2]).options@.len() == 0
                                && self.stages@[i2].index != self.exit_stage)
                        &&& stage_index == self.stages@[i].index
                    },
                ValidationError::NoExitStage => forall|i: int|
                    0 <= i < self.stages@.len() ==> (#[trigger] self.stages@[i]).options@.len()
                        != 0,
                _ => false,
            },
    {
        let mut found_last = false;
        let mut i: usize = 0;
        while i < self.stages.len()
            invariant
                i <= self.stages@.len(),
                forall|i2: int|
                    0 <= i2 < i ==> !((#[trigger] self.stages@[i2]).options@.len() == 0
                        && self.stages@[i2].index != self.exit_stage),
                found_last <==> exists|i2: int|
                    0 <= i2 < i && (#[trigger] self.stages@[i2]).options@.len() == 0
                        && self.stages@[i2].index == self.exit_stage,
            decreases self.stages@.len() - i,
        {
            if self.stages[i].options.len() == 0 {
                if self.stages[i].index != self.exit_stage {
                    return Err(ValidationError::DeadEndStage { stage_index: self.stages[i].index });
                }
                found_last = true;
                proof {
                    assert(self.stages@[i as int].options@.len() == 0 && self.stages@[
                        i as int
                    ].index == self.exit_stage);
                }
            }
            i += 1;
        }
        if !found_last {
            Err(ValidationError::NoExitStage)
        } else {
            Ok(self)
        }
    }

    /// Remaps every stat reference of every option's condition and effect,
    /// and of every item's effect, to the referenced stat's array position.
    /// The first unresolved id fails the pass, named together with the
    /// enclosing stage or item.
    pub fn map_stat_ids(self) -> (r: Result<GameState, ValidationError>)
        ensures
            r is Ok <==> stats_pass_ok(self),
            r matches Ok(s) ==> {
                &&& s.name == self.name
                &&& s.stats == self.stats
                &&& s.item_slots == self.item_slots
                &&& s.entry_stage == self.entry_stage
                &&& s.exit_stage == self.exit_stage
                &&& s.current_stage == self.current_stage
                &&& s.finished == self.finished
                &&& s.stages@.len() == self.stages@.len()
                &&& forall|i: int|
                    0 <= i < self.stages@.len() ==> stage_stats_mapped(
                        #[trigger] self.stages@[i],
                        s.stages@[i],
                        stat_ids(self.stats@),
                    )
                &&& s.items@.len() == self.items@.len()
                &&& forall|k: int|
                    0 <= k < self.items@.len() ==> #[trigger] s.items@[k] == (Item {
                        id: self.items@[k].id,
                        name: self.items@[k].name,
                        effect: item_effect_stats_remapped(
                            self.items@[k].effect,
                            stat_ids(self.stats@),
                        ),
                    })
            },
            r matches Err(e) ==> match e {
                ValidationError::UnknownStat { stat_id, stage_index, stage_name } => exists|
                    i: int,
                    j: int,
                |
                    {
                        &&& 0 <= i < self.stages@.len()
                        &&& 0 <= j < self.stages@[i].options@.len()
                        &&& !option_stats_resolvable(
                            #[trigger] self.stages@[i].options@[j],
                            stat_ids(self.stats@),
                        )
                        &&& forall|i2: int|
                            0 <= i2 < i ==> stage_stats_clean(
                                #[trigger] self.stages@[i2],
                                stat_ids(self.stats@),
                            )
                        &&& forall|j2: int|
                            0 <= j2 < j ==> option_stats_resolvable(
                                #[trigger] self.stages@[i].options@[j2],
                                stat_ids(self.stats@),
                            )
                        &&& stage_index == self.stages@[i].index
                        &&& stage_name == self.stages@[i].name
                        &&& stat_id == offending_stat_id(
                            self.stages@[i].options@[j],
                            stat_ids(self.stats@),
                        )
                    },
                ValidationError::UnknownStatInItem { item_name } => {
                    &&& (forall|i: int|
                        0 <= i < self.stages@.len() ==> stage_stats_clean(
                            #[trigger] self.stages@[i],
                            stat_ids(self.stats@),
                        ))
                    &&& exists|k: int|
                        {
                            &&& 0 <= k < self.items@.len()
                            &&& !item_effect_stat_resolvable(
                                (#[trigger] self.items@[k]).effect,
                                stat_ids(self.stats@),
                            )
                            &&& forall|k2: int|
                                0 <= k2 < k ==> item_effect_stat_resolvable(
                                    (#[trigger] self.items@[k2]).effect,
                                    stat_ids(self.stats@),
                                )
                            &&& item_name == self.items@[k].name
                        }
                },
                _ => false,
            },
    {
        let mut g = self;
        let ids = stat_id_table(&g.stats);
        let n_stages = g.stages.len();
        let mut i: usize = 0;
        while i < n_stages
            invariant
                n_stages == g.stages@.len(),
                i <= n_stages,
                ids@ == stat_ids(g.stats@),
                g.name == self.name,
                g.stats == self.stats,
                g.item_slots == self.item_slots,
                g.items == self.items,
                g.entry_stage == self.entry_stage,
                g.exit_stage == self.exit_stage,
                g.current_stage == self.current_stage,
                g.finished == self.finished,
                g.stages@.len() == self.stages@.len(),
                forall|i2: int| i <= i2 < n_stages ==> #[trigger] g.stages@[i2] == self.stages@[i2],
                forall|i2: int|
                    0 <= i2 < i ==> stage_stats_clean(#[trigger] self.stages@[i2], ids@),
                forall|i2: int|
                    0 <= i2 < i ==> stage_stats_mapped(
                        #[trigger] self.stages@[i2],
                        g.stages@[i2],
                        ids@,
                    ),
            decreases n_stages - i,
        {
            let stage_index = g.stages[i].index;
            let stage_name = g.stages[i].name.clone();
            let n_opts = g.stages[i].options.len();
            let mut j: usize = 0;
            while j < n_opts
                invariant
                    i < n_stages,
                    n_stages == g.stages@.len(),
                    n_opts == g.stages@[i as int].options@.len(),
                    j <= n_opts,
                    ids@ == stat_ids(g.stats@),
                    g.name == self.name,
                    g.stats == self.stats,
                    g.item_slots == self.item_slots,
                    g.items == self.items,
                    g.entry_stage == self.entry_stage,
                    g.exit_stage == self.exit_stage,
                    g.current_stage == self.current_stage,
                    g.finished == self.finished,
                    g.stages@.len() == self.stages@.len(),
                    stage_index == self.stages@[i as int].index,
                    stage_name == self.stages@[i as int].name,
                    g.stages@[i as int].index == self.stages@[i as int].index,
                    g.stages@[i as int].name == self.stages@[i as int].name,
                    g.stages@[i as int].text == self.stages@[i as int].text,
                    g.stages@[i as int].current_option == self.stages@[i as int].current_option,
                    self.stages@[i as int].options@.len() == n_opts,
                    forall|i2: int|
                        i < i2 < n_stages ==> #[trigger] g.stages@[i2] == self.stages@[i2],
                    forall|i2: int|
                        0 <= i2 < i ==> stage_stats_clean(#[trigger] self.stages@[i2], ids@),
                    forall|i2: int|
                        0 <= i2 < i ==> stage_stats_mapped(
                            #[trigger] self.stages@[i2],
                            g.stages@[i2],
                            ids@,
                        ),
                    forall|j2: int|
                        j <= j2 < n_opts ==> #[trigger] g.stages@[i as int].options@[j2]
                            == self.stages@[i as int].options@[j2],
                    forall|j2: int|
                        0 <= j2 < j ==> option_stats_resolvable(
                            #[trigger] self.stages@[i as int].options@[j2],
                            ids@,
                        ),
                    forall|j2: int|
                        0 <= j2 < j ==> #[trigger] g.stages@[i as int].options@[j2]
                            == option_stats_remapped(self.stages@[i as int].options@[j2], ids@),
                decreases n_opts - j,
            {
                let cond = g.stages[i].options[j].condition;
                match cond_stat_id_exec(&cond) {
                    Some(sid) => {
                        match lookup_id(&ids, sid) {
                            Some(p) => {
                                g.stages[i].options[j].condition = cond_with_stat_id_exec(&cond, p);
                            },
                            None => {
                                proof {
                                    assert(!option_stats_resolvable(
                                        self.stages@[i as int].options@[j as int],
                                        stat_ids(self.stats@),
                                    ));
                                    assert(sid == offending_stat_id(
                                        self.stages@[i as int].options@[j as int],
                                        stat_ids(self.stats@),
                                    ));
                                }
                                return Err(
                                    ValidationError::UnknownStat {
                                        stat_id: sid,
                                        stage_index,
                                        stage_name,
                                    },
                                );
                            },
                        }
                    },
                    None => {},
                }
                let eff = g.stages[i].options[j].effect;
                match effect_stat_id_exec(&eff) {
                    Some(sid) => {
                        match lookup_id(&ids, sid) {
                            Some(p) => {
                                g.stages[i].options[j].effect = effect_with_stat_id_exec(&eff, p);
                            },
                            None => {
                                proof {
                                    assert(!option_stats_resolvable(
                                        self.stages@[i as int].options@[j as int],
                                        stat_ids(self.stats@),
                                    ));
                                    assert(sid == offending_stat_id(
                                        self.stages@[i as int].options@[j as int],
                                        stat_ids(self.stats@),
                                    ));
                                }
                                return Err(
                                    ValidationError::UnknownStat {
                                        stat_id: sid,
                                        stage_index,
                                        stage_name,
                                    },
                                );
                            },
                        }
                    },
                    None => {},
                }
                j += 1;
            }
            proof {
                assert(stage_stats_mapped(self.stages@[i as int], g.stages@[i as int], ids@));
            }
            i += 1;
        }
        let n_items = g.items.len();
        let mut k: usize = 0;
        while k < n_items
            invariant
                n_items == g.items@.len(),
                k <= n_items,
                ids@ == stat_ids(g.stats@),
                g.name == self.name,
                g.stats == self.stats,
                g.item_slots == self.item_slots,
                g.entry_stage == self.entry_stage,
                g.exit_stage == self.exit_stage,
                g.current_stage == self.current_stage,
                g.finished == self.finished,
                g.items@.len() == self.items@.len(),
                g.stages@.len() == self.stages@.len(),
                forall|i2: int|
                    0 <= i2 < g.stages@.len() ==> stage_stats_mapped(
                        #[trigger] self.stages@[i2],
                        g.stages@[i2],
                        ids@,
                    ),
                forall|i2: int|
                    0 <= i2 < g.stages@.len() ==> stage_stats_clean(
                        #[trigger] self.stages@[i2],
                        ids@,
                    ),
                forall|k2: int| k <= k2 < n_items ==> #[trigger] g.items@[k2] == self.items@[k2],
                forall|k2: int|
                    0 <= k2 < k ==> item_effect_stat_resolvable(
                        (#[trigger] self.items@[k2]).effect,
                        ids@,
                    ),
                forall|k2: int|
                    0 <= k2 < k ==> #[trigger] g.items@[k2] == (Item {
                        id: self.items@[k2].id,
                        name: self.items@[k2].name,
                        effect: item_effect_stats_remapped(self.items@[k2].effect, ids@),
                    }),
            decreases n_items - k,
        {
            let item_name = g.items[k].name.clone();
            let old_effect = &g.items[k].effect;
            let new_effect = match remap_item_effect_stats(old_effect, &ids) {
                Ok(e) => e,
                Err(()) => {
                    return Err(ValidationError::UnknownStatInItem { item_name });
                },
            };
            g.items[k].effect = new_effect;
            k += 1;
        }
        Ok(g)
    }

    /// Rejects options without text, remaps every option's target and every
    /// stage's own id to the stage's array position (rejecting duplicated
    /// ids), and remaps the entry and exit ids. The first offender fails the
    /// pass.
    pub fn map_stage_ids(self) -> (r: Result<GameState, ValidationError>)
        ensures
            r is Ok <==> stages_pass_ok(self),
            r matches Ok(s) ==> {
                &&& s.name == self.name
                &&& s.stats == self.stats
                &&& s.item_slots == self.item_slots
                &&& s.items == self.items
                &&& s.entry_stage == last_index_of(stage_ids(self.stages@), self.entry_stage)
                &&& s.exit_stage == last_index_of(stage_ids(self.stages@), self.exit_stage)
                &&& s.current_stage == self.current_stage
                &&& s.finished == self.finished
                &&& s.stages@.len() == self.stages@.len()
                &&& forall|i: int|
                    0 <= i < self.stages@.len() ==> stage_ids_mapped(
                        #[trigger] self.stages@[i],
                        s.stages@[i],
                        stage_ids(self.stages@),
                        i,
                    )
            },
            r matches Err(e) ==> match e {
                ValidationError::EmptyOptionText { stage_index } => exists|i: int, j: int|
                    {
                        &&& 0 <= i < self.stages@.len()
                        &&& 0 <= j < self.stages@[i].options@.len()
                        &&& (#[trigger] self.stages@[i].options@[j]).text@.len() == 0
                        &&& forall|i2: int|
                            0 <= i2 < i ==> stage_fully_ok(
                                self.stages@,
                                stage_ids(self.stages@),
                                i2,
                            )
                        &&& forall|j2: int|
                            0 <= j2 < j ==> option_stage_ok(
                                #[trigger] self.stages@[i].options@[j2],
                                stage_ids(self.stages@),
                            )
                        &&& stage_index == self.stages@[i].index
                    },
                ValidationError::UnknownTargetStage { target, stage_index, stage_name } => exists|
                    i: int,
                    j: int,
                |
                    {
                        &&& 0 <= i < self.stages@.len()
                        &&& 0 <= j < self.stages@[i].options@.len()
                        &&& (#[trigger] self.stages@[i].options@[j]).text@.len() > 0
                        &&& last_index_of(
                            stage_ids(self.stages@),
                            self.stages@[i].options@[j].target_stage,
                        ) == -1
                        &&& forall|i2: int|
                            0 <= i2 < i ==> stage_fully_ok(
                                self.stages@,
                                stage_ids(self.stages@),
                                i2,
                            )
                        &&& forall|j2: int|
                            0 <= j2 < j ==> option_stage_ok(
                                #[trigger] self.stages@[i].options@[j2],
                                stage_ids(self.stages@),
                            )
                        &&& target == self.stages@[i].options@[j].target_stage
                        &&& stage_index == self.stages@[i].index
                        &&& stage_name == self.stages@[i].name
                    },
                ValidationError::DuplicateStageIndex { stage_index } => exists|i: int|
                    {
                        &&& 0 <= i < self.stages@.len()
                        &&& stage_targets_clean(#[trigger] self.stages@[i], stage_ids(self.stages@))
                        &&& last_index_of(stage_ids(self.stages@), self.stages@[i].index) != i
                        &&& forall|i2: int|
                            0 <= i2 < i ==> stage_fully_ok(
                                self.stages@,
                                stage_ids(self.stages@),
                                i2,
                            )
                        &&& stage_index == self.stages@[i].index
                    },
                ValidationError::InvalidEntryStage => {
                    &&& forall|i2: int|
                        0 <= i2 < self.stages@.len() ==> stage_fully_ok(
                            self.stages@,
                            stage_ids(self.stages@),
                            i2,
                        )
                    &&& last_index_of(stage_ids(self.stages@), self.entry_stage) == -1
                },
                ValidationError::InvalidExitStage => {
                    &&& forall|i2: int|
                        0 <= i2 < self.stages@.len() ==> stage_fully_ok(
                            self.stages@,
                            stage_ids(self.stages@),
                            i2,
                        )
                    &&& last_index_of(stage_ids(self.stages@), self.entry_stage) != -1
                    &&& last_index_of(stage_ids(self.stages@), self.exit_stage) == -1
                },
                _ => false,
            },
    {
        let mut g = self;
        let ids = stage_id_table(&g.stages);
        let n_stages = g.stages.len();
        let mut i: usize = 0;
        while i < n_stages
            invariant
                n_stages == g.stages@.len(),
                i <= n_stages,
                ids@ == stage_ids(self.stages@),
                g.name == self.name,
                g.stats == self.stats,
                g.item_slots == self.item_slots,
                g.items == self.items,
                g.entry_stage == self.entry_stage,
                g.exit_stage == self.exit_stage,
                g.current_stage == self.current_stage,
                g.finished == self.finished,
                g.stages@.len() == self.stages@.len(),
                forall|i2: int| i <= i2 < n_stages ==> #[trigger] g.stages@[i2] == self.stages@[i2],
                forall|i2: int|
                    0 <= i2 < i ==> stage_fully_ok(self.stages@, ids@, i2),
                forall|i2: int|
                    0 <= i2 < i ==> stage_ids_mapped(
                        #[trigger] self.stages@[i2],
                        g.stages@[i2],
                        ids@,
                        i2,
                    ),
            decreases n_stages - i,
        {
            let stage_index = g.stages[i].index;
            let stage_name = g.stages[i].name.clone();
            let n_opts = g.stages[i].options.len();
            let mut j: usize = 0;
            while j < n_opts
                invariant
                    i < n_stages,
                    n_stages == g.stages@.len(),
                    n_opts == g.stages@[i as int].options@.len(),
                    j <= n_opts,
                    ids@ == stage_ids(self.stages@),
                    g.name == self.name,
                    g.stats == self.stats,
                    g.item_slots == self.item_slots,
                    g.items == self.items,
                    g.entry_stage == self.entry_stage,
                    g.exit_stage == self.exit_stage,
                    g.current_stage == self.current_stage,
                    g.finished == self.finished,
                    g.stages@.len() == self.stages@.len(),
                    stage_index == self.stages@[i as int].index,
                    stage_name == self.stages@[i as int].name,
                    g.stages@[i as int].index == self.stages@[i as int].index,
                    g.stages@[i as int].name == self.stages@[i as int].name,
                    g.stages@[i as int].text == self.stages@[i as int].text,
                    g.stages@[i as int].current_option == self.stages@[i as int].current_option,
                    self.stages@[i as int].options@.len() == n_opts,
                    forall|i2: int|
                        i < i2 < n_stages ==> #[trigger] g.stages@[i2] == self.stages@[i2],
                    forall|i2: int|
                        0 <= i2 < i ==> stage_fully_ok(self.stages@, ids@, i2),
                    forall|i2: int|
                        0 <= i2 < i ==> stage_ids_mapped(
                            #[trigger] self.stages@[i2],
                            g.stages@[i2],
                            ids@,
                            i2,
                        ),
                    forall|j2: int|
                        j <= j2 < n_opts ==> #[trigger] g.stages@[i as int].options@[j2]
                            == self.stages@[i as int].options@[j2],
                    forall|j2: int|
                        0 <= j2 < j ==> option_stage_ok(
                            #[trigger] self.stages@[i as int].options@[j2],
                            ids@,
                        ),
                    forall|j2: int|
                        0 <= j2 < j ==> #[trigger] g.stages@[i as int].options@[j2]
                            == option_target_remapped(self.stages@[i as int].options@[j2], ids@),
                decreases n_opts - j,
            {
                if g.stages[i].options[j].text.len() == 0 {
                    return Err(ValidationError::EmptyOptionText { stage_index });
                }
                let t = g.stages[i].options[j].target_stage;
                match lookup_id(&ids, t) {
                    Some(p) => {
                        g.stages[i].options[j].target_stage = p;
                    },
                    None => {
                        return Err(
                            ValidationError::UnknownTargetStage {
                                target: t,
                                stage_index,
                                stage_name,
                            },
                        );
                    },
                }
                j += 1;
            }
            match lookup_id(&ids, stage_index) {
                Some(p) => {
                    if p != i {
                        return Err(ValidationError::DuplicateStageIndex { stage_index });
                    }
                    g.stages[i].index = p;
                },
                None => {
                    return Err(ValidationError::DuplicateStageIndex { stage_index });
                },
            }
            proof {
                assert(stage_ids_mapped(self.stages@[i as int], g.stages@[i as int], ids@, i as int));
            }
            i += 1;
        }
        match lookup_id(&ids, g.entry_stage) {
            Some(p) => {
                g.entry_stage = p;
            },
            None => {
                return Err(ValidationError::InvalidEntryStage);
            },
        }
        match lookup_id(&ids, g.exit_stage) {
            Some(p) => {
                g.exit_stage = p;
            },
            None => {
                return Err(ValidationError::InvalidExitStage);
            },
        }
        proof {
            assert forall|i2: int|
                0 <= i2 < self.stages@.len() implies stage_targets_clean(
                #[trigger] self.stages@[i2],
                stage_ids(self.stages@),
            ) by {
                assert(stage_fully_ok(self.stages@, stage_ids(self.stages@), i2));
            }
            assert forall|i2: int|
                0 <= i2 < self.stages@.len() implies last_index_of(
                stage_ids(self.stages@),
                (#[trigger] self.stages@[i2]).index,
            ) == i2 by {
                assert(stage_fully_ok(self.stages@, stage_ids(self.stages@), i2));
            }
        }
        Ok(g)
    }
    /// Remaps every `UseItem` reference of every option's and every item's
    /// effect, and every item's own id (rejecting duplicated ids), to the
    /// item's array position. The first offender fails the pass.
    pub fn map_item_ids(self) -> (r: Result<GameState, ValidationError>)
        ensures
            r is Ok <==> items_pass_ok(self),
            r matches Ok(s) ==> {
                &&& s.name == self.name
                &&& s.stats == self.stats
                &&& s.item_slots == self.item_slots
                &&& s.entry_stage == self.entry_stage
                &&& s.exit_stage == self.exit_stage
                &&& s.current_stage == self.current_stage
                &&& s.finished == self.finished
                &&& s.stages@.len() == self.stages@.len()
                &&& forall|i: int|
                    0 <= i < self.stages@.len() ==> stage_items_mapped(
                        #[trigger] self.stages@[i],
                        s.stages@[i],
                        item_ids(self.items@),
                    )
                &&& s.items@.len() == self.items@.len()
                &&& forall|k: int|
                    0 <= k < self.items@.len() ==> #[trigger] s.items@[k] == (Item {
                        id: k as usize,
                        name: self.items@[k].name,
                        effect: item_effect_item_remapped(
                            self.items@[k].effect,
                            item_ids(self.items@),
                        ),
                    })
            },
            r matches Err(e) ==> match e {
                ValidationError::UnknownItem { item_id } => {
                    ||| exists|i: int, j: int|
                        {
                            &&& 0 <= i < self.stages@.len()
                            &&& 0 <= j < self.stages@[i].options@.len()
                            &&& !effect_item_resolvable(
                                (#[trigger] self.stages@[i].options@[j]).effect,
                                item_ids(self.items@),
                            )
                            &&& forall|i2: int|
                                0 <= i2 < i ==> stage_items_clean(
                                    #[trigger] self.stages@[i2],
                                    item_ids(self.items@),
                                )
                            &&& forall|j2: int|
                                0 <= j2 < j ==> effect_item_resolvable(
                                    (#[trigger] self.stages@[i].options@[j2]).effect,
                                    item_ids(self.items@),
                                )
                            &&& item_id == effect_item_id(
                                self.stages@[i].options@[j].effect,
                            )->Some_0
                        }
                    ||| {
                        &&& (forall|i2: int|
                            0 <= i2 < self.stages@.len() ==> stage_items_clean(
                                #[trigger] self.stages@[i2],
                                item_ids(self.items@),
                            ))
                        &&& exists|k: int|
                            {
                                &&& 0 <= k < self.items@.len()
                                &&& forall|k2: int|
                                    0 <= k2 < k ==> item_fully_ok(
                                        self.items@,
                                        item_ids(self.items@),
                                        k2,
                                    )
                                &&& last_index_of(
                                    item_ids(self.items@),
                                    (#[trigger] self.items@[k]).id,
                                ) == k
                                &&& !item_effect_item_resolvable(
                                    self.items@[k].effect,
                                    item_ids(self.items@),
                                )
                                &&& item_id == effect_item_id(
                                    item_effect_inner(self.items@[k].effect)->Some_0,
                                )->Some_0
                            }
                    }
                },
                ValidationError::DuplicateItemId { item_id } => {
                    &&& (forall|i2: int|
                        0 <= i2 < self.stages@.len() ==> stage_items_clean(
                            #[trigger] self.stages@[i2],
                            item_ids(self.items@),
                        ))
                    &&& exists|k: int|
                        {
                            &&& 0 <= k < self.items@.len()
                            &&& forall|k2: int|
                                0 <= k2 < k ==> item_fully_ok(
                                    self.items@,
                                    item_ids(self.items@),
                                    k2,
                                )
                            &&& last_index_of(item_ids(self.items@), (#[trigger] self.items@[k]).id)
                                != k
                            &&& item_id == self.items@[k].id
                        }
                },
                _ => false,
            },
    {
        let mut g = self;
        let ids = item_id_table(&g.items);
        let n_stages = g.stages.len();
        let mut i: usize = 0;
        while i < n_stages
            invariant
                n_stages == g.stages@.len(),
                i <= n_stages,
                ids@ == item_ids(self.items@),
                g.name == self.name,
                g.stats == self.stats,
                g.item_slots == self.item_slots,
                g.items == self.items,
                g.entry_stage == self.entry_stage,
                g.exit_stage == self.exit_stage,
                g.current_stage == self.current_stage,
                g.finished == self.finished,
                g.stages@.len() == self.stages@.len(),
                forall|i2: int| i <= i2 < n_stages ==> #[trigger] g.stages@[i2] == self.stages@[i2],
                forall|i2: int|
                    0 <= i2 < i ==> stage_items_clean(#[trigger] self.stages@[i2], ids@),
                forall|i2: int|
                    0 <= i2 < i ==> stage_items_mapped(
                        #[trigger] self.stages@[i2],
                        g.stages@[i2],
                        ids@,
                    ),
            decreases n_stages - i,
        {
            let n_opts = g.stages[i].options.len();
            let mut j: usize = 0;
            while j < n_opts
                invariant
                    i < n_stages,
                    n_stages == g.stages@.len(),
                    n_opts == g.stages@[i as int].options@.len(),
                    j <= n_opts,
                    ids@ == item_ids(self.items@),
                    g.name == self.name,
                    g.stats == self.stats,
                    g.item_slots == self.item_slots,
                    g.items == self.items,
                    g.entry_stage == self.entry_stage,
                    g.exit_stage == self.exit_stage,
                    g.current_stage == self.current_stage,
                    g.finished == self.finished,
                    g.stages@.len() == self.stages@.len(),
                    g.stages@[i as int].index == self.stages@[i as int].index,
                    g.stages@[i as int].name == self.stages@[i as int].name,
                    g.stages@[i as int].text == self.stages@[i as int].text,
                    g.stages@[i as int].current_option == self.stages@[i as int].current_option,
                    self.stages@[i as int].options@.len() == n_opts,
                    forall|i2: int|
                        i < i2 < n_stages ==> #[trigger] g.stages@[i2] == self.stages@[i2],
                    forall|i2: int|
                        0 <= i2 < i ==> stage_items_clean(#[trigger] self.stages@[i2], ids@),
                    forall|i2: int|
                        0 <= i2 < i ==> stage_items_mapped(
                            #[trigger] self.stages@[i2],
                            g.stages@[i2],
                            ids@,
                        ),
                    forall|j2: int|
                        j <= j2 < n_opts ==> #[trigger] g.stages@[i as int].options@[j2]
                            == self.stages@[i as int].options@[j2],
                    forall|j2: int|
                        0 <= j2 < j ==> effect_item_resolvable(
                            (#[trigger] self.stages@[i as int].options@[j2]).effect,
                            ids@,
                        ),
                    forall|j2: int|
                        0 <= j2 < j ==> #[trigger] g.stages@[i as int].options@[j2]
                            == option_item_remapped(self.stages@[i as int].options@[j2], ids@),
                decreases n_opts - j,
            {
                let eff = g.stages[i].options[j].effect;
                match effect_item_id_exec(&eff) {
                    Some(iid) => {
                        match lookup_id(&ids, iid) {
                            Some(p) => {
                                g.stages[i].options[j].effect = Effect::UseItem { item_id: p };
                            },
                            None => {
                                return Err(ValidationError::UnknownItem { item_id: iid });
                            },
                        }
                    },
                    None => {},
                }
                j += 1;
            }
            proof {
                assert(stage_items_mapped(self.stages@[i as int], g.stages@[i as int], ids@));
            }
            i += 1;
        }
        let n_items = g.items.len();
        let mut k: usize = 0;
        while k < n_items
            invariant
                n_items == g.items@.len(),
                k <= n_items,
                ids@ == item_ids(self.items@),
                g.name == self.name,
                g.stats == self.stats,
                g.item_slots == self.item_slots,
                g.entry_stage == self.entry_stage,
                g.exit_stage == self.exit_stage,
                g.current_stage == self.current_stage,
                g.finished == self.finished,
                g.items@.len() == self.items@.len(),
                g.stages@.len() == self.stages@.len(),
                forall|i2: int|
                    0 <= i2 < g.stages@.len() ==> stage_items_mapped(
                        #[trigger] self.stages@[i2],
                        g.stages@[i2],
                        ids@,
                    ),
                forall|i2: int|
                    0 <= i2 < g.stages@.len() ==> stage_items_clean(
                        #[trigger] self.stages@[i2],
                        ids@,
                    ),
                forall|k2: int| k <= k2 < n_items ==> #[trigger] g.items@[k2] == self.items@[k2],
                forall|k2: int| 0 <= k2 < k ==> item_fully_ok(self.items@, ids@, k2),
                forall|k2: int|
                    0 <= k2 < k ==> #[trigger] g.items@[k2] == (Item {
                        id: k2 as usize,
                        name: self.items@[k2].name,
                        effect: item_effect_item_remapped(self.items@[k2].effect, ids@),
                    }),
            decreases n_items - k,
        {
            let own_id = g.items[k].id;
            match lookup_id(&ids, own_id) {
                Some(p) => {
                    if p != k {
                        proof {
                            assert(!item_fully_ok(self.items@, item_ids(self.items@), k as int));
                        }
                        return Err(ValidationError::DuplicateItemId { item_id: own_id });
                    }
                    g.items[k].id = p;
                },
                None => {
                    proof {
                        assert(!item_fully_ok(self.items@, item_ids(self.items@), k as int));
                    }
                    return Err(ValidationError::DuplicateItemId { item_id: own_id });
                },
            }
            let old_effect = &g.items[k].effect;
            let new_effect = match remap_item_effect_items(old_effect, &ids) {
                Ok(e) => e,
                Err(iid) => {
                    proof {
                        assert(!item_fully_ok(self.items@, item_ids(self.items@), k as int));
                    }
                    return Err(ValidationError::UnknownItem { item_id: iid });
                },
            };
            g.items[k].effect = new_effect;
            k += 1;
        }
        Ok(g)
    }
}


/// Whether an option passes the stage pass's checks: its text is nonempty
/// and its target stage id occurs in the id table.
pub open spec fn option_stage_ok(o: StageOption, ids: Seq<usize>) -> bool {
    o.text@.len() > 0 && last_index_of(ids, o.target_stage) != -1
}

/// An option after the stage pass: its target resolved to a position.
pub open spec fn option_target_remapped(o: StageOption, ids: Seq<usize>) -> StageOption {
    StageOption {
        target_stage: last_index_of(ids, o.target_stage) as usize,
        text: o.text,
        condition: o.condition,
        effect: o.effect,
    }
}

/// Whether every option of the stage passes the stage pass's checks.
pub open spec fn stage_targets_clean(st: Stage, ids: Seq<usize>) -> bool {
    forall|j: int| 0 <= j < st.options@.len() ==> option_stage_ok(#[trigger] st.options@[j], ids)
}

/// Whether the stage at position `i` passes the stage pass whole: its
/// options are clean and its own id resolves back to `i` (no duplicate).
pub open spec fn stage_fully_ok(stages: Seq<Stage>, ids: Seq<usize>, i: int) -> bool {
    stage_targets_clean(stages[i], ids) && last_index_of(ids, stages[i].index) == i
}

/// Whether `new` is `orig` after the stage pass, standing at position `pos`.
pub open spec fn stage_ids_mapped(orig: Stage, new: Stage, ids: Seq<usize>, pos: int) -> bool {
    &&& new.index == pos
    &&& new.name == orig.name
    &&& new.text == orig.text
    &&& new.current_option == orig.current_option
    &&& new.options@.len() == orig.options@.len()
    &&& forall|j: int|
        0 <= j < orig.options@.len() ==> #[trigger] new.options@[j] == option_target_remapped(
            orig.options@[j],
            ids,
        )
}

/// The success condition of the stage pass: every option has text and a
/// resolvable target, stage ids form a bijection to positions, and the entry
/// and exit ids resolve.
pub open spec fn stages_pass_ok(g: GameState) -> bool {
    &&& forall|i: int|
        0 <= i < g.stages@.len() ==> stage_targets_clean(
            #[trigger] g.stages@[i],
            stage_ids(g.stages@),
        )
    &&& forall|i: int|
        0 <= i < g.stages@.len() ==> last_index_of(
            stage_ids(g.stages@),
            (#[trigger] g.stages@[i]).index,
        ) == i
    &&& last_index_of(stage_ids(g.stages@), g.entry_stage) != -1
    &&& last_index_of(stage_ids(g.stages@), g.exit_stage) != -1
}

/// Whether `new` is `orig` after the stat pass: every option's stat
/// references resolved, everything else untouched.
pub open spec fn stage_stats_mapped(orig: Stage, new: Stage, ids: Seq<usize>) -> bool {
    &&& new.index == orig.index
    &&& new.name == orig.name
    &&& new.text == orig.text
    &&& new.current_option == orig.current_option
    &&& new.options@.len() == orig.options@.len()
    &&& forall|j: int|
        0 <= j < orig.options@.len() ==> #[trigger] new.options@[j] == option_stats_remapped(
            orig.options@[j],
            ids,
        )
}

/// An item effect after the stat pass.
pub open spec fn item_effect_stats_remapped(e: ItemEffect, ids: Seq<usize>) -> ItemEffect {
    match e {
        ItemEffect::NoEffect => e,
        ItemEffect::Consumable { on_consume } => ItemEffect::Consumable {
            on_consume: remap_effect_stat(on_consume, ids),
        },
        ItemEffect::Equippable { slot, when_equipped } => ItemEffect::Equippable {
            slot,
            when_equipped: remap_effect_stat(when_equipped, ids),
        },
    }
}

/// The author-chosen ids of the stats, as a lookup table.
fn stat_id_table(stats: &Vec<Statistic>) -> (ids: Vec<usize>)
    ensures
        ids@ == stat_ids(stats@),
{
    let mut ids: Vec<usize> = Vec::new();
    let mut j: usize = 0;
    while j < stats.len()
        invariant
            j <= stats@.len(),
            ids@.len() == j,
            forall|k: int| 0 <= k < j ==> ids@[k] == stats@[k].id,
        decreases stats@.len() - j,
    {
        ids.push(stats[j].id);
        j += 1;
    }
    proof {
        assert(ids@ =~= stat_ids(stats@));
    }
    ids
}

/// The author-chosen indices of the stages, as a lookup table.
fn stage_id_table(stages: &Vec<Stage>) -> (ids: Vec<usize>)
    ensures
        ids@ == stage_ids(stages@),
{
    let mut ids: Vec<usize> = Vec::new();
    let mut j: usize = 0;
    while j < stages.len()
        invariant
            j <= stages@.len(),
            ids@.len() == j,
            forall|k: int| 0 <= k < j ==> ids@[k] == stages@[k].index,
        decreases stages@.len() - j,
    {
        ids.push(stages[j].index);
        j += 1;
    }
    proof {
        assert(ids@ =~= stage_ids(stages@));
    }
    ids
}

/// The author-chosen ids of the items, as a lookup table.
fn item_id_table(items: &Vec<Item>) -> (ids: Vec<usize>)
    ensures
        ids@ == item_ids(items@),
{
    let mut ids: Vec<usize> = Vec::new();
    let mut j: usize = 0;
    while j < items.len()
        invariant
            j <= items@.len(),
            ids@.len() == j,
            forall|k: int| 0 <= k < j ==> ids@[k] == items@[k].id,
        decreases items@.len() - j,
    {
        ids.push(items[j].id);
        j += 1;
    }
    proof {
        assert(ids@ =~= item_ids(items@));
    }
    ids
}

/// The item id an effect carries, if any.
fn effect_item_id_exec(e: &Effect) -> (r: Option<usize>)
    ensures
        r == effect_item_id(*e),
{
    match *e {
        Effect::UseItem { item_id } => Some(item_id),
        _ => None,
    }
}

/// Remaps the item reference of an item effect's inner effect; the error is
/// the unresolved id.
fn remap_item_effect_items(e: &ItemEffect, ids: &Vec<usize>) -> (r: Result<ItemEffect, usize>)
    ensures
        match r {
            Ok(e2) => item_effect_item_resolvable(*e, ids@) && e2 == item_effect_item_remapped(
                *e,
                ids@,
            ),
            Err(iid) => !item_effect_item_resolvable(*e, ids@) && Some(iid) == effect_item_id(
                item_effect_inner(*e)->Some_0,
            ),
        },
{
    match e {
        ItemEffect::NoEffect => Ok(ItemEffect::NoEffect),
        ItemEffect::Consumable { on_consume } => {
            match effect_item_id_exec(on_consume) {
                Some(iid) => match lookup_id(ids, iid) {
                    Some(p) => Ok(ItemEffect::Consumable { on_consume: Effect::UseItem { item_id: p } }),
                    None => Err(iid),
                },
                None => Ok(ItemEffect::Consumable { on_consume: *on_consume }),
            }
        },
        ItemEffect::Equippable { slot, when_equipped } => {
            match effect_item_id_exec(when_equipped) {
                Some(iid) => match lookup_id(ids, iid) {
                    Some(p) => Ok(
                        ItemEffect::Equippable {
                            slot: slot.clone(),
                            when_equipped: Effect::UseItem { item_id: p },
                        },
                    ),
                    None => Err(iid),
                },
                None => Ok(
                    ItemEffect::Equippable { slot: slot.clone(), when_equipped: *when_equipped },
                ),
            }
        },
    }
}

/// The stat id a condition carries, if any.
fn cond_stat_id_exec(c: &Condition) -> (r: Option<usize>)
    ensures
        r == cond_stat_id(*c),
{
    match *c {
        Condition::Always => None,
        Condition::IfStatHigher { stat_id, .. } => Some(stat_id),
        Condition::IfStatLower { stat_id, .. } => Some(stat_id),
        Condition::IfStatExact { stat_id, .. } => Some(stat_id),
    }
}

/// The condition with its stat id replaced.
fn cond_with_stat_id_exec(c: &Condition, new_id: usize) -> (r: Condition)
    ensures
        r == cond_with_stat_id(*c, new_id),
{
    match *c {
        Condition::Always => Condition::Always,
        Condition::IfStatHigher { higher_than, .. } => Condition::IfStatHigher {
            stat_id: new_id,
            higher_than,
        },
        Condition::IfStatLower { lower_than, .. } => Condition::IfStatLower {
            stat_id: new_id,
            lower_than,
        },
        Condition::IfStatExact { value, .. } => Condition::IfStatExact { stat_id: new_id, value },
    }
}

/// The stat id an effect carries, if any.
fn effect_stat_id_exec(e: &Effect) -> (r: Option<usize>)
    ensures
        r == effect_stat_id(*e),
{
    match *e {
        Effect::NoEffect => None,
        Effect::UseItem { .. } => None,
        Effect::SetStatHigher { stat_id, .. } => Some(stat_id),
        Effect::SetStatLower { stat_id, .. } => Some(stat_id),
        Effect::SetStatExact { stat_id, .. } => Some(stat_id),
    }
}

/// The effect with its stat id replaced.
fn effect_with_stat_id_exec(e: &Effect, new_id: usize) -> (r: Effect)
    ensures
        r == effect_with_stat_id(*e, new_id),
{
    match *e {
        Effect::NoEffect => Effect::NoEffect,
        Effect::UseItem { item_id } => Effect::UseItem { item_id },
        Effect::SetStatHigher { to_add, .. } => Effect::SetStatHigher { stat_id: new_id, to_add },
        Effect::SetStatLower { to_subtract, .. } => Effect::SetStatLower {
            stat_id: new_id,
            to_subtract,
        },
        Effect::SetStatExact { new_value, .. } => Effect::SetStatExact {
            stat_id: new_id,
            new_value,
        },
    }
}

/// Remaps the stat reference of an item effect's inner effect; `Err` when it
/// does not resolve.
fn remap_item_effect_stats(e: &ItemEffect, ids: &Vec<usize>) -> (r: Result<ItemEffect, ()>)
    ensures
        match r {
            Ok(e2) => item_effect_stat_resolvable(*e, ids@) && e2 == item_effect_stats_remapped(
                *e,
                ids@,
            ),
            Err(_) => !item_effect_stat_resolvable(*e, ids@),
        },
{
    match e {
        ItemEffect::NoEffect => Ok(ItemEffect::NoEffect),
        ItemEffect::Consumable { on_consume } => {
            match effect_stat_id_exec(on_consume) {
                Some(sid) => match lookup_id(ids, sid) {
                    Some(p) => Ok(
                        ItemEffect::Consumable { on_consume: effect_with_stat_id_exec(on_consume, p) },
                    ),
                    None => Err(()),
                },
                None => Ok(ItemEffect::Consumable { on_consume: *on_consume }),
            }
        },
        ItemEffect::Equippable { slot, when_equipped } => {
            match effect_stat_id_exec(when_equipped) {
                Some(sid) => match lookup_id(ids, sid) {
                    Some(p) => Ok(
                        ItemEffect::Equippable {
                            slot: slot.clone(),
                            when_equipped: effect_with_stat_id_exec(when_equipped, p),
                        },
                    ),
                    None => Err(()),
                },
                None => Ok(
                    ItemEffect::Equippable { slot: slot.clone(), when_equipped: *when_equipped },
                ),
            }
        },
    }
}

impl GameState {
    /// The whole loading pipeline: the dead-end check, the three id-remapping
    /// passes, and the initial entry of the (remapped) entry stage. The first
    /// violation aborts loading; a successfully loaded game satisfies the
    /// runtime invariant.
    pub fn post_process(self) -> (r: Result<GameState, ValidationError>)
        ensures
            r is Ok <==> spec_loads_ok(self),
            r matches Ok(s) ==> s.wf() && loaded_from(self, s),
            r matches Err(e) ==> match e {
                ValidationError::DeadEndStage { .. } => !dead_ends_ok(self),
                ValidationError::NoExitStage => !dead_ends_ok(self),
                ValidationError::UnknownStat { .. } => dead_ends_ok(self) && !stats_pass_ok(self),
                ValidationError::UnknownStatInItem { .. } => dead_ends_ok(self) && !stats_pass_ok(
                    self,
                ),
                ValidationError::EmptyOptionText { .. } => dead_ends_ok(self) && stats_pass_ok(self)
                    && !stages_pass_ok(self),
                ValidationError::UnknownTargetStage { .. } => dead_ends_ok(self) && stats_pass_ok(
                    self,
                ) && !stages_pass_ok(self),
                ValidationError::DuplicateStageIndex { .. } => dead_ends_ok(self) && stats_pass_ok(
                    self,
                ) && !stages_pass_ok(self),
                ValidationError::InvalidEntryStage => dead_ends_ok(self) && stats_pass_ok(self)
                    && !stages_pass_ok(self),
                ValidationError::InvalidExitStage => dead_ends_ok(self) && stats_pass_ok(self)
                    && !stages_pass_ok(self),
                ValidationError::UnknownItem { .. } => dead_ends_ok(self) && stats_pass_ok(self)
                    && stages_pass_ok(self) && !items_pass_ok(self),
                ValidationError::DuplicateItemId { .. } => dead_ends_ok(self) && stats_pass_ok(self)
                    && stages_pass_ok(self) && !items_pass_ok(self),
            },
    {
        let ghost g0 = self;
        let ghost sids = stat_ids(g0.stats@);
        let ghost gids = stage_ids(g0.stages@);
        let ghost iids = item_ids(g0.items@);
        let g1 = match self.check_dead_ends() {
            Ok(g) => g,
            Err(e) => {
                return Err(e);
            },
        };
        let g2 = match g1.map_stat_ids() {
            Ok(g) => g,
            Err(e) => {
                return Err(e);
            },
        };
        proof {
            lemma_stat_pass_preserves_stage_conditions(g0, g2);
            lemma_stat_pass_preserves_item_conditions(g0, g2);
        }
        let g3 = match g2.map_stage_ids() {
            Ok(g) => g,
            Err(e) => {
                return Err(e);
            },
        };
        proof {
            lemma_stage_pass_preserves_item_conditions(g0, g2, g3);
        }
        let g4 = match g3.map_item_ids() {
            Ok(g) => g,
            Err(e) => {
                return Err(e);
            },
        };
        let mut g = g4;
        proof {
            lemma_last_index_of(gids, g0.entry_stage);
            lemma_last_index_of(gids, g0.exit_stage);
            assert(item_ids(g3.items@) =~= iids);
            assert(stage_ids(g2.stages@) =~= gids);
        }
        g.current_stage = g.entry_stage;
        proof {
            assert forall|j: int|
                0 <= j < g.stages@[g.current_stage as int].options@.len() implies cond_ref_ok(
                (#[trigger] g.stages@[g.current_stage as int].options@[j]).condition,
                g.stats@.len() as int,
            ) by {
                let i = g.current_stage as int;
                let orig = g0.stages@[i].options@[j];
                assert(g2.stages@[i].options@[j] == option_stats_remapped(orig, sids));
                assert(g3.stages@[i].options@[j] == option_target_remapped(
                    g2.stages@[i].options@[j],
                    stage_ids(g2.stages@),
                ));
                assert(g.stages@[i].options@[j] == option_item_remapped(
                    g3.stages@[i].options@[j],
                    item_ids(g3.items@),
                ));
                match cond_stat_id(orig.condition) {
                    Some(sid) => {
                        lemma_last_index_of(sids, sid);
                    },
                    None => {},
                }
            }
        }
        g.enter_current_stage();
        proof {
            let len = g0.stages@.len() as int;
            let entry = last_index_of(gids, g0.entry_stage);
            let exitp = last_index_of(gids, g0.exit_stage);
            assert forall|i: int|
                0 <= i < len implies {
                &&& (#[trigger] g.stages@[i]).index == i
                &&& g.stages@[i].name == g0.stages@[i].name
                &&& g.stages@[i].text == g0.stages@[i].text
                &&& g.stages@[i].options@.len() == g0.stages@[i].options@.len()
                &&& (i != entry ==> g.stages@[i].current_option == g0.stages@[i].current_option)
            } by {
                assert(stage_stats_mapped(g0.stages@[i], g2.stages@[i], sids));
                assert(stage_ids_mapped(g2.stages@[i], g3.stages@[i], stage_ids(g2.stages@), i));
                assert(stage_items_mapped(g3.stages@[i], g4.stages@[i], item_ids(g3.items@)));
            }
            assert forall|k: int|
                0 <= k < g0.items@.len() implies #[trigger] g.items@[k] == (Item {
                id: k as usize,
                name: g0.items@[k].name,
                effect: item_effect_item_remapped(
                    item_effect_stats_remapped(g0.items@[k].effect, sids),
                    iids,
                ),
            }) by {
                assert(g2.items@[k] == (Item {
                    id: g0.items@[k].id,
                    name: g0.items@[k].name,
                    effect: item_effect_stats_remapped(g0.items@[k].effect, sids),
                }));
                assert(g3.items@[k] == g2.items@[k]);
                assert(g4.items@[k] == (Item {
                    id: k as usize,
                    name: g3.items@[k].name,
                    effect: item_effect_item_remapped(g3.items@[k].effect, item_ids(g3.items@)),
                }));
            }
            // every option of the result is the fully remapped original
            assert forall|i: int, j: int|
                0 <= i < len && 0 <= j < g0.stages@[i].options@.len()
                    implies #[trigger] g.stages@[i].options@[j] == (StageOption {
                target_stage: last_index_of(gids, g0.stages@[i].options@[j].target_stage) as usize,
                text: g0.stages@[i].options@[j].text,
                condition: remap_condition(g0.stages@[i].options@[j].condition, sids),
                effect: remap_effect_item(
                    remap_effect_stat(g0.stages@[i].options@[j].effect, sids),
                    iids,
                ),
            }) by {
                let orig = g0.stages@[i].options@[j];
                assert(g2.stages@[i].options@[j] == option_stats_remapped(orig, sids));
                assert(g3.stages@[i].options@[j] == option_target_remapped(
                    g2.stages@[i].options@[j],
                    stage_ids(g2.stages@),
                ));
                assert(g4.stages@[i].options@[j] == option_item_remapped(
                    g3.stages@[i].options@[j],
                    item_ids(g3.items@),
                ));
            }
            // referential integrity of the result
            assert forall|i: int, j: int|
                0 <= i < len && 0 <= j < g.stages@[i].options@.len() implies option_refs_ok(
                #[trigger] g.stages@[i].options@[j],
                g.stages@.len() as int,
                g.stats@.len() as int,
                g.items@.len() as int,
            ) by {
                let orig = g0.stages@[i].options@[j];
                lemma_last_index_of(gids, orig.target_stage);
                match cond_stat_id(orig.condition) {
                    Some(sid) => {
                        lemma_last_index_of(sids, sid);
                    },
                    None => {},
                }
                match effect_stat_id(orig.effect) {
                    Some(sid) => {
                        lemma_last_index_of(sids, sid);
                    },
                    None => {},
                }
                match effect_item_id(orig.effect) {
                    Some(iid) => {
                        lemma_last_index_of(iids, iid);
                    },
                    None => {},
                }
            }
            assert forall|k: int|
                0 <= k < g.items@.len() implies item_effect_refs_ok(
                (#[trigger] g.items@[k]).effect,
                g.stats@.len() as int,
                g.items@.len() as int,
            ) by {
                let orig = g0.items@[k].effect;
                assert(item_fully_ok(g3.items@, item_ids(g3.items@), k));
                match item_effect_inner(orig) {
                    Some(inner) => {
                        match effect_stat_id(inner) {
                            Some(sid) => {
                                lemma_last_index_of(sids, sid);
                            },
                            None => {},
                        }
                        match effect_item_id(inner) {
                            Some(iid) => {
                                lemma_last_index_of(iids, iid);
                            },
                            None => {},
                        }
                    },
                    None => {},
                }
            }
            assert forall|i: int, j: int|
                0 <= i < len && 0 <= j < g.stages@[i].options@.len() implies (
            #[trigger] g.stages@[i].options@[j]).text@.len() > 0 by {
                assert(option_stage_ok(g0.stages@[i].options@[j], gids));
            }
            // exactly the stage at the remapped exit id has zero options
            let e = choose|i: int|
                0 <= i < len && (#[trigger] g0.stages@[i]).options@.len() == 0 && g0.stages@[i].index
                    == g0.exit_stage;
            assert(last_index_of(gids, g0.stages@[e].index) == e);
            assert(e == exitp);
            assert forall|i: int|
                0 <= i < len implies ((#[trigger] g.stages@[i].options@.len() == 0) <==> i == exitp) by {
                assert(g.stages@[i].options@.len() == g0.stages@[i].options@.len());
                if g0.stages@[i].options@.len() == 0 {
                    assert(g0.stages@[i].index == g0.exit_stage);
                    assert(last_index_of(gids, g0.stages@[i].index) == i);
                }
            }
            crate::navigation::lemma_enter_cursor_valid(
                g.stats@,
                g.stages@[g.current_stage as int].options@,
            );
            assert(g.stages_dense());
            assert(vstd::std_specs::vec::spec_vec_len(&g.items) == g.items@.len());
            assert(g.items_dense());
            assert(g.refs_ok());
            assert(g.exit_ok());
            assert(g.texts_ok());
            assert(g.current_stage < g.stages@.len());
            assert(g.entry_stage < g.stages@.len());
            assert(g.cursor_ok());
            assert(loaded_from(g0, g));
        }
        Ok(g)
    }
}

/// The stat pass leaves every option's text, target and the stage ids
/// untouched, so the stage pass succeeds on its result exactly when it
/// succeeds on the original.
proof fn lemma_stat_pass_preserves_stage_conditions(g0: GameState, g2: GameState)
    requires
        g2.stages@.len() == g0.stages@.len(),
        g2.entry_stage == g0.entry_stage,
        g2.exit_stage == g0.exit_stage,
        forall|i: int|
            0 <= i < g0.stages@.len() ==> stage_stats_mapped(
                #[trigger] g0.stages@[i],
                g2.stages@[i],
                stat_ids(g0.stats@),
            ),
    ensures
        stage_ids(g2.stages@) == stage_ids(g0.stages@),
        stages_pass_ok(g2) <==> stages_pass_ok(g0),
{
    assert(stage_ids(g2.stages@) =~= stage_ids(g0.stages@));
    let ids = stage_ids(g0.stages@);
    assert forall|i: int|
        0 <= i < g0.stages@.len() implies (stage_targets_clean(#[trigger] g2.stages@[i], ids)
        <==> stage_targets_clean(g0.stages@[i], ids)) by {
        assert(g2.stages@[i].options@.len() == g0.stages@[i].options@.len());
        if stage_targets_clean(g2.stages@[i], ids) {
            assert forall|j: int|
                0 <= j < g0.stages@[i].options@.len() implies option_stage_ok(
                #[trigger] g0.stages@[i].options@[j],
                ids,
            ) by {
                assert(g2.stages@[i].options@[j] == option_stats_remapped(
                    g0.stages@[i].options@[j],
                    stat_ids(g0.stats@),
                ));
                assert(option_stage_ok(g2.stages@[i].options@[j], ids));
            }
        }
        if stage_targets_clean(g0.stages@[i], ids) {
            assert forall|j: int|
                0 <= j < g2.stages@[i].options@.len() implies option_stage_ok(
                #[trigger] g2.stages@[i].options@[j],
                ids,
            ) by {
                assert(g2.stages@[i].options@[j] == option_stats_remapped(
                    g0.stages@[i].options@[j],
                    stat_ids(g0.stats@),
                ));
                assert(option_stage_ok(g0.stages@[i].options@[j], ids));
            }
        }
    }
}

/// The stat pass touches no item id and no `UseItem` reference, so the item
/// pass's success condition is unchanged by it.
proof fn lemma_stat_pass_preserves_item_conditions(g0: GameState, g2: GameState)
    requires
        g2.items@.len() == g0.items@.len(),
        g2.stages@.len() == g0.stages@.len(),
        forall|i: int|
            0 <= i < g0.stages@.len() ==> stage_stats_mapped(
                #[trigger] g0.stages@[i],
                g2.stages@[i],
                stat_ids(g0.stats@),
            ),
        forall|k: int|
            0 <= k < g0.items@.len() ==> #[trigger] g2.items@[k] == (Item {
                id: g0.items@[k].id,
                name: g0.items@[k].name,
                effect: item_effect_stats_remapped(g0.items@[k].effect, stat_ids(g0.stats@)),
            }),
    ensures
        item_ids(g2.items@) == item_ids(g0.items@),
        items_pass_ok(g2) <==> items_pass_ok(g0),
{
    assert(item_ids(g2.items@) =~= item_ids(g0.items@));
    let ids = item_ids(g0.items@);
    assert forall|i: int|
        0 <= i < g0.stages@.len() implies (stage_items_clean(#[trigger] g2.stages@[i], ids)
        <==> stage_items_clean(g0.stages@[i], ids)) by {
        assert(g2.stages@[i].options@.len() == g0.stages@[i].options@.len());
        if stage_items_clean(g2.stages@[i], ids) {
            assert forall|j: int|
                0 <= j < g0.stages@[i].options@.len() implies effect_item_resolvable(
                (#[trigger] g0.stages@[i].options@[j]).effect,
                ids,
            ) by {
                assert(g2.stages@[i].options@[j] == option_stats_remapped(
                    g0.stages@[i].options@[j],
                    stat_ids(g0.stats@),
                ));
                assert(effect_item_resolvable(g2.stages@[i].options@[j].effect, ids));
            }
        }
        if stage_items_clean(g0.stages@[i], ids) {
            assert forall|j: int|
                0 <= j < g2.stages@[i].options@.len() implies effect_item_resolvable(
                (#[trigger] g2.stages@[i].options@[j]).effect,
                ids,
            ) by {
                assert(g2.stages@[i].options@[j] == option_stats_remapped(
                    g0.stages@[i].options@[j],
                    stat_ids(g0.stats@),
                ));
                assert(effect_item_resolvable(g0.stages@[i].options@[j].effect, ids));
            }
        }
    }
    assert forall|k: int|
        0 <= k < g0.items@.len() implies (item_fully_ok(g2.items@, ids, k) <==> item_fully_ok(
        g0.items@,
        ids,
        k,
    )) by {
        assert(g2.items@[k].id == g0.items@[k].id);
    }
}

/// The stage pass touches no item and no effect, so the item pass's success
/// condition is unchanged by it.
proof fn lemma_stage_pass_preserves_item_conditions(g0: GameState, g2: GameState, g3: GameState)
    requires
        g3.items == g2.items,
        g2.items@.len() == g0.items@.len(),
        g3.stages@.len() == g2.stages@.len(),
        g2.stages@.len() == g0.stages@.len(),
        forall|i: int|
            0 <= i < g2.stages@.len() ==> stage_ids_mapped(
                #[trigger] g2.stages@[i],
                g3.stages@[i],
                stage_ids(g2.stages@),
                i,
            ),
        forall|i: int|
            0 <= i < g0.stages@.len() ==> stage_stats_mapped(
                #[trigger] g0.stages@[i],
                g2.stages@[i],
                stat_ids(g0.stats@),
            ),
        forall|k: int|
            0 <= k < g0.items@.len() ==> #[trigger] g2.items@[k] == (Item {
                id: g0.items@[k].id,
                name: g0.items@[k].name,
                effect: item_effect_stats_remapped(g0.items@[k].effect, stat_ids(g0.stats@)),
            }),
    ensures
        item_ids(g3.items@) == item_ids(g0.items@),
        items_pass_ok(g3) <==> items_pass_ok(g0),
{
    lemma_stat_pass_preserves_item_conditions(g0, g2);
    let ids = item_ids(g0.items@);
    assert forall|i: int|
        0 <= i < g2.stages@.len() implies (stage_items_clean(#[trigger] g3.stages@[i], ids)
        <==> stage_items_clean(g2.stages@[i], ids)) by {
        assert(g3.stages@[i].options@.len() == g2.stages@[i].options@.len());
        if stage_items_clean(g3.stages@[i], ids) {
            assert forall|j: int|
                0 <= j < g2.stages@[i].options@.len() implies effect_item_resolvable(
                (#[trigger] g2.stages@[i].options@[j]).effect,
                ids,
            ) by {
                assert(g3.stages@[i].options@[j] == option_target_remapped(
                    g2.stages@[i].options@[j],
                    stage_ids(g2.stages@),
                ));
                assert(effect_item_resolvable(g3.stages@[i].options@[j].effect, ids));
            }
        }
        if stage_items_clean(g2.stages@[i], ids) {
            assert forall|j: int|
                0 <= j < g3.stages@[i].options@.len() implies effect_item_resolvable(
                (#[trigger] g3.stages@[i].options@[j]).effect,
                ids,
            ) by {
                assert(g3.stages@[i].options@[j] == option_target_remapped(
                    g2.stages@[i].options@[j],
                    stage_ids(g2.stages@),
                ));
                assert(effect_item_resolvable(g2.stages@[i].options@[j].effect, ids));
            }
        }
    }
    assert forall|k: int|
        0 <= k < g0.items@.len() implies (item_fully_ok(g3.items@, ids, k) <==> item_fully_ok(
        g0.items@,
        ids,
        k,
    )) by {
        assert(g3.items@[k] == g2.items@[k]);
        assert(g2.items@[k].id == g0.items@[k].id);
    }
}

} // verus!
