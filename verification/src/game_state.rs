//! The game state: the dense stage graph, the stats, the items, and the
//! turn-based engine that advances the state one action at a time.
use vstd::prelude::*;

use crate::game_components::{
    cond_ref_ok, effect_stat_id, item_effect_inner, option_eq, spec_has_option, spec_is_filled,
    stage_eq, Conditional, Direction, Effect, Item, ItemEffect, ItemSlot, Stage, StageOption,
    Statistic,
};
use crate::navigation::{
    any_visible, conds_ok, enter_cursor_position, eval_condition, lemma_enter_cursor_valid,
    next_option_position, nth_visible_index, some_visible, spec_enter_cursor, spec_next_option,
    spec_nth_visible, visible_indices, visible_prefix,
};

verus! {

/// One discrete player action. `Quit`, `Cancel`, `Debug` and `Unimplemented`
/// carry no narrative meaning: the engine ignores them and the surrounding
/// input loop owns their effect.
#[derive(Debug)]
pub enum Action {
    Confirm,
    Quit,
    Cancel,
    Unimplemented,
    Up,
    Down,
    Number(usize),
    Debug,
}

/// The full state of one running game.
#[derive(Debug)]
pub struct GameState {
    pub name: String,
    pub stats: Vec<Statistic>,
    pub stages: Vec<Stage>,
    pub item_slots: Vec<ItemSlot>,
    pub items: Vec<Item>,
    pub entry_stage: usize,
    pub exit_stage: usize,
    pub current_stage: usize,
    pub finished: bool,
}

/// Whether an effect's references fit a game with `n_stats` stats and
/// `n_items` items.
pub open spec fn effect_refs_ok(e: Effect, n_stats: int, n_items: int) -> bool {
    match e {
        Effect::NoEffect => true,
        Effect::UseItem { item_id } => item_id < n_items,
        Effect::SetStatHigher { stat_id, .. } => stat_id < n_stats,
        Effect::SetStatLower { stat_id, .. } => stat_id < n_stats,
        Effect::SetStatExact { stat_id, .. } => stat_id < n_stats,
    }
}

/// Whether an option's references fit the game's array lengths.
pub open spec fn option_refs_ok(o: StageOption, n_stages: int, n_stats: int, n_items: int) -> bool {
    &&& o.target_stage < n_stages
    &&& cond_ref_ok(o.condition, n_stats)
    &&& effect_refs_ok(o.effect, n_stats, n_items)
}

/// Whether an item effect's inner references fit the game's array lengths.
pub open spec fn item_effect_refs_ok(e: ItemEffect, n_stats: int, n_items: int) -> bool {
    match item_effect_inner(e) {
        None => true,
        Some(inner) => effect_refs_ok(inner, n_stats, n_items),
    }
}

/// The stat values after applying an effect: `SetStatExact` overwrites,
/// `SetStatHigher`/`SetStatLower` add and subtract with wrap-around, and
/// `NoEffect`/`UseItem` change nothing.
pub open spec fn spec_apply_effect(stats: Seq<Statistic>, e: Effect) -> Seq<Statistic> {
    match e {
        Effect::NoEffect => stats,
        Effect::UseItem { .. } => stats,
        Effect::SetStatExact { stat_id, new_value } => stats.update(
            stat_id as int,
            Statistic {
                id: stats[stat_id as int].id,
                name: stats[stat_id as int].name,
                value: new_value,
            },
        ),
        Effect::SetStatHigher { stat_id, to_add } => stats.update(
            stat_id as int,
            Statistic {
                id: stats[stat_id as int].id,
                name: stats[stat_id as int].name,
                value: vstd::wrapping::i32_specs::wrapping_add(stats[stat_id as int].value, to_add),
            },
        ),
        Effect::SetStatLower { stat_id, to_subtract } => stats.update(
            stat_id as int,
            Statistic {
                id: stats[stat_id as int].id,
                name: stats[stat_id as int].name,
                value: vstd::wrapping::i32_specs::wrapping_sub(
                    stats[stat_id as int].value,
                    to_subtract,
                ),
            },
        ),
    }
}

impl GameState {
    /// Stage at position `i` carries index `i`.
    pub open spec fn stages_dense(self) -> bool {
        forall|i: int| 0 <= i < self.stages@.len() ==> #[trigger] self.stages@[i].index == i
    }

    /// Item at position `i` carries id `i`.
    pub open spec fn items_dense(self) -> bool {
        forall|i: int| 0 <= i < self.items@.len() ==> #[trigger] self.items@[i].id == i
    }

    /// Every reference held by an option or an item effect is a valid array
    /// position.
    pub open spec fn refs_ok(self) -> bool {
        &&& forall|i: int, j: int|
            0 <= i < self.stages@.len() && 0 <= j < self.stages@[i].options@.len()
                ==> option_refs_ok(
                #[trigger] self.stages@[i].options@[j],
                self.stages@.len() as int,
                self.stats@.len() as int,
                self.items@.len() as int,
            )
        &&& forall|k: int|
            0 <= k < self.items@.len() ==> item_effect_refs_ok(
                #[trigger] self.items@[k].effect,
                self.stats@.len() as int,
                self.items@.len() as int,
            )
    }

    /// Exactly the stage at the exit position has zero options.
    pub open spec fn exit_ok(self) -> bool {
        &&& self.exit_stage < self.stages@.len()
        &&& forall|i: int|
            0 <= i < self.stages@.len() ==> ((#[trigger] self.stages@[i].options@.len() == 0)
                <==> i == self.exit_stage)
    }

    /// Every option has at least one line of text.
    pub open spec fn texts_ok(self) -> bool {
        forall|i: int, j: int|
            0 <= i < self.stages@.len() && 0 <= j < self.stages@[i].options@.len() ==> (
            #[trigger] self.stages@[i].options@[j]).text@.len() > 0
    }

    /// The current stage's cursor is 0 exactly when no option of it is
    /// visible, and otherwise rests on a visible option.
    pub open spec fn cursor_ok(self) -> bool {
        let st = self.stages@[self.current_stage as int];
        &&& (st.current_option == 0 ==> !some_visible(self.stats@, st.options@))
        &&& (st.current_option != 0 ==> {
            &&& 1 <= st.current_option <= st.options@.len()
            &&& spec_is_filled(self.stats@, st.options@[st.current_option - 1].condition)
        })
    }

    /// The invariant every loaded game satisfies and every action preserves.
    pub open spec fn wf(self) -> bool {
        &&& self.stages_dense()
        &&& self.items_dense()
        &&& self.refs_ok()
        &&& self.exit_ok()
        &&& self.texts_ok()
        &&& self.current_stage < self.stages@.len()
        &&& self.entry_stage < self.stages@.len()
        &&& self.cursor_ok()
    }

    /// A freshly authored, not yet validated game. The walk starts at the
    /// entry stage and the game is not finished.
    pub fn new(
        name: String,
        stats: Vec<Statistic>,
        stages: Vec<Stage>,
        item_slots: Vec<ItemSlot>,
        items: Vec<Item>,
        entry_stage: usize,
        exit_stage: usize,
    ) -> (g: GameState)
        ensures
            g == (GameState {
                name,
                stats,
                stages,
                item_slots,
                items,
                entry_stage,
                exit_stage,
                current_stage: entry_stage,
                finished: false,
            }),
    {
        GameState {
            name,
            stats,
            stages,
            item_slots,
            items,
            entry_stage,
            exit_stage,
            current_stage: entry_stage,
            finished: false,
        }
    }

    /// The game's display name.
    pub fn get_name(&self) -> (r: &str)
        ensures
            r@ == self.name@,
    {
        self.name.as_str()
    }

    /// Whether the exit stage has been reached and confirmed.
    pub fn is_finished(&self) -> (r: bool)
        ensures
            r == self.finished,
    {
        self.finished
    }

    /// The stage the walk currently rests on.
    pub fn get_current_stage(&self) -> (r: &Stage)
        requires
            self.current_stage < self.stages@.len(),
        ensures
            *r == self.stages@[self.current_stage as int],
    {
        &self.stages[self.current_stage]
    }

    /// Mutable access to the stage the walk currently rests on.
    pub fn get_current_stage_mut(&mut self) -> (r: &mut Stage)
        requires
            old(self).current_stage < old(self).stages@.len(),
        ensures
            *r == old(self).stages@[old(self).current_stage as int],
            final(self).stages@ == old(self).stages@.update(
                old(self).current_stage as int,
                *final(r),
            ),
            final(self).name == old(self).name,
            final(self).stats == old(self).stats,
            final(self).item_slots == old(self).item_slots,
            final(self).items == old(self).items,
            final(self).entry_stage == old(self).entry_stage,
            final(self).exit_stage == old(self).exit_stage,
            final(self).current_stage == old(self).current_stage,
            final(self).finished == old(self).finished,
    {
        &mut self.stages[self.current_stage]
    }

    /// Replaces the stage the walk currently rests on.
    pub fn replace_current_stage(&mut self, stage: Stage)
        requires
            old(self).current_stage < old(self).stages@.len(),
        ensures
            final(self).stages@ == old(self).stages@.update(
                old(self).current_stage as int,
                stage,
            ),
            final(self).name == old(self).name,
            final(self).stats == old(self).stats,
            final(self).item_slots == old(self).item_slots,
            final(self).items == old(self).items,
            final(self).entry_stage == old(self).entry_stage,
            final(self).exit_stage == old(self).exit_stage,
            final(self).current_stage == old(self).current_stage,
            final(self).finished == old(self).finished,
    {
        let cs = self.current_stage;
        self.stages[cs] = stage;
    }

    /// Evaluates a conditional against the game's current stat values.
    pub fn is_filled<T: Conditional>(&self, conditional: &T) -> (r: bool)
        requires
            cond_ref_ok(conditional.spec_condition(), self.stats@.len() as int),
        ensures
            r == spec_is_filled(self.stats@, conditional.spec_condition()),
    {
        eval_condition(&self.stats, conditional.get_condition())
    }

    /// Whether the option at 0-based position `index` of `stage` exists and
    /// is visible.
    pub fn is_index_visible(&self, stage: &Stage, index: usize) -> (r: bool)
        requires
            index < stage.options@.len() ==> cond_ref_ok(
                stage.options@[index as int].condition,
                self.stats@.len() as int,
            ),
        ensures
            r == (index < stage.options@.len() && spec_is_filled(
                self.stats@,
                stage.options@[index as int].condition,
            )),
    {
        if index >= stage.options.len() {
            return false;
        }
        self.is_filled(&stage.options[index])
    }

    /// Applies an effect to the current stat values.
    fn apply_effect(&mut self, effect: Effect)
        requires
            effect_stat_id(effect) matches Some(sid) ==> sid < old(self).stats@.len(),
        ensures
            final(self).stats@ == spec_apply_effect(old(self).stats@, effect),
            final(self).name == old(self).name,
            final(self).stages == old(self).stages,
            final(self).item_slots == old(self).item_slots,
            final(self).items == old(self).items,
            final(self).entry_stage == old(self).entry_stage,
            final(self).exit_stage == old(self).exit_stage,
            final(self).current_stage == old(self).current_stage,
            final(self).finished == old(self).finished,
    {
        match effect {
            Effect::NoEffect => {},
            Effect::UseItem { .. } => {},
            Effect::SetStatExact { stat_id, new_value } => {
                self.stats[stat_id].value = new_value;
                proof {
                    assert(final(self).stats@ =~= spec_apply_effect(old(self).stats@, effect));
                }
            },
            Effect::SetStatHigher { stat_id, to_add } => {
                let v = self.stats[stat_id].value;
                self.stats[stat_id].value = v.wrapping_add(to_add);
                proof {
                    assert(final(self).stats@ =~= spec_apply_effect(old(self).stats@, effect));
                }
            },
            Effect::SetStatLower { stat_id, to_subtract } => {
                let v = self.stats[stat_id].value;
                self.stats[stat_id].value = v.wrapping_sub(to_subtract);
                proof {
                    assert(final(self).stats@ =~= spec_apply_effect(old(self).stats@, effect));
                }
            },
        }
    }

    /// Re-enters the current stage: clears the cursor, then selects the
    /// first visible option (or leaves the cursor cleared when none is).
    pub(crate) fn enter_current_stage(&mut self)
        requires
            old(self).current_stage < old(self).stages@.len(),
            conds_ok(
                old(self).stages@[old(self).current_stage as int].options@,
                old(self).stats@.len() as int,
            ),
        ensures
            final(self).stages@ == old(self).stages@.update(
                old(self).current_stage as int,
                entered_stage(
                    old(self).stages@[old(self).current_stage as int],
                    old(self).stats@,
                ),
            ),
            final(self).stages@[old(self).current_stage as int].current_option as int
                == spec_enter_cursor(
                old(self).stats@,
                old(self).stages@[old(self).current_stage as int].options@,
            ),
            final(self).name == old(self).name,
            final(self).stats == old(self).stats,
            final(self).item_slots == old(self).item_slots,
            final(self).items == old(self).items,
            final(self).entry_stage == old(self).entry_stage,
            final(self).exit_stage == old(self).exit_stage,
            final(self).current_stage == old(self).current_stage,
            final(self).finished == old(self).finished,
    {
        let cs = self.current_stage;
        let cursor = enter_cursor_position(&self.stats, &self.stages[cs].options);
        self.stages[cs].current_option = cursor;
        proof {
            assert(final(self).stages@ =~= old(self).stages@.update(
                cs as int,
                entered_stage(old(self).stages@[cs as int], old(self).stats@),
            ));
        }
    }

    /// Moves the walk to the stage at position `stage` and enters it.
    pub fn change_to_stage_index(&mut self, stage: usize)
        requires
            stage < old(self).stages@.len(),
            conds_ok(old(self).stages@[stage as int].options@, old(self).stats@.len() as int),
        ensures
            final(self).stages@ == old(self).stages@.update(
                stage as int,
                entered_stage(old(self).stages@[stage as int], old(self).stats@),
            ),
            final(self).stages@[stage as int].current_option as int == spec_enter_cursor(
                old(self).stats@,
                old(self).stages@[stage as int].options@,
            ),
            final(self).current_stage == stage,
            final(self).name == old(self).name,
            final(self).stats == old(self).stats,
            final(self).item_slots == old(self).item_slots,
            final(self).items == old(self).items,
            final(self).entry_stage == old(self).entry_stage,
            final(self).exit_stage == old(self).exit_stage,
            final(self).finished == old(self).finished,
    {
        self.current_stage = stage;
        self.enter_current_stage();
    }
}

impl Stage {
    /// Moves the cursor one navigation step: repeatedly steps over the raw
    /// option list (with wrap-around) until a visible option is reached.
    /// A no-op when no option of the stage is visible.
    pub fn change_option(&mut self, dir: Direction, game: &GameState)
        requires
            conds_ok(old(self).options@, game.stats@.len() as int),
            old(self).current_option <= old(self).options@.len(),
            (dir is Up && old(self).current_option == 0) ==> !some_visible(
                game.stats@,
                old(self).options@,
            ),
        ensures
            final(self).index == old(self).index,
            final(self).name == old(self).name,
            final(self).text == old(self).text,
            final(self).options == old(self).options,
            final(self).current_option as int == if some_visible(game.stats@, old(self).options@) {
                spec_next_option(game.stats@, old(self).options@, dir, old(self).current_option as int)
            } else {
                old(self).current_option as int
            },
    {
        if !any_visible(&game.stats, &self.options) {
            return ;
        }
        let c = next_option_position(&game.stats, &self.options, self.current_option, dir);
        self.current_option = c;
    }
}

impl GameState {
    /// The options of `stage` that are visible under the game's current stat
    /// values, in their original order.
    pub fn visible_options(&self, stage: &Stage) -> (r: Vec<StageOption>)
        requires
            conds_ok(stage.options@, self.stats@.len() as int),
        ensures
            r@.len() == visible_indices(self.stats@, stage.options@).len(),
            forall|k: int|
                0 <= k < r@.len() ==> #[trigger] option_eq(
                    r@[k],
                    stage.options@[visible_indices(self.stats@, stage.options@)[k]],
                ),
    {
        let mut out: Vec<StageOption> = Vec::new();
        let mut j: usize = 0;
        while j < stage.options.len()
            invariant
                j <= stage.options@.len(),
                conds_ok(stage.options@, self.stats@.len() as int),
                out@.len() == visible_prefix(self.stats@, stage.options@, j as int).len(),
                forall|k: int|
                    0 <= k < out@.len() ==> #[trigger] option_eq(
                        out@[k],
                        stage.options@[visible_prefix(self.stats@, stage.options@, j as int)[k]],
                    ),
            decreases stage.options@.len() - j,
        {
            if eval_condition(&self.stats, &stage.options[j].condition) {
                out.push(stage.options[j].clone());
            }
            j += 1;
        }
        out
    }

    /// Replaces the stage the walk currently rests on by the result of `f`
    /// applied to a copy of it.
    pub fn replace_current_stage_with<F: FnOnce(Stage) -> Stage>(&mut self, f: F)
        requires
            old(self).current_stage < old(self).stages@.len(),
            forall|c: Stage|
                stage_eq(c, old(self).stages@[old(self).current_stage as int]) ==> call_requires(
                    f,
                    (c,),
                ),
        ensures
            exists|c: Stage, s: Stage|
                {
                    &&& #[trigger] stage_eq(c, old(self).stages@[old(self).current_stage as int])
                    &&& #[trigger] call_ensures(f, (c,), s)
                    &&& final(self).stages@ == old(self).stages@.update(
                        old(self).current_stage as int,
                        s,
                    )
                },
            final(self).name == old(self).name,
            final(self).stats == old(self).stats,
            final(self).item_slots == old(self).item_slots,
            final(self).items == old(self).items,
            final(self).entry_stage == old(self).entry_stage,
            final(self).exit_stage == old(self).exit_stage,
            final(self).current_stage == old(self).current_stage,
            final(self).finished == old(self).finished,
    {
        let cs = self.current_stage;
        let copy = self.stages[cs].clone();
        let ghost c0 = copy;
        let s = f(copy);
        let ghost s0 = s;
        self.stages[cs] = s;
        proof {
            assert(stage_eq(c0, old(self).stages@[cs as int]) && call_ensures(f, (c0,), s0)
                && final(self).stages@ == old(self).stages@.update(cs as int, s0));
        }
    }

    /// Processes one player action: `Up`/`Down` move the cursor over the
    /// visible options; `Confirm` selects the option under the cursor (or, on
    /// the zero-option exit stage, finishes the game); `Number(n)` selects
    /// the `n`-th visible option; every other action is ignored. Selecting an
    /// option applies its effect to the stats and only then moves the walk to
    /// its target stage and enters it, so the new stage's visibility reflects
    /// the effect.
    pub fn handle_action(self, action: &Action) -> (r: Self)
        requires
            self.wf(),
        ensures
            r.wf(),
            match *action {
                Action::Up => navigates(self, r, Direction::Up),
                Action::Down => navigates(self, r, Direction::Down),
                Action::Confirm => confirm_step(self, r),
                Action::Number(n) => {
                    let st = self.stages@[self.current_stage as int];
                    if spec_has_option(st, n) && spec_nth_visible(self.stats@, st.options@, n as int)
                        is Some {
                        selects_option(
                            self,
                            r,
                            spec_nth_visible(self.stats@, st.options@, n as int)->Some_0,
                        )
                    } else {
                        r == self
                    }
                },
                _ => r == self,
            },
    {
        let mut g = self;
        let cs = g.current_stage;
        match *action {
            Action::Up => {
                g.navigate(Direction::Up);
            },
            Action::Down => {
                g.navigate(Direction::Down);
            },
            Action::Confirm => {
                if g.stages[cs].options.len() == 0 {
                    g.finished = true;
                } else {
                    let copt = g.stages[cs].current_option;
                    if g.stages[cs].has_option(copt) {
                        g.select_option(copt - 1);
                    }
                }
            },
            Action::Number(n) => {
                if g.stages[cs].has_option(n) {
                    let found = nth_visible_index(&g.stats, &g.stages[cs].options, n);
                    match found {
                        Some(j) => {
                            g.select_option(j);
                        },
                        None => {},
                    }
                }
            },
            _ => {},
        }
        g
    }

    /// Moves the cursor of the current stage one step in `dir`, skipping
    /// invisible options; a no-op when none is visible.
    fn navigate(&mut self, dir: Direction)
        requires
            old(self).wf(),
        ensures
            final(self).wf(),
            navigates(*old(self), *final(self), dir),
    {
        let cs = self.current_stage;
        let ghost st0 = self.stages@[cs as int];
        if any_visible(&self.stats, &self.stages[cs].options) {
            let start = self.stages[cs].current_option;
            let c = next_option_position(&self.stats, &self.stages[cs].options, start, dir);
            self.stages[cs].current_option = c;
            proof {
                assert(final(self).stages@ =~= old(self).stages@.update(
                    cs as int,
                    Stage {
                        index: st0.index,
                        name: st0.name,
                        text: st0.text,
                        options: st0.options,
                        current_option: c,
                    },
                ));
            }
        } else {
            proof {
                assert(st0.current_option == 0);
                assert(st0 == Stage {
                    index: st0.index,
                    name: st0.name,
                    text: st0.text,
                    options: st0.options,
                    current_option: st0.current_option,
                });
                assert(final(self).stages@ =~= old(self).stages@.update(cs as int, st0));
            }
        }
    }

    /// Applies the effect of the current stage's option at 0-based position
    /// `opt_idx`, then moves the walk to the option's target stage and
    /// enters it.
    fn select_option(&mut self, opt_idx: usize)
        requires
            old(self).wf(),
            opt_idx < old(self).stages@[old(self).current_stage as int].options@.len(),
        ensures
            final(self).wf(),
            selects_option(*old(self), *final(self), opt_idx as int),
    {
        let cs = self.current_stage;
        let effect = self.stages[cs].options[opt_idx].effect;
        let target = self.stages[cs].options[opt_idx].target_stage;
        self.apply_effect(effect);
        proof {
            assert(conds_ok(self.stages@[target as int].options@, self.stats@.len() as int));
        }
        self.change_to_stage_index(target);
        proof {
            lemma_enter_cursor_valid(
                final(self).stats@,
                final(self).stages@[target as int].options@,
            );
        }
    }
}

/// How one `Confirm` action relates the new state to the old: on the
/// zero-option (exit) stage it only sets the finished flag; with the cursor
/// on an option it selects that option; with a cleared or out-of-range
/// cursor it changes nothing.
pub open spec fn confirm_step(g: GameState, r: GameState) -> bool {
    let st = g.stages@[g.current_stage as int];
    if st.options@.len() == 0 {
        r == finished_game(g)
    } else if !spec_has_option(st, st.current_option) {
        r == g
    } else {
        selects_option(g, r, st.current_option - 1)
    }
}

/// The same game with the finished flag set.
pub open spec fn finished_game(g: GameState) -> GameState {
    GameState {
        name: g.name,
        stats: g.stats,
        stages: g.stages,
        item_slots: g.item_slots,
        items: g.items,
        entry_stage: g.entry_stage,
        exit_stage: g.exit_stage,
        current_stage: g.current_stage,
        finished: true,
    }
}

/// How one `Up`/`Down` action relates the new state to the old: only the
/// current stage's cursor moves, to the next visible option in the given
/// direction (unchanged when no option is visible).
pub open spec fn navigates(g: GameState, r: GameState, dir: Direction) -> bool {
    let st = g.stages@[g.current_stage as int];
    let c2: int = if some_visible(g.stats@, st.options@) {
        spec_next_option(g.stats@, st.options@, dir, st.current_option as int)
    } else {
        st.current_option as int
    };
    &&& r.stages@ == g.stages@.update(
        g.current_stage as int,
        Stage {
            index: st.index,
            name: st.name,
            text: st.text,
            options: st.options,
            current_option: c2 as usize,
        },
    )
    &&& r.name == g.name
    &&& r.stats == g.stats
    &&& r.item_slots == g.item_slots
    &&& r.items == g.items
    &&& r.entry_stage == g.entry_stage
    &&& r.exit_stage == g.exit_stage
    &&& r.current_stage == g.current_stage
    &&& r.finished == g.finished
}

/// How selecting the current stage's option at `opt_idx` relates the new
/// state to the old: the option's effect is applied to the stats, the walk
/// moves to the option's target stage, and that stage is entered under the
/// post-effect stat values.
pub open spec fn selects_option(g: GameState, r: GameState, opt_idx: int) -> bool {
    let opt = g.stages@[g.current_stage as int].options@[opt_idx];
    let stats2 = spec_apply_effect(g.stats@, opt.effect);
    let t = opt.target_stage as int;
    &&& r.stats@ == stats2
    &&& r.current_stage == opt.target_stage
    &&& r.stages@ == g.stages@.update(t, entered_stage(g.stages@[t], stats2))
    &&& r.name == g.name
    &&& r.item_slots == g.item_slots
    &&& r.items == g.items
    &&& r.entry_stage == g.entry_stage
    &&& r.exit_stage == g.exit_stage
    &&& r.finished == g.finished
}

/// A stage as the enter-stage algorithm leaves it: the cursor on the first
/// visible option, or cleared when no option is visible.
pub open spec fn entered_stage(st: Stage, stats: Seq<Statistic>) -> Stage {
    Stage {
        index: st.index,
        name: st.name,
        text: st.text,
        options: st.options,
        current_option: spec_enter_cursor(stats, st.options@) as usize,
    }
}

} // verus!
