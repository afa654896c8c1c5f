//! The entity model: stats, items, conditions, effects, options and stages,
//! together with the spec-level predicates that the loader and the engine
//! state their contracts over.
use vstd::prelude::*;

use crate::validation::ValidationError;

verus! {

/// The numeric value a statistic holds; conditions compare it, effects move it.
pub type StatValue = i32;

/// A named numeric statistic. The author picks `id`; after loading, every
/// reference to the stat is an array position instead.
#[derive(Debug)]
pub struct Statistic {
    pub id: usize,
    pub name: String,
    pub value: StatValue,
}

/// The name of an equipment slot.
pub type ItemSlot = String;

/// What an item does: nothing, an effect on consumption, or an effect while
/// equipped in a named slot.
#[derive(Debug)]
pub enum ItemEffect {
    NoEffect,
    Consumable { on_consume: Effect },
    Equippable { slot: ItemSlot, when_equipped: Effect },
}

/// A named item. The author picks `id`; the loader remaps it to the item's
/// array position.
#[derive(Debug)]
pub struct Item {
    pub id: usize,
    pub name: String,
    pub effect: ItemEffect,
}

/// A predicate over one stat's current value, controlling an option's
/// visibility.
#[derive(Clone, Copy, Debug)]
pub enum Condition {
    Always,
    IfStatHigher { stat_id: usize, higher_than: StatValue },
    IfStatLower { stat_id: usize, lower_than: StatValue },
    IfStatExact { stat_id: usize, value: StatValue },
}

/// A mutation applied when an option is selected. `UseItem` is a reserved
/// extensibility hook: it is validated at load time but applies no mutation.
#[derive(Clone, Copy, Debug)]
pub enum Effect {
    NoEffect,
    SetStatHigher { stat_id: usize, to_add: StatValue },
    SetStatLower { stat_id: usize, to_subtract: StatValue },
    SetStatExact { stat_id: usize, new_value: StatValue },
    UseItem { item_id: usize },
}

/// An edge of the stage graph: display text, a visibility condition, an
/// effect, and the stage the edge leads to.
#[derive(Debug)]
pub struct StageOption {
    pub target_stage: usize,
    pub text: Vec<String>,
    pub condition: Condition,
    pub effect: Effect,
}

/// A node of the narrative graph: display text and a list of options.
/// `current_option` is the transient 1-based cursor over the raw option list;
/// 0 means no option is currently selected.
#[derive(Debug)]
pub struct Stage {
    pub index: usize,
    pub name: String,
    pub text: Vec<String>,
    pub options: Vec<StageOption>,
    pub current_option: usize,
}

/// The two cursor movements.
#[derive(Clone, Copy, Debug)]
pub enum Direction {
    Up,
    Down,
}

/// Anything that carries a visibility condition.
pub trait Conditional {
    /// The condition, as spec-level data.
    spec fn spec_condition(&self) -> Condition;

    /// The condition, for evaluation.
    fn get_condition(&self) -> (c: &Condition)
        ensures
            *c == self.spec_condition(),
    ;
}

impl Conditional for StageOption {
    open spec fn spec_condition(&self) -> Condition {
        self.condition
    }

    fn get_condition(&self) -> (c: &Condition) {
        &self.condition
    }
}

/// The stat id a condition carries, if any.
pub open spec fn cond_stat_id(c: Condition) -> Option<usize> {
    match c {
        Condition::Always => None,
        Condition::IfStatHigher { stat_id, .. } => Some(stat_id),
        Condition::IfStatLower { stat_id, .. } => Some(stat_id),
        Condition::IfStatExact { stat_id, .. } => Some(stat_id),
    }
}

/// The same condition with its stat id (if it carries one) replaced.
pub open spec fn cond_with_stat_id(c: Condition, new_id: usize) -> Condition {
    match c {
        Condition::Always => c,
        Condition::IfStatHigher { higher_than, .. } => Condition::IfStatHigher {
            stat_id: new_id,
            higher_than,
        },
        Condition::IfStatLower { lower_than, .. } => Condition::IfStatLower {
            stat_id: new_id,
            lower_than,
        },
        Condition::IfStatExact { value, .. } => Condition::IfStatExact { stat_id: new_id, value },
    }
}

/// Equality of two options up to string allocation: every field agrees, with
/// the text lines compared as character sequences.
pub open spec fn option_eq(a: StageOption, b: StageOption) -> bool {
    &&& a.target_stage == b.target_stage
    &&& a.text@ == b.text@
    &&& a.condition == b.condition
    &&& a.effect == b.effect
}

impl Clone for StageOption {
    fn clone(&self) -> (r: Self)
        ensures
            option_eq(r, *self),
    {
        StageOption {
            target_stage: self.target_stage,
            text: self.text.clone(),
            condition: self.condition,
            effect: self.effect,
        }
    }
}

/// Equality of two stages up to string allocation.
pub open spec fn stage_eq(a: Stage, b: Stage) -> bool {
    &&& a.index == b.index
    &&& a.name@ == b.name@
    &&& a.text@ == b.text@
    &&& a.options@.len() == b.options@.len()
    &&& forall|j: int| 0 <= j < b.options@.len() ==> option_eq(a.options@[j], b.options@[j])
    &&& a.current_option == b.current_option
}

impl Clone for Stage {
    fn clone(&self) -> (r: Self)
        ensures
            stage_eq(r, *self),
    {
        Stage {
            index: self.index,
            name: self.name.clone(),
            text: self.text.clone(),
            options: self.options.clone(),
            current_option: self.current_option,
        }
    }
}

/// Whether a condition's stat reference (if any) is a valid position in a
/// stat array of length `n_stats`.
pub open spec fn cond_ref_ok(c: Condition, n_stats: int) -> bool {
    match c {
        Condition::Always => true,
        Condition::IfStatHigher { stat_id, .. } => stat_id < n_stats,
        Condition::IfStatLower { stat_id, .. } => stat_id < n_stats,
        Condition::IfStatExact { stat_id, .. } => stat_id < n_stats,
    }
}

/// Whether a condition holds of the given stat values.
pub open spec fn spec_is_filled(stats: Seq<Statistic>, c: Condition) -> bool
    recommends
        cond_ref_ok(c, stats.len() as int),
{
    match c {
        Condition::Always => true,
        Condition::IfStatHigher { stat_id, higher_than } => stats[stat_id as int].value
            > higher_than,
        Condition::IfStatLower { stat_id, lower_than } => stats[stat_id as int].value < lower_than,
        Condition::IfStatExact { stat_id, value } => stats[stat_id as int].value == value,
    }
}

/// Whether `option_nr` is a valid 1-based position in the stage's raw option
/// list.
pub open spec fn spec_has_option(stage: Stage, option_nr: usize) -> bool {
    0 < option_nr <= stage.options@.len()
}

impl Stage {
    /// An empty stage: index 0, no text, no options, cursor cleared.
    pub fn new() -> (s: Self)
        ensures
            s.index == 0,
            s.name@ == Seq::<char>::empty(),
            s.text@ == Seq::<String>::empty(),
            s.options@ == Seq::<StageOption>::empty(),
            s.current_option == 0,
    {
        Stage {
            index: 0,
            name: String::new(),
            text: Vec::new(),
            options: Vec::new(),
            current_option: 0,
        }
    }

    /// Whether `option_nr` is a valid 1-based position in the raw option list.
    pub fn has_option(&self, option_nr: usize) -> (r: bool)
        ensures
            r == spec_has_option(*self, option_nr),
    {
        !self.options.is_empty() && 0 < option_nr && option_nr <= self.options.len()
    }

    /// The option the cursor rests on, or `None` when the cursor is cleared
    /// (or out of range).
    pub fn get_current_option(&self) -> (r: Option<&StageOption>)
        ensures
            match r {
                Some(opt) => spec_has_option(*self, self.current_option)
                    && *opt == self.options@[self.current_option - 1],
                None => !spec_has_option(*self, self.current_option),
            },
    {
        if !self.has_option(self.current_option) {
            None
        } else {
            Some(&self.options[self.current_option - 1])
        }
    }

    /// The option at the given 1-based position, or `None` when out of range.
    pub fn get_option(&self, index: usize) -> (r: Option<&StageOption>)
        ensures
            match r {
                Some(opt) => spec_has_option(*self, index) && *opt == self.options@[index - 1],
                None => !spec_has_option(*self, index),
            },
    {
        if !self.has_option(index) {
            None
        } else {
            Some(&self.options[index - 1])
        }
    }
}

impl Condition {
    /// The condition that always holds.
    pub fn always() -> (c: Condition)
        ensures
            c is Always,
    {
        Condition::Always
    }
}

impl Effect {
    /// The effect that changes nothing.
    pub fn no_effect() -> (e: Effect)
        ensures
            e is NoEffect,
    {
        Effect::NoEffect
    }

    /// A copy of the effect with its stat reference replaced by `new_id`;
    /// `None` when the effect carries no stat reference.
    pub fn change_stat_id(&self, new_id: usize) -> (r: Option<Self>)
        ensures
            match *self {
                Effect::NoEffect => r is None,
                Effect::UseItem { .. } => r is None,
                Effect::SetStatHigher { to_add, .. } => r == Some(
                    Effect::SetStatHigher { stat_id: new_id, to_add },
                ),
                Effect::SetStatLower { to_subtract, .. } => r == Some(
                    Effect::SetStatLower { stat_id: new_id, to_subtract },
                ),
                Effect::SetStatExact { new_value, .. } => r == Some(
                    Effect::SetStatExact { stat_id: new_id, new_value },
                ),
            },
    {
        match *self {
            Effect::NoEffect => None,
            Effect::UseItem { .. } => None,
            Effect::SetStatHigher { stat_id: _, to_add } => Some(
                Effect::SetStatHigher { stat_id: new_id, to_add },
            ),
            Effect::SetStatLower { stat_id: _, to_subtract } => Some(
                Effect::SetStatLower { stat_id: new_id, to_subtract },
            ),
            Effect::SetStatExact { stat_id: _, new_value } => Some(
                Effect::SetStatExact { stat_id: new_id, new_value },
            ),
        }
    }
}

/// The stat id an effect carries, if any.
pub open spec fn effect_stat_id(e: Effect) -> Option<usize> {
    match e {
        Effect::NoEffect => None,
        Effect::UseItem { .. } => None,
        Effect::SetStatHigher { stat_id, .. } => Some(stat_id),
        Effect::SetStatLower { stat_id, .. } => Some(stat_id),
        Effect::SetStatExact { stat_id, .. } => Some(stat_id),
    }
}

/// The same effect with its stat id (if it carries one) replaced by `new_id`.
pub open spec fn effect_with_stat_id(e: Effect, new_id: usize) -> Effect {
    match e {
        Effect::NoEffect => e,
        Effect::UseItem { .. } => e,
        Effect::SetStatHigher { to_add, .. } => Effect::SetStatHigher { stat_id: new_id, to_add },
        Effect::SetStatLower { to_subtract, .. } => Effect::SetStatLower {
            stat_id: new_id,
            to_subtract,
        },
        Effect::SetStatExact { new_value, .. } => Effect::SetStatExact {
            stat_id: new_id,
            new_value,
        },
    }
}

impl Effect {
    /// A copy of the effect with its stat reference run through `mapping`.
    /// Effects without a stat reference pass through unchanged; an error of
    /// `mapping` is the result.
    pub fn map_state_id<F: FnOnce(usize) -> Result<usize, ValidationError>>(
        &self,
        mapping: F,
    ) -> (r: Result<Self, ValidationError>)
        requires
            effect_stat_id(*self) matches Some(sid) ==> call_requires(mapping, (sid,)),
        ensures
            match effect_stat_id(*self) {
                None => r == Ok::<Effect, ValidationError>(*self),
                Some(sid) => match r {
                    Ok(e2) => {
                        &&& effect_stat_id(e2) matches Some(n2)
                        &&& call_ensures(mapping, (sid,), Ok::<usize, ValidationError>(n2))
                        &&& e2 == effect_with_stat_id(*self, n2)
                    },
                    Err(err) => call_ensures(mapping, (sid,), Err::<usize, ValidationError>(err)),
                },
            },
    {
        match *self {
            Effect::NoEffect => Ok(*self),
            Effect::UseItem { .. } => Ok(*self),
            Effect::SetStatHigher { stat_id, to_add } => {
                let new_id = match mapping(stat_id) {
                    Ok(n) => n,
                    Err(e) => {
                        return Err(e);
                    },
                };
                proof {
                    assert(call_ensures(mapping, (stat_id,), Ok::<usize, ValidationError>(new_id)));
                }
                Ok(Effect::SetStatHigher { stat_id: new_id, to_add })
            },
            Effect::SetStatLower { stat_id, to_subtract } => {
                let new_id = match mapping(stat_id) {
                    Ok(n) => n,
                    Err(e) => {
                        return Err(e);
                    },
                };
                proof {
                    assert(call_ensures(mapping, (stat_id,), Ok::<usize, ValidationError>(new_id)));
                }
                Ok(Effect::SetStatLower { stat_id: new_id, to_subtract })
            },
            Effect::SetStatExact { stat_id, new_value } => {
                let new_id = match mapping(stat_id) {
                    Ok(n) => n,
                    Err(e) => {
                        return Err(e);
                    },
                };
                proof {
                    assert(call_ensures(mapping, (stat_id,), Ok::<usize, ValidationError>(new_id)));
                }
                Ok(Effect::SetStatExact { stat_id: new_id, new_value })
            },
        }
    }
}

/// The inner effect of an item effect, if any.
pub open spec fn item_effect_inner(e: ItemEffect) -> Option<Effect> {
    match e {
        ItemEffect::NoEffect => None,
        ItemEffect::Consumable { on_consume } => Some(on_consume),
        ItemEffect::Equippable { when_equipped, .. } => Some(when_equipped),
    }
}

/// The stat id an item effect's inner effect carries, if any.
pub open spec fn item_effect_stat_id(e: ItemEffect) -> Option<usize> {
    match item_effect_inner(e) {
        None => None,
        Some(inner) => effect_stat_id(inner),
    }
}

/// The same item effect with its inner effect replaced.
pub open spec fn item_effect_with_inner(e: ItemEffect, inner: Effect) -> ItemEffect {
    match e {
        ItemEffect::NoEffect => e,
        ItemEffect::Consumable { .. } => ItemEffect::Consumable { on_consume: inner },
        ItemEffect::Equippable { slot, .. } => ItemEffect::Equippable {
            slot,
            when_equipped: inner,
        },
    }
}

impl ItemEffect {
    /// A copy of the item effect with the stat reference of its inner effect
    /// run through `mapping`.
    pub fn map_state_id<F: FnOnce(usize) -> Result<usize, ValidationError>>(
        &self,
        mapping: F,
    ) -> (r: Result<Self, ValidationError>)
        requires
            item_effect_stat_id(*self) matches Some(sid) ==> call_requires(mapping, (sid,)),
        ensures
            match item_effect_stat_id(*self) {
                None => match r {
                    Ok(e2) => item_effect_inner(e2) == item_effect_inner(*self) && match *self {
                        ItemEffect::NoEffect => e2 is NoEffect,
                        ItemEffect::Consumable { .. } => e2 is Consumable,
                        ItemEffect::Equippable { slot, .. } => e2 matches ItemEffect::Equippable {
                            slot: s2,
                            ..
                        } && s2@ == slot@,
                    },
                    Err(_) => false,
                },
                Some(sid) => match r {
                    Ok(e2) => {
                        &&& item_effect_inner(e2) matches Some(inner2)
                        &&& effect_stat_id(inner2) matches Some(n2)
                        &&& call_ensures(mapping, (sid,), Ok::<usize, ValidationError>(n2))
                        &&& inner2 == effect_with_stat_id(item_effect_inner(*self)->Some_0, n2)
                        &&& match *self {
                            ItemEffect::NoEffect => false,
                            ItemEffect::Consumable { .. } => e2 is Consumable,
                            ItemEffect::Equippable { slot, .. } => e2
                                matches ItemEffect::Equippable { slot: s2, .. } && s2@ == slot@,
                        }
                    },
                    Err(err) => call_ensures(mapping, (sid,), Err::<usize, ValidationError>(err)),
                },
            },
    {
        match self {
            ItemEffect::NoEffect => Ok(ItemEffect::NoEffect),
            ItemEffect::Consumable { on_consume } => {
                let new_inner = match on_consume.map_state_id(mapping) {
                    Ok(e) => e,
                    Err(e) => {
                        return Err(e);
                    },
                };
                Ok(ItemEffect::Consumable { on_consume: new_inner })
            },
            ItemEffect::Equippable { slot, when_equipped } => {
                let new_inner = match when_equipped.map_state_id(mapping) {
                    Ok(e) => e,
                    Err(e) => {
                        return Err(e);
                    },
                };
                Ok(ItemEffect::Equippable { slot: slot.clone(), when_equipped: new_inner })
            },
        }
    }
}

} // verus!
