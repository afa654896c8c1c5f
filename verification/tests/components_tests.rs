use advgame::game_components::{Condition, Conditional, Effect, ItemEffect, Stage, StageOption};
use advgame::misc::max_str_len;
use advgame::validation::{render_usize, ValidationError};

fn plain_option(target: usize) -> StageOption {
    StageOption {
        target_stage: target,
        text: vec!["line".to_string()],
        condition: Condition::Always,
        effect: Effect::NoEffect,
    }
}

#[test]
fn new_stage_is_empty() {
    let s = Stage::new();
    assert_eq!(s.index, 0);
    assert_eq!(s.name, "");
    assert!(s.text.is_empty());
    assert!(s.options.is_empty());
    assert_eq!(s.current_option, 0);
}

#[test]
fn has_option_accepts_one_based_positions_only() {
    let mut s = Stage::new();
    assert!(!s.has_option(0));
    assert!(!s.has_option(1));
    s.options.push(plain_option(0));
    s.options.push(plain_option(0));
    assert!(!s.has_option(0));
    assert!(s.has_option(1));
    assert!(s.has_option(2));
    assert!(!s.has_option(3));
}

#[test]
fn current_option_resolves_through_the_cursor() {
    let mut s = Stage::new();
    s.options.push(plain_option(4));
    s.options.push(plain_option(7));
    assert!(s.get_current_option().is_none());
    s.current_option = 2;
    assert_eq!(s.get_current_option().unwrap().target_stage, 7);
    assert_eq!(s.get_option(1).unwrap().target_stage, 4);
    assert!(s.get_option(3).is_none());
}

#[test]
fn change_stat_id_touches_only_stat_bearing_effects() {
    assert!(Effect::NoEffect.change_stat_id(5).is_none());
    assert!(Effect::UseItem { item_id: 1 }.change_stat_id(5).is_none());
    assert!(matches!(
        Effect::SetStatHigher { stat_id: 0, to_add: 2 }.change_stat_id(5),
        Some(Effect::SetStatHigher { stat_id: 5, to_add: 2 })
    ));
    assert!(matches!(
        Effect::SetStatLower { stat_id: 0, to_subtract: 3 }.change_stat_id(5),
        Some(Effect::SetStatLower { stat_id: 5, to_subtract: 3 })
    ));
    assert!(matches!(
        Effect::SetStatExact { stat_id: 0, new_value: 4 }.change_stat_id(5),
        Some(Effect::SetStatExact { stat_id: 5, new_value: 4 })
    ));
}

#[test]
fn map_state_id_runs_the_mapping_over_stat_references() {
    let shift = |x: usize| -> Result<usize, ValidationError> { Ok(x + 10) };
    assert!(matches!(
        Effect::SetStatExact { stat_id: 1, new_value: 9 }.map_state_id(shift),
        Ok(Effect::SetStatExact { stat_id: 11, new_value: 9 })
    ));
    assert!(matches!(Effect::NoEffect.map_state_id(shift), Ok(Effect::NoEffect)));
    let fail = |_x: usize| -> Result<usize, ValidationError> { Err(ValidationError::NoExitStage) };
    assert!(matches!(
        Effect::SetStatHigher { stat_id: 1, to_add: 1 }.map_state_id(fail),
        Err(ValidationError::NoExitStage)
    ));
    assert!(matches!(Effect::UseItem { item_id: 3 }.map_state_id(fail), Ok(Effect::UseItem { item_id: 3 })));
}

#[test]
fn item_effect_map_state_id_reaches_the_inner_effect() {
    let shift = |x: usize| -> Result<usize, ValidationError> { Ok(x + 1) };
    let consumable = ItemEffect::Consumable { on_consume: Effect::SetStatLower { stat_id: 2, to_subtract: 1 } };
    match consumable.map_state_id(shift) {
        Ok(ItemEffect::Consumable { on_consume }) => {
            assert!(matches!(on_consume, Effect::SetStatLower { stat_id: 3, to_subtract: 1 }));
        }
        _ => panic!("wrong mapping result"),
    }
    let equippable = ItemEffect::Equippable {
        slot: "head".to_string(),
        when_equipped: Effect::SetStatExact { stat_id: 0, new_value: 1 },
    };
    match equippable.map_state_id(shift) {
        Ok(ItemEffect::Equippable { slot, when_equipped }) => {
            assert_eq!(slot, "head");
            assert!(matches!(when_equipped, Effect::SetStatExact { stat_id: 1, new_value: 1 }));
        }
        _ => panic!("wrong mapping result"),
    }
}

#[test]
fn conditional_exposes_the_condition() {
    let o = StageOption {
        target_stage: 0,
        text: vec!["t".to_string()],
        condition: Condition::IfStatLower { stat_id: 2, lower_than: 4 },
        effect: Effect::NoEffect,
    };
    assert!(matches!(*o.get_condition(), Condition::IfStatLower { stat_id: 2, lower_than: 4 }));
}

#[test]
fn always_and_no_effect_defaults() {
    assert!(matches!(Condition::always(), Condition::Always));
    assert!(matches!(Effect::no_effect(), Effect::NoEffect));
}

#[test]
fn max_str_len_finds_the_longest_line() {
    let v: Vec<String> = vec!["a".to_string(), "abcd".to_string(), "ab".to_string()];
    assert_eq!(max_str_len(&v), 4);
    let empty: Vec<String> = vec![];
    assert_eq!(max_str_len(&empty), 0);
    let blank: Vec<String> = vec!["".to_string()];
    assert_eq!(max_str_len(&blank), 0);
}

#[test]
fn render_usize_writes_decimal() {
    assert_eq!(render_usize(0), "0");
    assert_eq!(render_usize(7), "7");
    assert_eq!(render_usize(10), "10");
    assert_eq!(render_usize(90210), "90210");
    assert_eq!(render_usize(usize::MAX), usize::MAX.to_string());
}

#[test]
fn cloned_stages_match_their_originals() {
    let mut s = Stage::new();
    s.index = 3;
    s.name = "n".to_string();
    s.text = vec!["t1".to_string(), "t2".to_string()];
    s.options.push(plain_option(8));
    s.current_option = 1;
    let c = s.clone();
    assert_eq!(c.index, 3);
    assert_eq!(c.name, "n");
    assert_eq!(c.text, vec!["t1".to_string(), "t2".to_string()]);
    assert_eq!(c.options.len(), 1);
    assert_eq!(c.options[0].target_stage, 8);
    assert_eq!(c.current_option, 1);
}
