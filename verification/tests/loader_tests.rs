use advgame::game_components::{Condition, Effect, Item, ItemEffect, Stage, StageOption, Statistic};
use advgame::game_state::GameState;
use advgame::validation::ValidationError;

fn stat(id: usize, name: &str, value: i32) -> Statistic {
    Statistic { id, name: name.to_string(), value }
}

fn option(target: usize, text: &str, condition: Condition, effect: Effect) -> StageOption {
    StageOption { target_stage: target, text: vec![text.to_string()], condition, effect }
}

fn stage(index: usize, name: &str, options: Vec<StageOption>) -> Stage {
    Stage { index, name: name.to_string(), text: vec![], options, current_option: 0 }
}

fn game(stats: Vec<Statistic>, stages: Vec<Stage>, items: Vec<Item>, entry: usize, exit: usize) -> GameState {
    GameState::new("test game".to_string(), stats, stages, vec![], items, entry, exit)
}

#[test]
fn loads_dense_positions_from_sparse_ids() {
    // author ids are sparse and shuffled; loading makes every id a position
    let stats = vec![stat(10, "str", 1), stat(20, "dex", 2)];
    let stages = vec![
        stage(5, "start", vec![option(7, "go", Condition::IfStatHigher { stat_id: 20, higher_than: 0 }, Effect::SetStatLower { stat_id: 10, to_subtract: 1 })]),
        stage(7, "middle", vec![option(9, "end it", Condition::Always, Effect::UseItem { item_id: 3 })]),
        stage(9, "end", vec![]),
    ];
    let items = vec![Item { id: 3, name: "rope".to_string(), effect: ItemEffect::NoEffect }];
    let g = game(stats, stages, items, 5, 9).post_process().unwrap();
    // density
    for (i, st) in g.stages.iter().enumerate() {
        assert_eq!(st.index, i);
    }
    for (k, it) in g.items.iter().enumerate() {
        assert_eq!(it.id, k);
    }
    // references remapped to positions
    assert_eq!(g.stages[0].options[0].target_stage, 1);
    assert!(matches!(g.stages[0].options[0].condition, Condition::IfStatHigher { stat_id: 1, higher_than: 0 }));
    assert!(matches!(g.stages[0].options[0].effect, Effect::SetStatLower { stat_id: 0, to_subtract: 1 }));
    assert!(matches!(g.stages[1].options[0].effect, Effect::UseItem { item_id: 0 }));
    assert_eq!(g.entry_stage, 0);
    assert_eq!(g.exit_stage, 2);
    assert_eq!(g.current_stage, 0);
    assert!(!g.is_finished());
}

#[test]
fn entry_stage_is_entered_on_load() {
    // the first visible option is selected at load time
    let stats = vec![stat(0, "s", 0)];
    let stages = vec![
        stage(0, "start", vec![
            option(1, "hidden", Condition::IfStatHigher { stat_id: 0, higher_than: 10 }, Effect::NoEffect),
            option(1, "shown", Condition::Always, Effect::NoEffect),
        ]),
        stage(1, "end", vec![]),
    ];
    let g = game(stats, stages, vec![], 0, 1).post_process().unwrap();
    assert_eq!(g.stages[0].current_option, 2);
}

#[test]
fn entry_stage_with_no_visible_option_keeps_cursor_cleared() {
    let stats = vec![stat(0, "s", 0)];
    let stages = vec![
        stage(0, "start", vec![
            option(1, "hidden", Condition::IfStatHigher { stat_id: 0, higher_than: 10 }, Effect::NoEffect),
        ]),
        stage(1, "end", vec![]),
    ];
    let g = game(stats, stages, vec![], 0, 1).post_process().unwrap();
    assert_eq!(g.stages[0].current_option, 0);
}

#[test]
fn dangling_target_rejected_naming_the_id() {
    // the only option targets stage id 99 while only {0,1,2} exist
    let stages = vec![
        stage(0, "start", vec![option(99, "go", Condition::Always, Effect::NoEffect)]),
        stage(1, "other", vec![option(0, "back", Condition::Always, Effect::NoEffect)]),
        stage(2, "end", vec![]),
    ];
    let err = game(vec![], stages, vec![], 0, 2).post_process().unwrap_err();
    match &err {
        ValidationError::UnknownTargetStage { target, stage_index, stage_name } => {
            assert_eq!(*target, 99);
            assert_eq!(*stage_index, 0);
            assert_eq!(stage_name, "start");
        }
        e => panic!("wrong error: {}", e.message()),
    }
    assert!(err.message().contains("99"));
    assert_eq!(
        err.message(),
        "Entry \"99\" in stage 0, \"start\" points to an inexistent stage."
    );
}

#[test]
fn two_zero_option_stages_rejected() {
    // the second option-free stage is not the declared exit
    let stages = vec![
        stage(0, "start", vec![option(1, "go", Condition::Always, Effect::NoEffect)]),
        stage(1, "end", vec![]),
        stage(2, "stray", vec![]),
    ];
    let err = game(vec![], stages, vec![], 0, 1).post_process().unwrap_err();
    match &err {
        ValidationError::DeadEndStage { stage_index } => assert_eq!(*stage_index, 2),
        e => panic!("wrong error: {}", e.message()),
    }
    assert_eq!(err.message(), "Stage nr. 2 has no options and isn't the final stage!");
}

#[test]
fn two_zero_option_stages_with_shared_id_rejected() {
    // both option-free stages carry the exit id, so the dead-end check
    // passes and the duplicated id fails the stage pass
    let stages = vec![
        stage(0, "start", vec![option(1, "go", Condition::Always, Effect::NoEffect)]),
        stage(1, "end", vec![]),
        stage(1, "end again", vec![]),
    ];
    let err = game(vec![], stages, vec![], 0, 1).post_process().unwrap_err();
    assert!(matches!(err, ValidationError::DuplicateStageIndex { stage_index: 1 }));
}

#[test]
fn no_zero_option_stage_rejected() {
    let stages = vec![
        stage(0, "start", vec![option(1, "go", Condition::Always, Effect::NoEffect)]),
        stage(1, "loop", vec![option(0, "back", Condition::Always, Effect::NoEffect)]),
    ];
    let err = game(vec![], stages, vec![], 0, 1).post_process().unwrap_err();
    assert!(matches!(err, ValidationError::NoExitStage));
    assert_eq!(err.message(), "Exit stage can't contain options!");
}

#[test]
fn unknown_stat_in_condition_rejected() {
    let stats = vec![stat(0, "s", 0)];
    let stages = vec![
        stage(0, "start", vec![option(1, "go", Condition::IfStatExact { stat_id: 5, value: 1 }, Effect::NoEffect)]),
        stage(1, "end", vec![]),
    ];
    let err = game(stats, stages, vec![], 0, 1).post_process().unwrap_err();
    match &err {
        ValidationError::UnknownStat { stat_id, stage_index, stage_name } => {
            assert_eq!(*stat_id, 5);
            assert_eq!(*stage_index, 0);
            assert_eq!(stage_name, "start");
        }
        e => panic!("wrong error: {}", e.message()),
    }
    assert_eq!(err.message(), "Entry \"5\" in stage 0, \"start\" points to an inexistent stat.");
}

#[test]
fn unknown_stat_in_effect_rejected() {
    let stats = vec![stat(0, "s", 0)];
    let stages = vec![
        stage(0, "start", vec![option(1, "go", Condition::Always, Effect::SetStatExact { stat_id: 8, new_value: 3 })]),
        stage(1, "end", vec![]),
    ];
    let err = game(stats, stages, vec![], 0, 1).post_process().unwrap_err();
    assert!(matches!(err, ValidationError::UnknownStat { stat_id: 8, .. }));
}

#[test]
fn unknown_stat_in_item_rejected() {
    let stats = vec![stat(0, "s", 0)];
    let stages = vec![
        stage(0, "start", vec![option(1, "go", Condition::Always, Effect::NoEffect)]),
        stage(1, "end", vec![]),
    ];
    let items = vec![Item {
        id: 0,
        name: "potion".to_string(),
        effect: ItemEffect::Consumable { on_consume: Effect::SetStatHigher { stat_id: 9, to_add: 1 } },
    }];
    let err = game(stats, stages, items, 0, 1).post_process().unwrap_err();
    match &err {
        ValidationError::UnknownStatInItem { item_name } => assert_eq!(item_name, "potion"),
        e => panic!("wrong error: {}", e.message()),
    }
    assert_eq!(err.message(), "Invalid state id in item potion.");
}

#[test]
fn empty_option_text_rejected() {
    let stages = vec![
        stage(0, "start", vec![StageOption {
            target_stage: 1,
            text: vec![],
            condition: Condition::Always,
            effect: Effect::NoEffect,
        }]),
        stage(1, "end", vec![]),
    ];
    let err = game(vec![], stages, vec![], 0, 1).post_process().unwrap_err();
    assert!(matches!(err, ValidationError::EmptyOptionText { stage_index: 0 }));
    assert_eq!(err.message(), "No text provided for option in stage 0");
}

#[test]
fn unknown_use_item_rejected() {
    let stages = vec![
        stage(0, "start", vec![option(1, "go", Condition::Always, Effect::UseItem { item_id: 7 })]),
        stage(1, "end", vec![]),
    ];
    let err = game(vec![], stages, vec![], 0, 1).post_process().unwrap_err();
    assert!(matches!(err, ValidationError::UnknownItem { item_id: 7 }));
    assert_eq!(err.message(), "Invalid item 7 in a use_item effect.");
}

#[test]
fn duplicate_item_id_rejected() {
    let stages = vec![
        stage(0, "start", vec![option(1, "go", Condition::Always, Effect::NoEffect)]),
        stage(1, "end", vec![]),
    ];
    let items = vec![
        Item { id: 4, name: "a".to_string(), effect: ItemEffect::NoEffect },
        Item { id: 4, name: "b".to_string(), effect: ItemEffect::NoEffect },
    ];
    let err = game(vec![], stages, items, 0, 1).post_process().unwrap_err();
    assert!(matches!(err, ValidationError::DuplicateItemId { item_id: 4 }));
}

#[test]
fn invalid_entry_stage_rejected() {
    let stages = vec![
        stage(0, "start", vec![option(1, "go", Condition::Always, Effect::NoEffect)]),
        stage(1, "end", vec![]),
    ];
    let err = game(vec![], stages, vec![], 3, 1).post_process().unwrap_err();
    assert!(matches!(err, ValidationError::InvalidEntryStage));
    assert_eq!(err.message(), "Entry stage is invalid!");
}

#[test]
fn item_effects_are_remapped() {
    let stats = vec![stat(6, "s", 0)];
    let stages = vec![
        stage(0, "start", vec![option(1, "go", Condition::Always, Effect::NoEffect)]),
        stage(1, "end", vec![]),
    ];
    let items = vec![
        Item { id: 2, name: "sword".to_string(), effect: ItemEffect::Equippable {
            slot: "hand".to_string(),
            when_equipped: Effect::SetStatHigher { stat_id: 6, to_add: 2 },
        } },
        Item { id: 5, name: "scroll".to_string(), effect: ItemEffect::Consumable {
            on_consume: Effect::UseItem { item_id: 2 },
        } },
    ];
    let g = game(stats, stages, items, 0, 1).post_process().unwrap();
    match &g.items[0].effect {
        ItemEffect::Equippable { slot, when_equipped } => {
            assert_eq!(slot, "hand");
            assert!(matches!(when_equipped, Effect::SetStatHigher { stat_id: 0, to_add: 2 }));
        }
        _ => panic!("wrong item effect"),
    }
    match &g.items[1].effect {
        ItemEffect::Consumable { on_consume } => {
            assert!(matches!(on_consume, Effect::UseItem { item_id: 0 }));
        }
        _ => panic!("wrong item effect"),
    }
}

#[test]
fn duplicate_stat_ids_resolve_to_last() {
    // stat ids may repeat; references resolve to the last occurrence
    let stats = vec![stat(1, "first", 0), stat(1, "second", 0)];
    let stages = vec![
        stage(0, "start", vec![option(1, "go", Condition::IfStatExact { stat_id: 1, value: 0 }, Effect::NoEffect)]),
        stage(1, "end", vec![]),
    ];
    let g = game(stats, stages, vec![], 0, 1).post_process().unwrap();
    assert!(matches!(g.stages[0].options[0].condition, Condition::IfStatExact { stat_id: 1, value: 0 }));
}
