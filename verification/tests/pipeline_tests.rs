use advgame::game_components::{Condition, Effect, Stage, StageOption, Statistic};
use advgame::game_state::{Action, GameState};
use advgame::validation::ValidationError;

fn simple_stat(id: usize, value: i32) -> Statistic {
    Statistic { id, name: format!("s{}", id), value }
}

fn simple_option(target: usize, condition: Condition, effect: Effect) -> StageOption {
    StageOption { target_stage: target, text: vec!["choice".to_string()], condition, effect }
}

fn simple_stage(index: usize, options: Vec<StageOption>) -> Stage {
    Stage { index, name: format!("st{}", index), text: vec![], options, current_option: 0 }
}

fn raw_game(stats: Vec<Statistic>, stages: Vec<Stage>, entry: usize, exit: usize) -> GameState {
    GameState::new("pipeline".to_string(), stats, stages, vec![], vec![], entry, exit)
}

#[test]
fn check_dead_ends_passes_a_single_exit_through() {
    let g = raw_game(
        vec![],
        vec![
            simple_stage(0, vec![simple_option(1, Condition::Always, Effect::NoEffect)]),
            simple_stage(1, vec![]),
        ],
        0,
        1,
    );
    let g = g.check_dead_ends().unwrap();
    assert_eq!(g.stages.len(), 2);
    assert_eq!(g.exit_stage, 1);
}

#[test]
fn map_stat_ids_rewrites_only_stat_references() {
    let g = raw_game(
        vec![simple_stat(40, 1)],
        vec![
            simple_stage(0, vec![simple_option(
                1,
                Condition::IfStatLower { stat_id: 40, lower_than: 2 },
                Effect::SetStatHigher { stat_id: 40, to_add: 1 },
            )]),
            simple_stage(1, vec![]),
        ],
        0,
        1,
    );
    let g = g.map_stat_ids().unwrap();
    assert!(matches!(g.stages[0].options[0].condition, Condition::IfStatLower { stat_id: 0, lower_than: 2 }));
    assert!(matches!(g.stages[0].options[0].effect, Effect::SetStatHigher { stat_id: 0, to_add: 1 }));
    // the target and the stage's own id are the stage pass's business
    assert_eq!(g.stages[0].options[0].target_stage, 1);
    assert_eq!(g.stages[1].index, 1);
}

#[test]
fn map_stage_ids_alone_reports_bad_entry_and_exit() {
    let stages = vec![
        simple_stage(0, vec![simple_option(1, Condition::Always, Effect::NoEffect)]),
        simple_stage(1, vec![]),
    ];
    let err = raw_game(vec![], stages, 9, 1).map_stage_ids().unwrap_err();
    assert!(matches!(err, ValidationError::InvalidEntryStage));

    let stages = vec![
        simple_stage(0, vec![simple_option(1, Condition::Always, Effect::NoEffect)]),
        simple_stage(1, vec![]),
    ];
    let err = raw_game(vec![], stages, 0, 9).map_stage_ids().unwrap_err();
    assert!(matches!(err, ValidationError::InvalidExitStage));
    assert_eq!(err.message(), "Exit stage is invalid!");
}

#[test]
fn game_starting_on_the_exit_stage_finishes_at_once() {
    let g = raw_game(vec![], vec![simple_stage(3, vec![])], 3, 3).post_process().unwrap();
    assert_eq!(g.current_stage, 0);
    assert_eq!(g.stages[0].current_option, 0);
    assert!(!g.is_finished());
    let g = g.handle_action(&Action::Confirm);
    assert!(g.is_finished());
    assert_eq!(g.current_stage, 0);
}

#[test]
fn a_short_game_plays_through() {
    // a three-room walk: pick up strength, pass the barrier, finish
    let stats = vec![simple_stat(0, 0)];
    let stages = vec![
        simple_stage(0, vec![
            simple_option(1, Condition::Always, Effect::SetStatHigher { stat_id: 0, to_add: 5 }),
            simple_option(2, Condition::IfStatHigher { stat_id: 0, higher_than: 3 }, Effect::NoEffect),
        ]),
        simple_stage(1, vec![
            simple_option(0, Condition::Always, Effect::NoEffect),
        ]),
        simple_stage(2, vec![]),
    ];
    let g = raw_game(stats, stages, 0, 2).post_process().unwrap();
    // only the first option is visible at first
    assert_eq!(g.stages[0].current_option, 1);
    // take it: gain strength, land in room 1
    let g = g.handle_action(&Action::Confirm);
    assert_eq!(g.current_stage, 1);
    assert_eq!(g.stats[0].value, 5);
    // walk back: now the barrier option is visible too
    let g = g.handle_action(&Action::Confirm);
    assert_eq!(g.current_stage, 0);
    let g = g.handle_action(&Action::Down);
    assert_eq!(g.stages[0].current_option, 2);
    // through the barrier and out
    let g = g.handle_action(&Action::Confirm);
    assert_eq!(g.current_stage, 2);
    let g = g.handle_action(&Action::Confirm);
    assert!(g.is_finished());
}

#[test]
fn duplicate_stage_ids_rejected_before_density_breaks() {
    let stages = vec![
        simple_stage(4, vec![simple_option(4, Condition::Always, Effect::NoEffect)]),
        simple_stage(4, vec![simple_option(9, Condition::Always, Effect::NoEffect)]),
        simple_stage(9, vec![]),
    ];
    let err = raw_game(vec![], stages, 4, 9).post_process().unwrap_err();
    assert!(matches!(err, ValidationError::DuplicateStageIndex { stage_index: 4 }));
    assert_eq!(err.message(), "Stage id 4 is used by more than one stage!");
}
