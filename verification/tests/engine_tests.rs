use advgame::game_components::{Condition, Direction, Effect, Stage, StageOption, Statistic};
use advgame::game_state::{Action, GameState};

fn stat_v(id: usize, value: i32) -> Statistic {
    Statistic { id, name: format!("stat{}", id), value }
}

fn opt(target: usize, text: &str, condition: Condition, effect: Effect) -> StageOption {
    StageOption { target_stage: target, text: vec![text.to_string()], condition, effect }
}

fn st(index: usize, options: Vec<StageOption>) -> Stage {
    Stage { index, name: format!("stage{}", index), text: vec![], options, current_option: 0 }
}

fn load(stats: Vec<Statistic>, stages: Vec<Stage>, entry: usize, exit: usize) -> GameState {
    GameState::new("engine test".to_string(), stats, stages, vec![], vec![], entry, exit)
        .post_process()
        .unwrap()
}

#[test]
fn number_selects_nth_visible_option() {
    // option B is hidden, so Number(1) resolves to A and moves to stage 1
    let stats = vec![stat_v(0, 0)];
    let stages = vec![
        st(0, vec![
            opt(2, "b", Condition::IfStatHigher { stat_id: 0, higher_than: 10 }, Effect::NoEffect),
            opt(1, "a", Condition::Always, Effect::NoEffect),
        ]),
        st(1, vec![opt(3, "on", Condition::Always, Effect::NoEffect)]),
        st(2, vec![opt(3, "on", Condition::Always, Effect::NoEffect)]),
        st(3, vec![]),
    ];
    let g = load(stats, stages, 0, 3);
    let g = g.handle_action(&Action::Number(1));
    assert_eq!(g.current_stage, 1);
}

#[test]
fn number_out_of_visible_range_is_ignored() {
    let stats = vec![stat_v(0, 0)];
    let stages = vec![
        st(0, vec![
            opt(1, "a", Condition::Always, Effect::NoEffect),
            opt(1, "b", Condition::IfStatHigher { stat_id: 0, higher_than: 10 }, Effect::NoEffect),
        ]),
        st(1, vec![]),
    ];
    let g = load(stats, stages, 0, 1);
    // two raw options, one visible: Number(2) passes the raw guard but
    // resolves to no visible option
    let g = g.handle_action(&Action::Number(2));
    assert_eq!(g.current_stage, 0);
    // Number(0) and Number(3) fail the raw guard
    let g = g.handle_action(&Action::Number(0));
    assert_eq!(g.current_stage, 0);
    let g = g.handle_action(&Action::Number(3));
    assert_eq!(g.current_stage, 0);
}

#[test]
fn effect_applies_before_transition() {
    // selecting A raises stat 0 by 12; entering stage 3 must already see it
    let stats = vec![stat_v(0, 0)];
    let stages = vec![
        st(0, vec![opt(3, "a", Condition::Always, Effect::SetStatHigher { stat_id: 0, to_add: 12 })]),
        st(1, vec![opt(4, "x", Condition::Always, Effect::NoEffect)]),
        st(2, vec![opt(4, "x", Condition::Always, Effect::NoEffect)]),
        st(3, vec![
            opt(4, "gate", Condition::IfStatHigher { stat_id: 0, higher_than: 10 }, Effect::NoEffect),
            opt(4, "always", Condition::Always, Effect::NoEffect),
        ]),
        st(4, vec![]),
    ];
    let g = load(stats, stages, 0, 4);
    let g = g.handle_action(&Action::Confirm);
    assert_eq!(g.current_stage, 3);
    assert_eq!(g.stats[0].value, 12);
    // the gated option is visible, so entering selected it (cursor 1)
    assert_eq!(g.stages[3].current_option, 1);
}

#[test]
fn confirm_on_exit_stage_finishes_without_moving() {
    let stages = vec![st(0, vec![opt(1, "end", Condition::Always, Effect::NoEffect)]), st(1, vec![])];
    let g = load(vec![], stages, 0, 1);
    let g = g.handle_action(&Action::Confirm);
    assert_eq!(g.current_stage, 1);
    assert!(!g.is_finished());
    let g = g.handle_action(&Action::Confirm);
    assert!(g.is_finished());
    assert_eq!(g.current_stage, 1);
}

#[test]
fn navigation_skips_invisible_options_and_wraps() {
    let stats = vec![stat_v(0, 0)];
    let stages = vec![
        st(0, vec![
            opt(1, "a", Condition::Always, Effect::NoEffect),
            opt(1, "b", Condition::IfStatHigher { stat_id: 0, higher_than: 10 }, Effect::NoEffect),
            opt(1, "c", Condition::Always, Effect::NoEffect),
        ]),
        st(1, vec![]),
    ];
    let g = load(stats, stages, 0, 1);
    assert_eq!(g.stages[0].current_option, 1);
    let g = g.handle_action(&Action::Down);
    assert_eq!(g.stages[0].current_option, 3);
    let g = g.handle_action(&Action::Down);
    assert_eq!(g.stages[0].current_option, 1);
    let g = g.handle_action(&Action::Up);
    assert_eq!(g.stages[0].current_option, 3);
    let g = g.handle_action(&Action::Up);
    assert_eq!(g.stages[0].current_option, 1);
}

#[test]
fn navigation_with_no_visible_option_is_ignored() {
    let stats = vec![stat_v(0, 0)];
    let stages = vec![
        st(0, vec![opt(1, "b", Condition::IfStatHigher { stat_id: 0, higher_than: 10 }, Effect::NoEffect)]),
        st(1, vec![]),
    ];
    let g = load(stats, stages, 0, 1);
    assert_eq!(g.stages[0].current_option, 0);
    let g = g.handle_action(&Action::Down);
    assert_eq!(g.stages[0].current_option, 0);
    let g = g.handle_action(&Action::Up);
    assert_eq!(g.stages[0].current_option, 0);
    // Confirm with a cleared cursor on a stage that has options is a no-op
    let g = g.handle_action(&Action::Confirm);
    assert_eq!(g.current_stage, 0);
    assert!(!g.is_finished());
}

#[test]
fn ignored_actions_change_nothing() {
    let stages = vec![st(0, vec![opt(1, "end", Condition::Always, Effect::NoEffect)]), st(1, vec![])];
    let g = load(vec![], stages, 0, 1);
    let g = g.handle_action(&Action::Quit);
    let g = g.handle_action(&Action::Cancel);
    let g = g.handle_action(&Action::Debug);
    let g = g.handle_action(&Action::Unimplemented);
    assert_eq!(g.current_stage, 0);
    assert_eq!(g.stages[0].current_option, 1);
    assert!(!g.is_finished());
}

#[test]
fn set_stat_effects_apply_exactly() {
    let stats = vec![stat_v(0, 5), stat_v(1, 5)];
    let stages = vec![
        st(0, vec![
            opt(1, "set", Condition::Always, Effect::SetStatExact { stat_id: 0, new_value: 42 }),
        ]),
        st(1, vec![
            opt(2, "sub", Condition::Always, Effect::SetStatLower { stat_id: 1, to_subtract: 7 }),
        ]),
        st(2, vec![]),
    ];
    let g = load(stats, stages, 0, 2);
    let g = g.handle_action(&Action::Confirm);
    assert_eq!(g.stats[0].value, 42);
    assert_eq!(g.stats[1].value, 5);
    let g = g.handle_action(&Action::Confirm);
    assert_eq!(g.stats[1].value, -2);
}

#[test]
fn stat_arithmetic_wraps_at_the_boundaries() {
    let stats = vec![stat_v(0, i32::MAX)];
    let stages = vec![
        st(0, vec![opt(1, "inc", Condition::Always, Effect::SetStatHigher { stat_id: 0, to_add: 1 })]),
        st(1, vec![]),
    ];
    let g = load(stats, stages, 0, 1);
    let g = g.handle_action(&Action::Confirm);
    assert_eq!(g.stats[0].value, i32::MIN);
}

#[test]
fn use_item_effect_is_a_no_op_at_runtime() {
    let items = vec![advgame::game_components::Item {
        id: 0,
        name: "charm".to_string(),
        effect: advgame::game_components::ItemEffect::NoEffect,
    }];
    let stats = vec![stat_v(0, 3)];
    let stages = vec![
        st(0, vec![opt(1, "use", Condition::Always, Effect::UseItem { item_id: 0 })]),
        st(1, vec![]),
    ];
    let g = GameState::new("t".to_string(), stats, stages, vec![], items, 0, 1)
        .post_process()
        .unwrap();
    let g = g.handle_action(&Action::Confirm);
    assert_eq!(g.stats[0].value, 3);
    assert_eq!(g.current_stage, 1);
}

#[test]
fn visible_options_keeps_original_order() {
    let stats = vec![stat_v(0, 0)];
    let stages = vec![
        st(0, vec![
            opt(1, "a", Condition::Always, Effect::NoEffect),
            opt(1, "b", Condition::IfStatHigher { stat_id: 0, higher_than: 10 }, Effect::NoEffect),
            opt(1, "c", Condition::IfStatLower { stat_id: 0, lower_than: 10 }, Effect::NoEffect),
        ]),
        st(1, vec![]),
    ];
    let g = load(stats, stages, 0, 1);
    let vis = g.visible_options(&g.stages[0]);
    assert_eq!(vis.len(), 2);
    assert_eq!(vis[0].text[0], "a");
    assert_eq!(vis[1].text[0], "c");
    assert_eq!(vis[1].target_stage, 1);
}

#[test]
fn change_option_moves_a_detached_stage() {
    let stats = vec![stat_v(0, 0)];
    let stages = vec![
        st(0, vec![opt(1, "go", Condition::Always, Effect::NoEffect)]),
        st(1, vec![]),
    ];
    let g = load(stats, stages, 0, 1);
    let mut loose = Stage {
        index: 9,
        name: "loose".to_string(),
        text: vec![],
        options: vec![
            opt(0, "x", Condition::IfStatExact { stat_id: 0, value: 1 }, Effect::NoEffect),
            opt(0, "y", Condition::Always, Effect::NoEffect),
        ],
        current_option: 2,
    };
    loose.change_option(Direction::Down, &g);
    assert_eq!(loose.current_option, 2);
    loose.change_option(Direction::Up, &g);
    assert_eq!(loose.current_option, 2);
}

#[test]
fn is_filled_and_is_index_visible_follow_the_stats() {
    let stats = vec![stat_v(0, 7)];
    let stages = vec![
        st(0, vec![
            opt(1, "low", Condition::IfStatLower { stat_id: 0, lower_than: 10 }, Effect::NoEffect),
            opt(1, "high", Condition::IfStatHigher { stat_id: 0, higher_than: 10 }, Effect::NoEffect),
        ]),
        st(1, vec![]),
    ];
    let g = load(stats, stages, 0, 1);
    assert!(g.is_filled(&g.stages[0].options[0]));
    assert!(!g.is_filled(&g.stages[0].options[1]));
    assert!(g.is_index_visible(&g.stages[0], 0));
    assert!(!g.is_index_visible(&g.stages[0], 1));
    assert!(!g.is_index_visible(&g.stages[0], 5));
}

#[test]
fn accessors_read_and_replace_the_current_stage() {
    let stages = vec![st(0, vec![opt(1, "go", Condition::Always, Effect::NoEffect)]), st(1, vec![])];
    let mut g = load(vec![], stages, 0, 1);
    assert_eq!(g.get_name(), "engine test");
    assert_eq!(g.get_current_stage().index, 0);
    g.get_current_stage_mut().name = "renamed".to_string();
    assert_eq!(g.get_current_stage().name, "renamed");
    let replacement = st(0, vec![opt(1, "other", Condition::Always, Effect::NoEffect)]);
    g.replace_current_stage(replacement);
    assert_eq!(g.get_current_stage().options[0].text[0], "other");
    g.replace_current_stage_with(|mut s: Stage| {
        s.current_option = 1;
        s
    });
    assert_eq!(g.get_current_stage().current_option, 1);
}
