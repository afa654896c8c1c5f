//! Cursor movement over a stage's raw option list: cyclic search for the
//! next visible option, entry of a stage, and the ordered sequence of
//! visible option positions.
use vstd::prelude::*;

use crate::game_components::{cond_ref_ok, spec_is_filled, Condition, Direction, StageOption, Statistic};

verus! {

/// Whether every option's condition references a valid stat position.
pub open spec fn conds_ok(options: Seq<StageOption>, n_stats: int) -> bool {
    forall|j: int| 0 <= j < options.len() ==> cond_ref_ok(options[j].condition, n_stats)
}

/// Whether at least one option is visible under the given stat values.
pub open spec fn some_visible(stats: Seq<Statistic>, options: Seq<StageOption>) -> bool {
    exists|i: int| 0 <= i < options.len() && spec_is_filled(stats, options[i].condition)
}

/// One cursor movement over the raw list: positions are 1-based, `Down`
/// wraps from `len` to 1 and `Up` wraps from 1 to `len`.
pub open spec fn step_position(dir: Direction, pos: int, len: int) -> int {
    match dir {
        Direction::Down => if pos >= len {
            1
        } else {
            pos + 1
        },
        Direction::Up => if pos <= 1 {
            len
        } else {
            pos - 1
        },
    }
}

/// The 1-based position the cursor stops at when moved repeatedly from
/// `pos` in direction `dir`, stopping at the first visible option, with at
/// most `fuel` movements; 0 when no visible option is met.
pub open spec fn next_visible_from(
    stats: Seq<Statistic>,
    options: Seq<StageOption>,
    dir: Direction,
    pos: int,
    fuel: nat,
) -> int
    decreases fuel,
{
    if fuel == 0 {
        0
    } else {
        let p = step_position(dir, pos, options.len() as int);
        if spec_is_filled(stats, options[p - 1].condition) {
            p
        } else {
            next_visible_from(stats, options, dir, p, (fuel - 1) as nat)
        }
    }
}

/// Where one `Up`/`Down` navigation from `start` lands: the first visible
/// position met within one full cycle of the raw list.
pub open spec fn spec_next_option(
    stats: Seq<Statistic>,
    options: Seq<StageOption>,
    dir: Direction,
    start: int,
) -> int {
    next_visible_from(stats, options, dir, start, options.len() as nat)
}

/// The number of movements in direction `dir` that carry the cursor from
/// `pos` to the 1-based position `target`; always in `[1, len]`.
pub open spec fn steps_to(dir: Direction, pos: int, target: int, len: int) -> int {
    match dir {
        Direction::Down => if target > pos {
            target - pos
        } else {
            len - pos + target
        },
        Direction::Up => if target < pos {
            pos - target
        } else {
            pos - target + len
        },
    }
}

/// Moving one step brings the cursor one movement closer to `target`, and
/// the final movement reaches it.
proof fn lemma_step_closer(dir: Direction, pos: int, target: int, len: int)
    requires
        len >= 1,
        0 <= pos <= len,
        dir is Up ==> pos >= 1,
        1 <= target <= len,
    ensures
        1 <= steps_to(dir, pos, target, len) <= len,
        steps_to(dir, pos, target, len) == 1 ==> step_position(dir, pos, len) == target,
        steps_to(dir, pos, target, len) > 1 ==> steps_to(dir, step_position(dir, pos, len), target, len)
            == steps_to(dir, pos, target, len) - 1,
{
}

/// Starting anywhere, when some option at position `v` (0-based) is visible
/// and at least `steps_to` the cursor's target remain as fuel, the cyclic
/// search stops at a visible position.
proof fn lemma_next_visible_hits(
    stats: Seq<Statistic>,
    options: Seq<StageOption>,
    dir: Direction,
    pos: int,
    fuel: nat,
    v: int,
)
    requires
        options.len() >= 1,
        0 <= pos <= options.len(),
        dir is Up ==> pos >= 1,
        0 <= v < options.len(),
        spec_is_filled(stats, options[v].condition),
        steps_to(dir, pos, v + 1, options.len() as int) <= fuel,
    ensures
        1 <= next_visible_from(stats, options, dir, pos, fuel) <= options.len(),
        spec_is_filled(
            stats,
            options[next_visible_from(stats, options, dir, pos, fuel) - 1].condition,
        ),
    decreases fuel,
{
    let len = options.len() as int;
    lemma_step_closer(dir, pos, v + 1, len);
    let p = step_position(dir, pos, len);
    if !spec_is_filled(stats, options[p - 1].condition) {
        lemma_next_visible_hits(stats, options, dir, p, (fuel - 1) as nat, v);
    }
}

/// When some option is visible, one navigation step from any in-range start
/// lands on a visible position within the raw bounds.
pub proof fn lemma_next_option_visible(
    stats: Seq<Statistic>,
    options: Seq<StageOption>,
    dir: Direction,
    start: int,
)
    requires
        options.len() >= 1,
        0 <= start <= options.len(),
        dir is Up ==> start >= 1,
        some_visible(stats, options),
    ensures
        1 <= spec_next_option(stats, options, dir, start) <= options.len(),
        spec_is_filled(
            stats,
            options[spec_next_option(stats, options, dir, start) - 1].condition,
        ),
{
    let v = choose|i: int| 0 <= i < options.len() && spec_is_filled(stats, options[i].condition);
    lemma_step_closer(dir, start, v + 1, options.len() as int);
    lemma_next_visible_hits(stats, options, dir, start, options.len() as nat, v);
}

/// Evaluates a condition against the current stat values.
pub fn eval_condition(stats: &Vec<Statistic>, c: &Condition) -> (r: bool)
    requires
        cond_ref_ok(*c, stats@.len() as int),
    ensures
        r == spec_is_filled(stats@, *c),
{
    match *c {
        Condition::Always => true,
        Condition::IfStatHigher { stat_id, higher_than } => stats[stat_id].value > higher_than,
        Condition::IfStatLower { stat_id, lower_than } => stats[stat_id].value < lower_than,
        Condition::IfStatExact { stat_id, value } => stats[stat_id].value == value,
    }
}

/// Whether any option of the list is visible.
pub fn any_visible(stats: &Vec<Statistic>, options: &Vec<StageOption>) -> (r: bool)
    requires
        conds_ok(options@, stats@.len() as int),
    ensures
        r == some_visible(stats@, options@),
{
    let mut j: usize = 0;
    while j < options.len()
        invariant
            j <= options@.len(),
            conds_ok(options@, stats@.len() as int),
            forall|i: int| 0 <= i < j ==> !spec_is_filled(stats@, options@[i].condition),
        decreases options@.len() - j,
    {
        if eval_condition(stats, &options[j].condition) {
            return true;
        }
        j += 1;
    }
    false
}

/// The cursor position one `Up`/`Down` navigation stops at, moving from
/// `start` over the raw option list and skipping invisible options.
pub fn next_option_position(
    stats: &Vec<Statistic>,
    options: &Vec<StageOption>,
    start: usize,
    dir: Direction,
) -> (r: usize)
    requires
        options@.len() >= 1,
        start <= options@.len(),
        dir is Up ==> start >= 1,
        conds_ok(options@, stats@.len() as int),
        some_visible(stats@, options@),
    ensures
        r == spec_next_option(stats@, options@, dir, start as int),
        1 <= r <= options@.len(),
        spec_is_filled(stats@, options@[r - 1].condition),
{
    let len = options.len();
    proof {
        lemma_next_option_visible(stats@, options@, dir, start as int);
    }
    let ghost target = spec_next_option(stats@, options@, dir, start as int);
    let mut pos = start;
    let ghost mut fuel: nat = len as nat;
    loop
        invariant
            len == options@.len(),
            len >= 1,
            0 <= pos <= len,
            dir is Up ==> pos >= 1,
            conds_ok(options@, stats@.len() as int),
            fuel >= 1,
            target == spec_next_option(stats@, options@, dir, start as int),
            target == next_visible_from(stats@, options@, dir, pos as int, fuel),
            1 <= target <= len,
            spec_is_filled(stats@, options@[target - 1].condition),
        decreases fuel,
    {
        let p: usize = match dir {
            Direction::Down => if pos >= len {
                1
            } else {
                pos + 1
            },
            Direction::Up => if pos <= 1 {
                len
            } else {
                pos - 1
            },
        };
        proof {
            assert(p as int == step_position(dir, pos as int, len as int));
        }
        if eval_condition(stats, &options[p - 1].condition) {
            proof {
                assert(next_visible_from(stats@, options@, dir, pos as int, fuel) == p);
            }
            return p;
        }
        proof {
            assert(next_visible_from(stats@, options@, dir, pos as int, fuel)
                == next_visible_from(stats@, options@, dir, p as int, (fuel - 1) as nat));
            if fuel == 1 {
                assert(next_visible_from(stats@, options@, dir, p as int, 0) == 0);
                assert(false);
            }
            fuel = (fuel - 1) as nat;
        }
        pos = p;
    }
}

/// The least 0-based option position at or after `i` whose condition holds,
/// or the list's length when none does.
pub open spec fn first_visible_at_or_after(
    stats: Seq<Statistic>,
    options: Seq<StageOption>,
    i: int,
) -> int
    decreases options.len() - i,
{
    if i < 0 || i >= options.len() {
        options.len() as int
    } else if spec_is_filled(stats, options[i].condition) {
        i
    } else {
        first_visible_at_or_after(stats, options, i + 1)
    }
}

/// The cursor value entering a stage produces: the first visible option's
/// 1-based position, or 0 when no option is visible.
pub open spec fn spec_enter_cursor(stats: Seq<Statistic>, options: Seq<StageOption>) -> int {
    if first_visible_at_or_after(stats, options, 0) < options.len() {
        first_visible_at_or_after(stats, options, 0) + 1
    } else {
        0
    }
}

/// What `first_visible_at_or_after` returns: a visible position with none
/// visible before it, or the length when nothing at or after `i` is visible.
pub proof fn lemma_first_visible(stats: Seq<Statistic>, options: Seq<StageOption>, i: int)
    requires
        0 <= i <= options.len(),
    ensures
        i <= first_visible_at_or_after(stats, options, i) <= options.len(),
        first_visible_at_or_after(stats, options, i) < options.len() ==> spec_is_filled(
            stats,
            options[first_visible_at_or_after(stats, options, i)].condition,
        ),
        forall|j: int|
            i <= j < first_visible_at_or_after(stats, options, i) ==> !spec_is_filled(
                stats,
                options[j].condition,
            ),
        first_visible_at_or_after(stats, options, i) == options.len() ==> forall|j: int|
            i <= j < options.len() ==> !spec_is_filled(stats, options[j].condition),
    decreases options.len() - i,
{
    if i < options.len() && !spec_is_filled(stats, options[i].condition) {
        lemma_first_visible(stats, options, i + 1);
    }
}

/// After entering a stage the cursor is 0 exactly when no option is
/// visible, and otherwise rests on a visible option within the raw bounds.
pub proof fn lemma_enter_cursor_valid(stats: Seq<Statistic>, options: Seq<StageOption>)
    ensures
        (spec_enter_cursor(stats, options) == 0) <==> !some_visible(stats, options),
        spec_enter_cursor(stats, options) != 0 ==> {
            &&& 1 <= spec_enter_cursor(stats, options) <= options.len()
            &&& spec_is_filled(stats, options[spec_enter_cursor(stats, options) - 1].condition)
        },
{
    lemma_first_visible(stats, options, 0);
}

/// The cursor position entering a stage selects: the 1-based position of
/// the first visible option, or 0 when none is visible.
pub fn enter_cursor_position(stats: &Vec<Statistic>, options: &Vec<StageOption>) -> (r: usize)
    requires
        conds_ok(options@, stats@.len() as int),
    ensures
        r as int == spec_enter_cursor(stats@, options@),
{
    let mut j: usize = 0;
    while j < options.len()
        invariant
            j <= options@.len(),
            conds_ok(options@, stats@.len() as int),
            forall|i: int| 0 <= i < j ==> !spec_is_filled(stats@, options@[i].condition),
        decreases options@.len() - j,
    {
        if eval_condition(stats, &options[j].condition) {
            proof {
                lemma_first_visible(stats@, options@, 0);
            }
            return j + 1;
        }
        j += 1;
    }
    proof {
        lemma_first_visible(stats@, options@, 0);
    }
    0
}

/// The 0-based positions, in ascending order, of the visible options among
/// the first `i` options.
pub open spec fn visible_prefix(stats: Seq<Statistic>, options: Seq<StageOption>, i: int) -> Seq<
    int,
>
    decreases i,
{
    if i <= 0 {
        Seq::empty()
    } else if spec_is_filled(stats, options[i - 1].condition) {
        visible_prefix(stats, options, i - 1).push(i - 1)
    } else {
        visible_prefix(stats, options, i - 1)
    }
}

/// The 0-based positions, in ascending order, of all visible options.
pub open spec fn visible_indices(stats: Seq<Statistic>, options: Seq<StageOption>) -> Seq<int> {
    visible_prefix(stats, options, options.len() as int)
}

/// The 0-based position of the `n`-th (1-based) visible option, in original
/// order, or `None` when fewer than `n` options are visible.
pub open spec fn spec_nth_visible(
    stats: Seq<Statistic>,
    options: Seq<StageOption>,
    n: int,
) -> Option<int> {
    let vis = visible_indices(stats, options);
    if 1 <= n <= vis.len() {
        Some(vis[n - 1])
    } else {
        None
    }
}

/// Finds the `n`-th (1-based) visible option's 0-based position.
pub fn nth_visible_index(stats: &Vec<Statistic>, options: &Vec<StageOption>, n: usize) -> (r:
    Option<usize>)
    requires
        conds_ok(options@, stats@.len() as int),
        n >= 1,
    ensures
        match r {
            Some(j) => spec_nth_visible(stats@, options@, n as int) == Some(j as int) && j
                < options@.len(),
            None => spec_nth_visible(stats@, options@, n as int) is None,
        },
{
    let mut j: usize = 0;
    let mut count: usize = 0;
    while j < options.len()
        invariant
            j <= options@.len(),
            conds_ok(options@, stats@.len() as int),
            n >= 1,
            count == visible_prefix(stats@, options@, j as int).len(),
            count < n,
        decreases options@.len() - j,
    {
        if eval_condition(stats, &options[j].condition) {
            count += 1;
            if count == n {
                proof {
                    let vp1 = visible_prefix(stats@, options@, j + 1);
                    assert(vp1[n - 1] == j);
                    lemma_visible_prefix_extends(stats@, options@, j + 1, options@.len() as int);
                }
                return Some(j);
            }
        }
        j += 1;
    }
    proof {
        assert(visible_indices(stats@, options@).len() < n);
    }
    None
}

/// Growing the prefix keeps the positions already collected.
pub proof fn lemma_visible_prefix_extends(
    stats: Seq<Statistic>,
    options: Seq<StageOption>,
    i1: int,
    i2: int,
)
    requires
        0 <= i1 <= i2 <= options.len(),
    ensures
        visible_prefix(stats, options, i1).len() <= visible_prefix(stats, options, i2).len(),
        forall|k: int|
            0 <= k < visible_prefix(stats, options, i1).len() ==> #[trigger] visible_prefix(
                stats,
                options,
                i2,
            )[k] == visible_prefix(stats, options, i1)[k],
    decreases i2 - i1,
{
    if i1 < i2 {
        lemma_visible_prefix_extends(stats, options, i1, i2 - 1);
    }
}

} // verus!
