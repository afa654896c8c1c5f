//! Load-time validation errors, their human-readable messages, and the
//! id-to-position lookup that the remapping passes share.
use vstd::prelude::*;
use vstd::string::StringExecFns;

verus! {

/// A failure of the load-time validation pipeline. Each variant names the
/// offending author-facing identifier and, where applicable, the enclosing
/// stage's or item's display name.
#[derive(Debug)]
pub enum ValidationError {
    /// A stage with zero options whose author id differs from the declared
    /// exit stage.
    DeadEndStage { stage_index: usize },
    /// No stage with zero options exists at all.
    NoExitStage,
    /// A condition or effect of an option names a stat id that no stat has.
    UnknownStat { stat_id: usize, stage_index: usize, stage_name: String },
    /// An item's effect names a stat id that no stat has.
    UnknownStatInItem { item_name: String },
    /// An option with no display text.
    EmptyOptionText { stage_index: usize },
    /// An option targets a stage id that no stage has.
    UnknownTargetStage { target: usize, stage_index: usize, stage_name: String },
    /// Two stages share one author id, so no bijection to positions exists.
    DuplicateStageIndex { stage_index: usize },
    /// The declared entry stage id resolves to no stage.
    InvalidEntryStage,
    /// The declared exit stage id resolves to no stage.
    InvalidExitStage,
    /// A `UseItem` effect names an item id that no item has.
    UnknownItem { item_id: usize },
    /// Two items share one author id, so no bijection to positions exists.
    DuplicateItemId { item_id: usize },
}

/// The character for one decimal digit.
pub open spec fn digit_char(d: nat) -> char {
    if d == 0 {
        '0'
    } else if d == 1 {
        '1'
    } else if d == 2 {
        '2'
    } else if d == 3 {
        '3'
    } else if d == 4 {
        '4'
    } else if d == 5 {
        '5'
    } else if d == 6 {
        '6'
    } else if d == 7 {
        '7'
    } else if d == 8 {
        '8'
    } else {
        '9'
    }
}

/// The decimal digits of `n`, most significant first.
pub open spec fn dec_digits(n: nat) -> Seq<char>
    decreases n,
{
    if n < 10 {
        seq![digit_char(n)]
    } else {
        dec_digits(n / 10).push(digit_char(n % 10))
    }
}

/// The message text of each validation error.
pub open spec fn spec_message(e: ValidationError) -> Seq<char> {
    match e {
        ValidationError::DeadEndStage { stage_index } => "Stage nr. "@ + dec_digits(
            stage_index as nat,
        ) + " has no options and isn't the final stage!"@,
        ValidationError::NoExitStage => "Exit stage can't contain options!"@,
        ValidationError::UnknownStat { stat_id, stage_index, stage_name } => "Entry \""@
            + dec_digits(stat_id as nat) + "\" in stage "@ + dec_digits(stage_index as nat)
            + ", \""@ + stage_name@ + "\" points to an inexistent stat."@,
        ValidationError::UnknownStatInItem { item_name } => "Invalid state id in item "@
            + item_name@ + "."@,
        ValidationError::EmptyOptionText { stage_index } => "No text provided for option in stage "@
            + dec_digits(stage_index as nat),
        ValidationError::UnknownTargetStage { target, stage_index, stage_name } => "Entry \""@
            + dec_digits(target as nat) + "\" in stage "@ + dec_digits(stage_index as nat) + ", \""@
            + stage_name@ + "\" points to an inexistent stage."@,
        ValidationError::DuplicateStageIndex { stage_index } => "Stage id "@ + dec_digits(
            stage_index as nat,
        ) + " is used by more than one stage!"@,
        ValidationError::InvalidEntryStage => "Entry stage is invalid!"@,
        ValidationError::InvalidExitStage => "Exit stage is invalid!"@,
        ValidationError::UnknownItem { item_id } => "Invalid item "@ + dec_digits(item_id as nat)
            + " in a use_item effect."@,
        ValidationError::DuplicateItemId { item_id } => "Item id "@ + dec_digits(item_id as nat)
            + " is used by more than one item!"@,
    }
}

/// The one-character string for a decimal digit.
fn digit_str(d: usize) -> (r: &'static str)
    requires
        d < 10,
    ensures
        r@ == seq![digit_char(d as nat)],
{
    let r: &'static str = match d {
        0 => "0",
        1 => "1",
        2 => "2",
        3 => "3",
        4 => "4",
        5 => "5",
        6 => "6",
        7 => "7",
        8 => "8",
        _ => "9",
    };
    proof {
        reveal_strlit("0");
        reveal_strlit("1");
        reveal_strlit("2");
        reveal_strlit("3");
        reveal_strlit("4");
        reveal_strlit("5");
        reveal_strlit("6");
        reveal_strlit("7");
        reveal_strlit("8");
        reveal_strlit("9");
        assert(r@ =~= seq![digit_char(d as nat)]);
    }
    r
}

/// Renders `n` in decimal.
pub fn render_usize(n: usize) -> (r: String)
    ensures
        r@ == dec_digits(n as nat),
    decreases n,
{
    if n < 10 {
        let mut s = String::new();
        s.append(digit_str(n));
        proof {
            assert(s@ =~= dec_digits(n as nat));
        }
        s
    } else {
        assert(n / 10 < n && n / 10 >= 1) by (nonlinear_arith)
            requires
                n >= 10,
        ;
        let mut s = render_usize(n / 10);
        s.append(digit_str(n % 10));
        proof {
            assert(s@ =~= dec_digits(n as nat));
        }
        s
    }
}

impl ValidationError {
    /// The human-readable message of the error, naming the offending
    /// author-facing identifier.
    pub fn message(&self) -> (r: String)
        ensures
            r@ == spec_message(*self),
    {
        match self {
            ValidationError::DeadEndStage { stage_index } => {
                let mut s = String::from_str("Stage nr. ");
                s.append(render_usize(*stage_index).as_str());
                s.append(" has no options and isn't the final stage!");
                s
            },
            ValidationError::NoExitStage => String::from_str(
                "Exit stage can't contain options!",
            ),
            ValidationError::UnknownStat { stat_id, stage_index, stage_name } => {
                let mut s = String::from_str("Entry \"");
                s.append(render_usize(*stat_id).as_str());
                s.append("\" in stage ");
                s.append(render_usize(*stage_index).as_str());
                s.append(", \"");
                s.append(stage_name.as_str());
                s.append("\" points to an inexistent stat.");
                s
            },
            ValidationError::UnknownStatInItem { item_name } => {
                let mut s = String::from_str("Invalid state id in item ");
                s.append(item_name.as_str());
                s.append(".");
                s
            },
            ValidationError::EmptyOptionText { stage_index } => {
                let mut s = String::from_str("No text provided for option in stage ");
                s.append(render_usize(*stage_index).as_str());
                s
            },
            ValidationError::UnknownTargetStage { target, stage_index, stage_name } => {
                let mut s = String::from_str("Entry \"");
                s.append(render_usize(*target).as_str());
                s.append("\" in stage ");
                s.append(render_usize(*stage_index).as_str());
                s.append(", \"");
                s.append(stage_name.as_str());
                s.append("\" points to an inexistent stage.");
                s
            },
            ValidationError::DuplicateStageIndex { stage_index } => {
                let mut s = String::from_str("Stage id ");
                s.append(render_usize(*stage_index).as_str());
                s.append(" is used by more than one stage!");
                s
            },
            ValidationError::InvalidEntryStage => String::from_str("Entry stage is invalid!"),
            ValidationError::InvalidExitStage => String::from_str("Exit stage is invalid!"),
            ValidationError::UnknownItem { item_id } => {
                let mut s = String::from_str("Invalid item ");
                s.append(render_usize(*item_id).as_str());
                s.append(" in a use_item effect.");
                s
            },
            ValidationError::DuplicateItemId { item_id } => {
                let mut s = String::from_str("Item id ");
                s.append(render_usize(*item_id).as_str());
                s.append(" is used by more than one item!");
                s
            },
        }
    }
}

/// The position of the last element of `ids` equal to `id`, or -1 when none
/// is. (The loader resolves duplicate author ids to the last occurrence.)
pub open spec fn last_index_of(ids: Seq<usize>, id: usize) -> int
    decreases ids.len(),
{
    if ids.len() == 0 {
        -1
    } else if ids[ids.len() - 1] == id {
        ids.len() - 1
    } else {
        last_index_of(ids.drop_last(), id)
    }
}

/// What `last_index_of` returns: -1 exactly when `id` does not occur, and
/// otherwise the greatest position holding `id`.
pub proof fn lemma_last_index_of(ids: Seq<usize>, id: usize)
    ensures
        last_index_of(ids, id) == -1 ==> forall|i: int| 0 <= i < ids.len() ==> ids[i] != id,
        last_index_of(ids, id) != -1 ==> {
            &&& 0 <= last_index_of(ids, id) < ids.len()
            &&& ids[last_index_of(ids, id)] == id
            &&& forall|i: int| last_index_of(ids, id) < i < ids.len() ==> ids[i] != id
        },
    decreases ids.len(),
{
    if ids.len() > 0 && ids[ids.len() - 1] != id {
        lemma_last_index_of(ids.drop_last(), id);
        assert(forall|i: int| 0 <= i < ids.len() - 1 ==> ids[i] == ids.drop_last()[i]);
    }
}

/// Finds the position the loader maps `id` to: the last element of `ids`
/// equal to `id`, or `None` when `id` does not occur.
pub fn lookup_id(ids: &Vec<usize>, id: usize) -> (r: Option<usize>)
    ensures
        match r {
            Some(p) => p == last_index_of(ids@, id) && p < ids@.len(),
            None => last_index_of(ids@, id) == -1,
        },
{
    let mut i = ids.len();
    assert(ids@.subrange(0, i as int) =~= ids@);
    while i > 0
        invariant
            i <= ids@.len(),
            last_index_of(ids@, id) == last_index_of(ids@.subrange(0, i as int), id),
        decreases i,
    {
        if ids[i - 1] == id {
            proof {
                let pre = ids@.subrange(0, i as int);
                assert(pre[pre.len() - 1] == id);
            }
            return Some(i - 1);
        }
        proof {
            let pre = ids@.subrange(0, i as int);
            assert(pre.drop_last() =~= ids@.subrange(0, i - 1));
        }
        i = i - 1;
    }
    None
}

} // verus!
