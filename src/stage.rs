//! Lookups in a stage's inputs and variables, and their reconciliation with
//! the schema of a newly chosen filter.
use vstd::prelude::*;

use crate::catalog::VariableDecl;
use crate::model::{
    input_keys_distinct, variable_keys_distinct, Automation, InputSlot, SampledInput, Sampling,
    VariableSlot,
};

verus! {

/// Whether `j` is the first input slot named `name`.
pub open spec fn is_first_input(slots: Seq<InputSlot>, name: Seq<char>, j: int) -> bool {
    &&& 0 <= j < slots.len()
    &&& slots[j].uniform@ == name
    &&& forall|i: int| 0 <= i < j ==> (#[trigger] slots[i]).uniform@ != name
}

/// The first input slot named `name`, if any.
pub open spec fn find_input(slots: Seq<InputSlot>, name: Seq<char>) -> Option<int> {
    if exists|j: int| 0 <= j < slots.len() && (#[trigger] slots[j]).uniform@ == name {
        Some(choose|j: int| is_first_input(slots, name, j))
    } else {
        None
    }
}

/// Whether `j` is the first variable slot named `name`.
pub open spec fn is_first_variable(slots: Seq<VariableSlot>, name: Seq<char>, j: int) -> bool {
    &&& 0 <= j < slots.len()
    &&& slots[j].name@ == name
    &&& forall|i: int| 0 <= i < j ==> (#[trigger] slots[i]).name@ != name
}

/// The first variable slot named `name`, if any.
pub open spec fn find_variable(slots: Seq<VariableSlot>, name: Seq<char>) -> Option<int> {
    if exists|j: int| 0 <= j < slots.len() && (#[trigger] slots[j]).name@ == name {
        Some(choose|j: int| is_first_variable(slots, name, j))
    } else {
        None
    }
}

/// Position of the input slot named `name`.
pub fn input_position(slots: &Vec<InputSlot>, name: &String) -> (r: Option<usize>)
    ensures
        r matches Some(j) ==> j < slots@.len() && find_input(slots@, name@) == Some(j as int),
        r is None ==> find_input(slots@, name@) is None,
{
    let mut i: usize = 0;
    while i < slots.len()
        invariant
            i <= slots.len(),
            forall|j: int| 0 <= j < i ==> (#[trigger] slots@[j]).uniform@ != name@,
        decreases slots.len() - i,
    {
        if slots[i].uniform == *name {
            proof {
                assert(is_first_input(slots@, name@, i as int));
                let j = choose|j: int| is_first_input(slots@, name@, j);
                if j < i {
                    assert(slots@[j].uniform@ != name@);
                } else if j > i {
                    assert(slots@[i as int].uniform@ != name@);
                }
            }
            return Some(i);
        }
        i = i + 1;
    }
    None
}

/// Position of the variable slot named `name`.
pub fn variable_position(slots: &Vec<VariableSlot>, name: &String) -> (r: Option<usize>)
    ensures
        r matches Some(j) ==> j < slots@.len() && find_variable(slots@, name@) == Some(j as int),
        r is None ==> find_variable(slots@, name@) is None,
{
    let mut i: usize = 0;
    while i < slots.len()
        invariant
            i <= slots.len(),
            forall|j: int| 0 <= j < i ==> (#[trigger] slots@[j]).name@ != name@,
        decreases slots.len() - i,
    {
        if slots[i].name == *name {
            proof {
                assert(is_first_variable(slots@, name@, i as int));
                let j = choose|j: int| is_first_variable(slots@, name@, j);
                if j < i {
                    assert(slots@[j].name@ != name@);
                } else if j > i {
                    assert(slots@[i as int].name@ != name@);
                }
            }
            return Some(i);
        }
        i = i + 1;
    }
    None
}

/// The input of `new` for the uniform `uniform` after a filter swap: the
/// source it had if the stage had an input of that name, otherwise a linear
/// reference to `default`.
pub open spec fn kept_or_default_input(
    old: Seq<InputSlot>,
    uniform: Seq<char>,
    default: Seq<char>,
    new: InputSlot,
) -> bool {
    &&& new.uniform@ == uniform
    &&& match find_input(old, uniform) {
        Some(i) => new.source == old[i].source,
        None => new.source.spec_sampling() == Sampling::Linear && new.source.source() == default,
    }
}

/// `new` has exactly one input per uniform that `declared` names, in order.
pub open spec fn inputs_reconciled(
    old: Seq<InputSlot>,
    declared: Seq<String>,
    default: Seq<char>,
    new: Seq<InputSlot>,
) -> bool {
    &&& new.len() == declared.len()
    &&& forall|j: int|
        0 <= j < new.len() ==> kept_or_default_input(old, declared[j]@, default, #[trigger] new[j])
}

/// The variable of `new` for the declaration `decl` after a filter swap:
/// value and automation kept if the stage had a variable of that name,
/// otherwise the declared default with no automation.
pub open spec fn kept_or_default_variable(
    old: Seq<VariableSlot>,
    decl: VariableDecl,
    new: VariableSlot,
) -> bool {
    &&& new.name@ == decl.name@
    &&& match find_variable(old, decl.name@) {
        Some(i) => new.value == old[i].value && new.automation == old[i].automation,
        None => new.value == decl.default && new.automation == Automation::Off,
    }
}

/// `new` has exactly one variable per declaration of `declared`, in order.
pub open spec fn variables_reconciled(
    old: Seq<VariableSlot>,
    declared: Seq<VariableDecl>,
    new: Seq<VariableSlot>,
) -> bool {
    &&& new.len() == declared.len()
    &&& forall|j: int|
        0 <= j < new.len() ==> kept_or_default_variable(old, declared[j], #[trigger] new[j])
}

/// The inputs of a stage whose filter now declares `declared`.
pub fn reconcile_inputs(old: &Vec<InputSlot>, declared: &Vec<String>, default: &String) -> (r: Vec<
    InputSlot,
>)
    ensures
        inputs_reconciled(old@, declared@, default@, r@),
        (forall|a: int, b: int|
            0 <= a < b < declared@.len() ==> #[trigger] declared@[a]@ != #[trigger] declared@[b]@)
            ==> input_keys_distinct(r@),
{
    let mut r: Vec<InputSlot> = Vec::new();
    let mut j: usize = 0;
    while j < declared.len()
        invariant
            j <= declared.len(),
            r@.len() == j,
            forall|i: int|
                0 <= i < j ==> kept_or_default_input(old@, declared@[i]@, default@, #[trigger] r@[i]),
        decreases declared.len() - j,
    {
        let source = match input_position(old, &declared[j]) {
            Some(i) => old[i].source.clone(),
            None => SampledInput::Linear(default.clone()),
        };
        r.push(InputSlot { uniform: declared[j].clone(), source });
        j = j + 1;
    }
    assert forall|a: int, b: int|
        0 <= a < b < r@.len() && r@[a].uniform@ == r@[b].uniform@ implies declared@[a]@
        == declared@[b]@ by {}
    r
}

/// The variables of a stage whose filter now declares `declared`.
pub fn reconcile_variables(old: &Vec<VariableSlot>, declared: &Vec<VariableDecl>) -> (r: Vec<
    VariableSlot,
>)
    ensures
        variables_reconciled(old@, declared@, r@),
        (forall|a: int, b: int|
            0 <= a < b < declared@.len() ==> #[trigger] declared@[a].name@
                != #[trigger] declared@[b].name@) ==> variable_keys_distinct(r@),
{
    let mut r: Vec<VariableSlot> = Vec::new();
    let mut j: usize = 0;
    while j < declared.len()
        invariant
            j <= declared.len(),
            r@.len() == j,
            forall|i: int| 0 <= i < j ==> kept_or_default_variable(old@, declared@[i], #[trigger] r@[i]),
        decreases declared.len() - j,
    {
        let slot = match variable_position(old, &declared[j].name) {
            Some(i) => VariableSlot {
                name: declared[j].name.clone(),
                value: old[i].value,
                automation: old[i].automation,
            },
            None => VariableSlot {
                name: declared[j].name.clone(),
                value: declared[j].default,
                automation: Automation::Off,
            },
        };
        r.push(slot);
        j = j + 1;
    }
    assert forall|a: int, b: int|
        0 <= a < b < r@.len() && r@[a].name@ == r@[b].name@ implies declared@[a].name@
        == declared@[b].name@ by {}
    r
}

} // verus!
