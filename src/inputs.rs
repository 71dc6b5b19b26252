//! The input manager: named input sources, their conventional names and
//! the edits that keep the namespace consistent when inputs come and go.
use vstd::prelude::*;

use crate::model::{InputConfig, InputKind, NamedInput};
use crate::namespace::{
    chain_relinked, choice_seq, choices, contains_name, input_names, namespace, stage_relinked,
    views,
};
use crate::project::{renamed_references_follow, repair_orders, same_settings, EditError, Project};
use crate::text::{decimal, lemma_decimal_injective, push_decimal};
use crate::wire::{InputUpdate, Message};

verus! {

/// Whether no two inputs share a name.
pub open spec fn input_names_distinct(inputs: Seq<NamedInput>) -> bool {
    forall|i: int, j: int|
        0 <= i < j < inputs.len() ==> (#[trigger] inputs[i]).name@ != (#[trigger] inputs[j]).name@
}

/// Position of the input named `name`, if any.
pub open spec fn find_named(inputs: Seq<NamedInput>, name: Seq<char>) -> Option<int> {
    if exists|j: int| 0 <= j < inputs.len() && (#[trigger] inputs[j]).name@ == name {
        Some(choose|j: int| 0 <= j < inputs.len() && (#[trigger] inputs[j]).name@ == name)
    } else {
        None
    }
}

/// How many inputs are of kind `kind`.
pub open spec fn kind_count(inputs: Seq<NamedInput>, kind: InputKind) -> nat
    decreases inputs.len(),
{
    if inputs.len() == 0 {
        0
    } else {
        kind_count(inputs.drop_last(), kind) + if inputs.last().config.spec_kind() == kind {
            1nat
        } else {
            0nat
        }
    }
}

/// The word that names inputs of a kind.
pub open spec fn kind_label(kind: InputKind) -> Seq<char> {
    match kind {
        InputKind::Cam => "Camera"@,
        InputKind::Video => "Video"@,
        InputKind::Picture => "Picture"@,
        InputKind::Midi => "Midi"@,
    }
}

/// The `k`-th name for inputs of kind `kind`: its kind's word, `" #"` and `k`.
pub open spec fn numbered_name(kind: InputKind, k: nat) -> Seq<char> {
    kind_label(kind) + " #"@ + decimal(k)
}

/// The name a new input of kind `kind` gets when it is free: the number is
/// one more than the number of inputs of that kind.
pub open spec fn conventional_name(inputs: Seq<NamedInput>, kind: InputKind) -> Seq<char> {
    numbered_name(kind, kind_count(inputs, kind) + 1)
}

/// Different numbers give different names.
pub proof fn lemma_numbered_name_injective(kind: InputKind, a: nat, b: nat)
    requires
        numbered_name(kind, a) == numbered_name(kind, b),
    ensures
        a == b,
{
    let p = kind_label(kind) + " #"@;
    assert(numbered_name(kind, a).skip(p.len() as int) =~= decimal(a));
    assert(numbered_name(kind, b).skip(p.len() as int) =~= decimal(b));
    lemma_decimal_injective(a, b);
}

/// `cfg` with the field that `update` sets, if it has that field.
pub open spec fn apply_update(cfg: InputConfig, update: InputUpdate) -> Option<InputConfig> {
    match (cfg, update) {
        (InputConfig::Cam { path, width, height }, InputUpdate::SetPath(p)) => Some(
            InputConfig::Cam { path: p, width, height },
        ),
        (InputConfig::Cam { path, width, height }, InputUpdate::SetWidth(w)) => Some(
            InputConfig::Cam { path, width: w, height },
        ),
        (InputConfig::Cam { path, width, height }, InputUpdate::SetHeight(h)) => Some(
            InputConfig::Cam { path, width, height: h },
        ),
        (InputConfig::Video { path, width, height, speed }, InputUpdate::SetPath(p)) => Some(
            InputConfig::Video { path: p, width, height, speed },
        ),
        (InputConfig::Video { path, width, height, speed }, InputUpdate::SetWidth(w)) => Some(
            InputConfig::Video { path, width: w, height, speed },
        ),
        (InputConfig::Video { path, width, height, speed }, InputUpdate::SetHeight(h)) => Some(
            InputConfig::Video { path, width, height: h, speed },
        ),
        (InputConfig::Video { path, width, height, speed }, InputUpdate::SetSpeed(s)) => Some(
            InputConfig::Video { path, width, height, speed: s },
        ),
        (InputConfig::Picture { path, width, height }, InputUpdate::SetPath(p)) => Some(
            InputConfig::Picture { path: p, width, height },
        ),
        (InputConfig::Picture { path, width, height }, InputUpdate::SetWidth(w)) => Some(
            InputConfig::Picture { path, width: w, height },
        ),
        (InputConfig::Picture { path, width, height }, InputUpdate::SetHeight(h)) => Some(
            InputConfig::Picture { path, width, height: h },
        ),
        (InputConfig::Midi { .. }, InputUpdate::SetPath(p)) => Some(InputConfig::Midi { pattern: p }),
        _ => None,
    }
}

/// `cfg` with the field that `update` sets, if it has that field.
pub fn updated_input(cfg: &InputConfig, update: &InputUpdate) -> (r: Option<InputConfig>)
    ensures
        r == apply_update(*cfg, *update),
{
    match (cfg, update) {
        (InputConfig::Cam { path, width, height }, InputUpdate::SetPath(p)) => Some(
            InputConfig::Cam { path: p.clone(), width: *width, height: *height },
        ),
        (InputConfig::Cam { path, width, height }, InputUpdate::SetWidth(w)) => Some(
            InputConfig::Cam { path: path.clone(), width: *w, height: *height },
        ),
        (InputConfig::Cam { path, width, height }, InputUpdate::SetHeight(h)) => Some(
            InputConfig::Cam { path: path.clone(), width: *width, height: *h },
        ),
        (InputConfig::Video { path, width, height, speed }, InputUpdate::SetPath(p)) => Some(
            InputConfig::Video { path: p.clone(), width: *width, height: *height, speed: *speed },
        ),
        (InputConfig::Video { path, width, height, speed }, InputUpdate::SetWidth(w)) => Some(
            InputConfig::Video { path: path.clone(), width: *w, height: *height, speed: *speed },
        ),
        (InputConfig::Video { path, width, height, speed }, InputUpdate::SetHeight(h)) => Some(
            InputConfig::Video { path: path.clone(), width: *width, height: *h, speed: *speed },
        ),
        (InputConfig::Video { path, width, height, .. }, InputUpdate::SetSpeed(s)) => Some(
            InputConfig::Video { path: path.clone(), width: *width, height: *height, speed: *s },
        ),
        (InputConfig::Picture { width, height, .. }, InputUpdate::SetPath(p)) => Some(
            InputConfig::Picture { path: p.clone(), width: *width, height: *height },
        ),
        (InputConfig::Picture { path, height, .. }, InputUpdate::SetWidth(w)) => Some(
            InputConfig::Picture { path: path.clone(), width: *w, height: *height },
        ),
        (InputConfig::Picture { path, width, .. }, InputUpdate::SetHeight(h)) => Some(
            InputConfig::Picture { path: path.clone(), width: *width, height: *h },
        ),
        (InputConfig::Midi { .. }, InputUpdate::SetPath(p)) => Some(
            InputConfig::Midi { pattern: p.clone() },
        ),
        _ => None,
    }
}

/// The `k`-th name for inputs of kind `kind`.
fn numbered_input_name(kind: InputKind, k: u128) -> (r: String)
    ensures
        r@ == numbered_name(kind, k as nat),
{
    let mut name = String::from_str(kind_label_text(kind));
    name.append(" #");
    push_decimal(&mut name, k);
    name
}

fn kind_label_text(kind: InputKind) -> (r: &'static str)
    ensures
        r@ == kind_label(kind),
{
    match kind {
        InputKind::Cam => "Camera",
        InputKind::Video => "Video",
        InputKind::Picture => "Picture",
        InputKind::Midi => "Midi",
    }
}

/// Tells whether no two inputs share a name.
pub fn inputs_distinct(inputs: &Vec<NamedInput>) -> (r: bool)
    ensures
        r == input_names_distinct(inputs@),
{
    let mut i: usize = 0;
    while i < inputs.len()
        invariant
            i <= inputs.len(),
            forall|a: int, b: int|
                0 <= a < i && a < b < inputs.len() ==> (#[trigger] inputs@[a]).name@
                    != (#[trigger] inputs@[b]).name@,
        decreases inputs.len() - i,
    {
        let mut j: usize = i + 1;
        while j < inputs.len()
            invariant
                i < inputs.len(),
                i < j <= inputs.len(),
                forall|a: int, b: int|
                    0 <= a < i && a < b < inputs.len() ==> (#[trigger] inputs@[a]).name@
                        != (#[trigger] inputs@[b]).name@,
                forall|b: int| i < b < j ==> inputs@[i as int].name@ != (#[trigger] inputs@[b]).name@,
            decreases inputs.len() - j,
        {
            if inputs[i].name == inputs[j].name {
                return false;
            }
            j = j + 1;
        }
        i = i + 1;
    }
    true
}

impl Project {
    /// Position of the input named `name`.
    pub fn input_index(&self, name: &String) -> (r: Option<usize>)
        requires
            self.wf(),
        ensures
            r matches Some(i) ==> find_named(self.spec_config().inputs@, name@) == Some(i as int),
            r is None ==> find_named(self.spec_config().inputs@, name@) is None,
    {
        let inputs = &self.config.inputs;
        let mut i: usize = 0;
        while i < inputs.len()
            invariant
                self.wf(),
                inputs == self.config.inputs,
                i <= inputs.len(),
                forall|j: int| 0 <= j < i ==> (#[trigger] inputs@[j]).name@ != name@,
            decreases inputs.len() - i,
        {
            if inputs[i].name == *name {
                proof {
                    assert(inputs@[i as int].name@ == name@);
                    let j = choose|j: int| 0 <= j < inputs@.len() && (#[trigger] inputs@[j]).name@ == name@;
                    if j < i {
                        assert(inputs@[j].name@ != name@);
                    } else if j > i {
                        assert(inputs@[i as int].name@ != inputs@[j].name@);
                    }
                }
                return Some(i);
            }
            i = i + 1;
        }
        None
    }

    /// How many inputs are of kind `kind`.
    fn count_of_kind(&self, kind: InputKind) -> (r: usize)
        ensures
            r == kind_count(self.spec_config().inputs@, kind),
    {
        let inputs = &self.config.inputs;
        let mut count: usize = 0;
        let mut i: usize = 0;
        while i < inputs.len()
            invariant
                inputs == self.config.inputs,
                i <= inputs.len(),
                count <= i,
                count == kind_count(inputs@.take(i as int), kind),
            decreases inputs.len() - i,
        {
            assert(inputs@.take(i + 1).drop_last() =~= inputs@.take(i as int));
            if inputs[i].config.kind() == kind {
                count = count + 1;
            }
            i = i + 1;
        }
        assert(inputs@.take(i as int) =~= inputs@);
        count
    }

    /// The name that a new input of kind `kind` gets when it is free.
    pub fn conventional_input_name(&self, kind: InputKind) -> (r: String)
        ensures
            r@ == conventional_name(self.spec_config().inputs@, kind),
    {
        let count = self.count_of_kind(kind);
        numbered_input_name(kind, count as u128 + 1)
    }

    /// Adds an input, queues it and repairs the references, since its name
    /// joins the namespace. The name is the first `"<Kind> #k"` not taken in
    /// the namespace, counting from one more than the number of inputs of
    /// that kind; so it is the conventional name whenever that one is free.
    pub fn add_input(&mut self, config: InputConfig) -> (r: String)
        requires
            old(self).wf(),
        ensures
            final(self).wf(),
            final(self).spec_ids() == old(self).spec_ids(),
            ({
                let kind = config.spec_kind();
                let first = kind_count(old(self).spec_config().inputs@, kind) + 1;
                let taken = namespace(old(self).spec_config());
                &&& !taken.contains(r@)
                &&& exists|k: nat|
                    k >= first && r@ == numbered_name(kind, k) && forall|j: nat|
                        first <= j < k ==> taken.contains(#[trigger] numbered_name(kind, j))
                &&& !taken.contains(conventional_name(old(self).spec_config().inputs@, kind))
                    ==> r@ == conventional_name(old(self).spec_config().inputs@, kind)
                &&& final(self).spec_config().inputs@ == old(self).spec_config().inputs@.push(
                    NamedInput { name: r, config },
                )
                &&& same_settings(final(self).spec_config(), old(self).spec_config())
                &&& chain_relinked(
                    old(self).chain(),
                    final(self).chain(),
                    choice_seq(final(self).spec_config()),
                    Seq::empty(),
                    Seq::empty(),
                )
                &&& stage_relinked(
                    old(self).spec_config().final_stage,
                    final(self).spec_config().final_stage,
                    choice_seq(final(self).spec_config()),
                    Seq::empty(),
                    Seq::empty(),
                )
                &&& final(self).spec_outbox() == old(self).spec_outbox().push(
                    Message::AddInput(r, config),
                ) + repair_orders(
                    old(self).chain(),
                    final(self).chain(),
                    old(self).spec_config().final_stage,
                    final(self).spec_config().final_stage,
                )
            }),
    {
        let kind = config.kind();
        let count = self.count_of_kind(kind);
        let c = choices(&self.config);
        let ghost first = count as nat + 1;
        let ghost taken = views(c@).to_set();
        let ghost mut tried: Set<Seq<char>> = Set::empty();
        proof {
            views(c@).lemma_cardinality_of_set();
        }
        let mut k: u128 = count as u128 + 1;
        let mut name = numbered_input_name(kind, k);
        let ghost bound = c.len();
        while contains_name(&c, &name)
            invariant
                bound == c@.len(),
                bound <= usize::MAX,
                taken == views(c@).to_set(),
                taken.finite(),
                taken.len() <= c@.len(),
                name@ == numbered_name(kind, k as nat),
                k as nat == first + tried.len(),
                count as nat + 1 == first,
                tried.finite(),
                tried.subset_of(taken),
                forall|x: Seq<char>|
                    tried.contains(x) ==> exists|j: nat|
                        first <= j < k && x == #[trigger] numbered_name(kind, j),
                forall|j: nat| first <= j < k ==> taken.contains(#[trigger] numbered_name(kind, j)),
            decreases taken.len() - tried.len(),
        {
            proof {
                assert(taken.contains(name@));
                if tried.contains(name@) {
                    let j = choose|j: nat| first <= j < k && name@ == numbered_name(kind, j);
                    lemma_numbered_name_injective(kind, j, k as nat);
                }
                let grown = tried.insert(name@);
                assert(grown.subset_of(taken));
                vstd::set_lib::lemma_len_subset(grown, taken);
                assert(grown.len() == tried.len() + 1);
                assert forall|x: Seq<char>| grown.contains(x) implies exists|j: nat|
                    first <= j < k + 1 && x == #[trigger] numbered_name(kind, j) by {
                    if x == name@ {
                        assert(x == numbered_name(kind, k as nat));
                    } else {
                        let j = choose|j: nat| first <= j < k && x == numbered_name(kind, j);
                        assert(x == numbered_name(kind, j));
                    }
                }
                tried = grown;
                assert(k as nat <= usize::MAX + 1 + usize::MAX);
            }
            k = k + 1;
            name = numbered_input_name(kind, k);
        }
        proof {
            assert(!taken.contains(name@));
            if !namespace(self.config).contains(conventional_name(self.config.inputs@, kind)) {
                if k as nat > first {
                    assert(taken.contains(numbered_name(kind, first)));
                }
            }
        }
        let ghost old_inputs = self.config.inputs@;
        self.outbox.push(Message::AddInput(name.clone(), config.clone()));
        self.config.inputs.push(NamedInput { name: name.clone(), config });
        assert forall|a: int, b: int|
            0 <= a < b < self.config.inputs@.len() implies (#[trigger] self.config.inputs@[a]).name@
            != (#[trigger] self.config.inputs@[b]).name@ by {
            if b == old_inputs.len() {
                assert(old_inputs[a] == self.config.inputs@[a]);
                assert(crate::namespace::input_names(old_inputs)[a] == old_inputs[a].name@);
                assert(crate::namespace::input_names(old_inputs).contains(old_inputs[a].name@));
                assert(namespace(old(self).config).contains(old_inputs[a].name@));
                assert(views(c@).to_set().contains(old_inputs[a].name@));
            }
        }
        let none = String::new();
        self.relink_all(&none, &none);
        name
    }

    /// Deletes the input `name`, queues its removal and repairs the
    /// references that named it. An unknown name changes nothing.
    pub fn remove_input(&mut self, name: &String)
        requires
            old(self).wf(),
        ensures
            final(self).wf(),
            final(self).spec_ids() == old(self).spec_ids(),
            find_named(old(self).spec_config().inputs@, name@) is None ==> *final(self) == *old(self),
            find_named(old(self).spec_config().inputs@, name@) matches Some(i) ==> {
                &&& final(self).spec_config().inputs@ == old(self).spec_config().inputs@.remove(i)
                &&& same_settings(final(self).spec_config(), old(self).spec_config())
                &&& chain_relinked(
                    old(self).chain(),
                    final(self).chain(),
                    choice_seq(final(self).spec_config()),
                    Seq::empty(),
                    Seq::empty(),
                )
                &&& stage_relinked(
                    old(self).spec_config().final_stage,
                    final(self).spec_config().final_stage,
                    choice_seq(final(self).spec_config()),
                    Seq::empty(),
                    Seq::empty(),
                )
                &&& final(self).spec_outbox() == old(self).spec_outbox().push(
                    Message::RemoveInput(*name),
                ) + repair_orders(
                    old(self).chain(),
                    final(self).chain(),
                    old(self).spec_config().final_stage,
                    final(self).spec_config().final_stage,
                )
            },
    {
        if let Some(i) = self.input_index(name) {
            let ghost old_inputs = self.config.inputs@;
            self.config.inputs.remove(i);
            assert forall|a: int, b: int|
                0 <= a < b < self.config.inputs@.len() implies (#[trigger] self.config.inputs@[a]).name@
                != (#[trigger] self.config.inputs@[b]).name@ by {
                let oa = if a < i { a } else { a + 1 };
                let ob = if b < i { b } else { b + 1 };
                assert(self.config.inputs@[a] == old_inputs[oa]);
                assert(self.config.inputs@[b] == old_inputs[ob]);
            }
            self.outbox.push(Message::RemoveInput(name.clone()));
            let none = String::new();
                self.relink_all(&none, &none);
        }
    }

    /// Renames the input `old_name`. Fails with `NameCollision`, changing
    /// nothing, if another source already has the new name. Otherwise queues
    /// the rename and relinks every reference: those that named the input
    /// follow it. An unknown input, or its own name, changes nothing.
    pub fn rename_input(&mut self, old_name: &String, new_name: String) -> (r: Result<(), EditError>)
        requires
            old(self).wf(),
        ensures
            final(self).wf(),
            final(self).spec_ids() == old(self).spec_ids(),
            find_named(old(self).spec_config().inputs@, old_name@) is None ==> r is Ok && *final(self) == *old(self),
            find_named(old(self).spec_config().inputs@, old_name@) matches Some(i) ==> {
                &&& r is Err <==> (new_name@ != old_name@ && namespace(old(self).spec_config()).contains(new_name@))
                &&& r is Err ==> r == Err::<(), EditError>(EditError::NameCollision) && *final(self) == *old(self)
                &&& (r is Ok && new_name@ == old_name@) ==> *final(self) == *old(self)
                &&& (r is Ok && new_name@ != old_name@) ==> {
                    &&& final(self).spec_config().inputs@ == old(self).spec_config().inputs@.update(
                        i,
                        NamedInput { name: new_name, ..old(self).spec_config().inputs@[i] },
                    )
                    &&& same_settings(final(self).spec_config(), old(self).spec_config())
                    &&& chain_relinked(
                        old(self).chain(),
                        final(self).chain(),
                        choice_seq(final(self).spec_config()),
                        old_name@,
                        new_name@,
                    )
                    &&& stage_relinked(
                        old(self).spec_config().final_stage,
                        final(self).spec_config().final_stage,
                        choice_seq(final(self).spec_config()),
                        old_name@,
                        new_name@,
                    )
                    &&& final(self).spec_outbox() == old(self).spec_outbox().push(
                        Message::RenameInput(*old_name, new_name),
                    ) + repair_orders(
                        old(self).chain(),
                        final(self).chain(),
                        old(self).spec_config().final_stage,
                        final(self).spec_config().final_stage,
                    )
                    &&& renamed_references_follow(*old(self), *final(self), old_name@, new_name@)
                }
            },
    {
        let i = match self.input_index(old_name) {
            Some(i) => i,
            None => {
                return Ok(());
            },
        };
        if new_name == *old_name {
            return Ok(());
        }
        let c = choices(&self.config);
        if contains_name(&c, &new_name) {
            return Err(EditError::NameCollision);
        }
        let ghost old_inputs = self.config.inputs@;
        let entry = NamedInput { name: new_name.clone(), config: self.config.inputs[i].config.clone() };
        self.config.inputs.set(i, entry);
        assert forall|a: int, b: int|
            0 <= a < b < self.config.inputs@.len() implies (#[trigger] self.config.inputs@[a]).name@
            != (#[trigger] self.config.inputs@[b]).name@ by {
            if a == i {
                assert(crate::namespace::input_names(old_inputs)[b] == old_inputs[b].name@);
                assert(crate::namespace::input_names(old_inputs).contains(old_inputs[b].name@));
                assert(namespace(old(self).config).contains(old_inputs[b].name@));
                assert(views(c@).to_set().contains(old_inputs[b].name@));
            } else if b == i {
                assert(crate::namespace::input_names(old_inputs)[a] == old_inputs[a].name@);
                assert(crate::namespace::input_names(old_inputs).contains(old_inputs[a].name@));
                assert(namespace(old(self).config).contains(old_inputs[a].name@));
                assert(views(c@).to_set().contains(old_inputs[a].name@));
            } else {
                assert(self.config.inputs@[a] == old_inputs[a]);
                assert(self.config.inputs@[b] == old_inputs[b]);
            }
        }
        self.outbox.push(Message::RenameInput(old_name.clone(), new_name.clone()));
        assert(input_names(self.config.inputs@)[i as int] == new_name@);
        assert(namespace(self.config).contains(new_name@));
        let ghost before = *self;
        self.relink_all(old_name, &new_name);
        proof {
            Self::lemma_relink_follows(before, *self, old_name@, new_name@);
        }
        Ok(())
    }

    /// Sets one field of the input `name` and queues it. An unknown input,
    /// or a field that its kind does not have, changes nothing.
    pub fn update_input(&mut self, name: &String, update: InputUpdate)
        requires
            old(self).wf(),
        ensures
            final(self).wf(),
            final(self).spec_ids() == old(self).spec_ids(),
            final(self).chain() == old(self).chain(),
            final(self).spec_config().final_stage == old(self).spec_config().final_stage,
            same_settings(final(self).spec_config(), old(self).spec_config()),
            match find_named(old(self).spec_config().inputs@, name@) {
                None => *final(self) == *old(self),
                Some(i) => match apply_update(old(self).spec_config().inputs@[i].config, update) {
                    None => *final(self) == *old(self),
                    Some(cfg) => {
                        &&& final(self).spec_config().inputs@ == old(self).spec_config().inputs@.update(
                            i,
                            NamedInput { config: cfg, ..old(self).spec_config().inputs@[i] },
                        )
                        &&& final(self).spec_outbox() == old(self).spec_outbox().push(
                            Message::UpdateInput(*name, update),
                        )
                    },
                },
            },
    {
        let i = match self.input_index(name) {
            Some(i) => i,
            None => {
                return ;
            },
        };
        let cfg = match updated_input(&self.config.inputs[i].config, &update) {
            Some(cfg) => cfg,
            None => {
                return ;
            },
        };
        let ghost old_inputs = self.config.inputs@;
        let entry = NamedInput { name: self.config.inputs[i].name.clone(), config: cfg };
        self.config.inputs.set(i, entry);
        assert forall|a: int, b: int|
            0 <= a < b < self.config.inputs@.len() implies (#[trigger] self.config.inputs@[a]).name@
            != (#[trigger] self.config.inputs@[b]).name@ by {
            assert(self.config.inputs@[a].name@ == old_inputs[a].name@);
            assert(self.config.inputs@[b].name@ == old_inputs[b].name@);
        }
        self.outbox.push(Message::UpdateInput(name.clone(), update));
    }
}

} // verus!
