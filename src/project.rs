//! The project façade: one configuration, the stable ids of its stages and
//! the queue of orders that bring the render process up to date.
use vstd::prelude::*;

use crate::catalog::{resolved_index, FilterCatalog};
use crate::inputs::{input_names_distinct, inputs_distinct};
use crate::model::{
    clone_inputs, clone_variables, stage_keyed, Automation, DataHolder, FilterMode, InputSlot, Precision,
    ProjectConfig, RenderStageConfig, SampledInput, VariableSlot, ViewConfig,
};
use crate::namespace::{
    chain_relinked, choice_seq, choices, contains_name, lemma_rename_propagates,
    lemma_reorder_keeps_namespace, namespace, relink_stage, stage_names, stage_relinked, views,
};
use crate::stage::{
    find_input, find_variable, input_position, inputs_reconciled, reconcile_inputs,
    reconcile_variables, variable_position, variables_reconciled,
};
use crate::text::{decimal, push_decimal};
use crate::wire::{Message, StageUpdate};

verus! {

/// A failure that an edit reports to its caller; the project is unchanged.
#[derive(Clone, Copy, Debug, PartialEq, Eq, Structural)]
pub enum EditError {
    /// The name is already taken in the namespace.
    NameCollision,
    /// The automation does not have one oscillator per component of the value.
    AutomationArityMismatch,
    /// The random id drawn for a new stage is already in use; drawing again
    /// will almost surely succeed.
    IdTaken,
}

/// Relies on uuid::Uuid::new_v4 and Uuid::as_u128: a random version-4 id,
/// of which nothing is promised. It fails only if the system's random source
/// does.
#[verifier::external_body]
fn random_id() -> (r: u128) {
    uuid::Uuid::new_v4().as_u128()
}

/// Whether every stage of `chain` is keyed by distinct names.
pub open spec fn chain_keyed(chain: Seq<RenderStageConfig>) -> bool {
    forall|k: int| 0 <= k < chain.len() ==> stage_keyed(#[trigger] chain[k])
}

/// Tells whether every stage of `chain` is keyed by distinct names.
pub fn all_keyed(chain: &Vec<RenderStageConfig>) -> (r: bool)
    ensures
        r == chain_keyed(chain@),
{
    let mut k: usize = 0;
    while k < chain.len()
        invariant
            k <= chain.len(),
            forall|i: int| 0 <= i < k ==> stage_keyed(#[trigger] chain@[i]),
        decreases chain.len() - k,
    {
        if !chain[k].is_keyed() {
            return false;
        }
        k = k + 1;
    }
    true
}

/// Whether no two ids are equal.
pub open spec fn ids_distinct(ids: Seq<u128>) -> bool {
    forall|i: int, j: int| 0 <= i < j < ids.len() ==> #[trigger] ids[i] != #[trigger] ids[j]
}

/// `s` with the element at `from` taken out and put back at `to`.
pub open spec fn moved<T>(s: Seq<T>, from: int, to: int) -> Seq<T> {
    s.remove(from).insert(to, s[from])
}

/// Whether two configurations have the same settings (tempo, view, server).
pub open spec fn same_settings(a: ProjectConfig, b: ProjectConfig) -> bool {
    &&& a.bpm == b.bpm
    &&& a.view == b.view
    &&& a.server == b.server
}

/// The name a new reference gets by default: the first choice of the
/// namespace, or none (empty) when the namespace is empty.
pub open spec fn default_source(c: ProjectConfig) -> Seq<char> {
    if choice_seq(c).len() > 0 {
        choice_seq(c)[0]
    } else {
        Seq::empty()
    }
}

/// One order per input of stage `k`, giving its source.
pub open spec fn input_orders(k: usize, slots: Seq<InputSlot>) -> Seq<Message> {
    Seq::new(
        slots.len(),
        |j: int| Message::UpdateRenderStage(k, StageUpdate::Input(slots[j].uniform, slots[j].source)),
    )
}

/// One order per variable of stage `k`, giving its value.
pub open spec fn variable_orders(k: usize, slots: Seq<VariableSlot>) -> Seq<Message> {
    Seq::new(
        slots.len(),
        |j: int| Message::UpdateRenderStage(k, StageUpdate::Variable(slots[j].name, slots[j].value)),
    )
}


/// Every reference of `b`, in the chain and in the final stage, that named
/// `from` in `a` names `to`.
pub open spec fn renamed_references_follow(a: Project, b: Project, from: Seq<char>, to: Seq<char>) -> bool {
    &&& forall|k: int, j: int|
        0 <= k < a.chain().len() && 0 <= j < a.chain()[k].inputs@.len()
            && (#[trigger] a.chain()[k].inputs@[j]).source.source() == from
            ==> b.chain()[k].inputs@[j].source.source() == to
    &&& forall|j: int|
        0 <= j < a.spec_config().final_stage.inputs@.len()
            && (#[trigger] a.spec_config().final_stage.inputs@[j]).source.source() == from
            ==> b.spec_config().final_stage.inputs@[j].source.source() == to
}

/// The order that gives the source of `slot`, for stage `target` or, with
/// none, for the final stage.
pub open spec fn input_order(target: Option<usize>, slot: InputSlot) -> Message {
    match target {
        Some(k) => Message::UpdateRenderStage(k, StageUpdate::Input(slot.uniform, slot.source)),
        None => Message::UpdateFinalStage(StageUpdate::Input(slot.uniform, slot.source)),
    }
}

/// The orders for those of the first `n` inputs whose source name differs
/// between `before` and `after`, in order.
pub open spec fn change_orders(
    target: Option<usize>,
    before: Seq<InputSlot>,
    after: Seq<InputSlot>,
    n: int,
) -> Seq<Message>
    decreases n,
{
    if n <= 0 {
        Seq::empty()
    } else {
        let prev = change_orders(target, before, after, n - 1);
        if before[n - 1].source.source() != after[n - 1].source.source() {
            prev.push(input_order(target, after[n - 1]))
        } else {
            prev
        }
    }
}

/// The orders for the changed inputs of the first `n` stages, stage by stage.
pub open spec fn chain_orders(
    before: Seq<RenderStageConfig>,
    after: Seq<RenderStageConfig>,
    n: int,
) -> Seq<Message>
    decreases n,
{
    if n <= 0 {
        Seq::empty()
    } else {
        chain_orders(before, after, n - 1) + change_orders(
            Some((n - 1) as usize),
            before[n - 1].inputs@,
            after[n - 1].inputs@,
            after[n - 1].inputs@.len() as int,
        )
    }
}

/// The orders that a repair of the references queues: the changed inputs of
/// each stage of the chain in turn, then those of the final stage.
pub open spec fn repair_orders(
    before: Seq<RenderStageConfig>,
    after: Seq<RenderStageConfig>,
    final_before: RenderStageConfig,
    final_after: RenderStageConfig,
) -> Seq<Message> {
    chain_orders(before, after, after.len() as int) + change_orders(
        None,
        final_before.inputs@,
        final_after.inputs@,
        final_after.inputs@.len() as int,
    )
}

pub proof fn lemma_chain_orders_prefix(
    before: Seq<RenderStageConfig>,
    a: Seq<RenderStageConfig>,
    b: Seq<RenderStageConfig>,
    n: int,
)
    requires
        n <= a.len(),
        n <= b.len(),
        forall|i: int| 0 <= i < n ==> (#[trigger] a[i]).inputs@ == b[i].inputs@,
    ensures
        chain_orders(before, a, n) == chain_orders(before, b, n),
    decreases n,
{
    if n > 0 {
        lemma_chain_orders_prefix(before, a, b, n - 1);
        assert(a[n - 1].inputs@ == b[n - 1].inputs@);
    }
}

pub proof fn lemma_chain_orders_same_inputs(
    a: Seq<RenderStageConfig>,
    b: Seq<RenderStageConfig>,
    after: Seq<RenderStageConfig>,
    n: int,
)
    requires
        n <= a.len(),
        n <= b.len(),
        forall|i: int| 0 <= i < n ==> (#[trigger] a[i]).inputs@ == b[i].inputs@,
    ensures
        chain_orders(a, after, n) == chain_orders(b, after, n),
    decreases n,
{
    if n > 0 {
        lemma_chain_orders_same_inputs(a, b, after, n - 1);
        assert(a[n - 1].inputs@ == b[n - 1].inputs@);
    }
}

/// A project being edited.
pub struct Project {
    pub(crate) config: ProjectConfig,
    pub(crate) stage_ids: Vec<u128>,
    pub(crate) outbox: Vec<Message>,
}

impl Project {
    /// The configuration.
    pub open(crate) spec fn spec_config(&self) -> ProjectConfig {
        self.config
    }

    /// The id of each stage, in the order of the render chain.
    pub open(crate) spec fn spec_ids(&self) -> Seq<u128> {
        self.stage_ids@
    }

    /// The orders not yet taken out.
    pub open(crate) spec fn spec_outbox(&self) -> Seq<Message> {
        self.outbox@
    }

    /// One id per stage, no two alike.
    pub open spec fn wf(&self) -> bool {
        &&& self.spec_ids().len() == self.spec_config().render_chain@.len()
        &&& ids_distinct(self.spec_ids())
        &&& input_names_distinct(self.spec_config().inputs@)
        &&& chain_keyed(self.chain())
        &&& stage_keyed(self.spec_config().final_stage)
    }

    /// The chain of stages.
    pub open spec fn chain(&self) -> Seq<RenderStageConfig> {
        self.spec_config().render_chain@
    }

    /// Position of the stage `id`, if there is one.
    pub open spec fn index_of(&self, id: u128) -> Option<int> {
        if exists|k: int| 0 <= k < self.spec_ids().len() && self.spec_ids()[k] == id {
            Some(choose|k: int| 0 <= k < self.spec_ids().len() && self.spec_ids()[k] == id)
        } else {
            None
        }
    }

    /// Starts editing `config` with `ids[k]` as the id of stage `k`. None
    /// unless there is one id per stage, no two alike, no two inputs share a
    /// name, and no stage has two inputs or two variables of one name.
    pub fn with_ids(config: ProjectConfig, ids: Vec<u128>) -> (r: Option<Project>)
        ensures
            r is Some <==> (ids@.len() == config.render_chain@.len() && ids_distinct(ids@)
                && input_names_distinct(config.inputs@) && chain_keyed(config.render_chain@)
                && stage_keyed(config.final_stage)),
            r matches Some(p) ==> {
                &&& p.spec_config() == config
                &&& p.spec_ids() == ids@
                &&& p.spec_outbox().len() == 0
                &&& p.wf()
            },
    {
        if ids.len() != config.render_chain.len() || !inputs_distinct(&config.inputs)
            || !all_keyed(&config.render_chain) || !config.final_stage.is_keyed() {
            return None;
        }
        let mut i: usize = 0;
        while i < ids.len()
            invariant
                i <= ids.len(),
                forall|a: int, b: int| 0 <= a < i && a < b < ids@.len() ==> ids@[a] != ids@[b],
            decreases ids.len() - i,
        {
            let mut j: usize = i + 1;
            while j < ids.len()
                invariant
                    i < ids.len(),
                    i < j <= ids.len(),
                    forall|a: int, b: int| 0 <= a < i && a < b < ids@.len() ==> ids@[a] != ids@[b],
                    forall|b: int| i < b < j ==> ids@[i as int] != ids@[b],
                decreases ids.len() - j,
            {
                if ids[i] == ids[j] {
                    return None;
                }
                j = j + 1;
            }
            i = i + 1;
        }
        Some(Project { config, stage_ids: ids, outbox: Vec::new() })
    }

    /// Starts editing `config`, giving each stage a random id; see
    /// `with_ids`. Also none in the unlikely case that two draws coincide.
    pub fn new(config: ProjectConfig) -> (r: Option<Project>)
        ensures
            !input_names_distinct(config.inputs@) ==> r is None,
            input_names_distinct(config.inputs@) && chain_keyed(config.render_chain@) && stage_keyed(
                config.final_stage,
            ) && config.render_chain@.len() <= 1 ==> r is Some,
            r matches Some(p) ==> {
                &&& p.wf()
                &&& p.spec_config() == config
                &&& p.spec_outbox().len() == 0
            },
    {
        let mut ids: Vec<u128> = Vec::new();
        let mut i: usize = 0;
        while i < config.render_chain.len()
            invariant
                i <= config.render_chain.len(),
                ids@.len() == i,
            decreases config.render_chain.len() - i,
        {
            ids.push(random_id());
            i = i + 1;
        }
        Project::with_ids(config, ids)
    }

    /// The configuration.
    pub fn config(&self) -> (r: &ProjectConfig)
        ensures
            *r == self.spec_config(),
    {
        &self.config
    }

    /// The stage ids, in the order of the render chain.
    pub fn stage_ids(&self) -> (r: &Vec<u128>)
        ensures
            r@ == self.spec_ids(),
    {
        &self.stage_ids
    }

    /// Hands out the queued orders, oldest first, and empties the queue.
    pub fn take_messages(&mut self) -> (r: Vec<Message>)
        ensures
            r@ == old(self).spec_outbox(),
            final(self).spec_outbox().len() == 0,
            final(self).spec_config() == old(self).spec_config(),
            final(self).spec_ids() == old(self).spec_ids(),
    {
        let mut r: Vec<Message> = Vec::new();
        std::mem::swap(&mut r, &mut self.outbox);
        r
    }

    /// Queues an order for each input whose source name differs between
    /// `before` and `after`, addressed to stage `index` or, without one, to
    /// the final stage.
    fn queue_input_changes(
        &mut self,
        index: Option<usize>,
        before: &Vec<InputSlot>,
        after: &Vec<InputSlot>,
    )
        requires
            before@.len() == after@.len(),
        ensures
            final(self).spec_config() == old(self).spec_config(),
            final(self).spec_ids() == old(self).spec_ids(),
            final(self).spec_outbox() == old(self).spec_outbox() + change_orders(
                index,
                before@,
                after@,
                after@.len() as int,
            ),
    {
        let mut j: usize = 0;
        while j < after.len()
            invariant
                before@.len() == after@.len(),
                j <= after@.len(),
                self.config == old(self).config,
                self.stage_ids == old(self).stage_ids,
                self.outbox@ == old(self).outbox@ + change_orders(index, before@, after@, j as int),
            decreases after.len() - j,
        {
            if *before[j].source.name() != *after[j].source.name() {
                let update = StageUpdate::Input(after[j].uniform.clone(), after[j].source.clone());
                match index {
                    Some(k) => self.outbox.push(Message::UpdateRenderStage(k, update)),
                    None => self.outbox.push(Message::UpdateFinalStage(update)),
                }
            }
            j = j + 1;
            assert(self.outbox@ =~= old(self).outbox@ + change_orders(index, before@, after@, j as int));
        }
    }

    /// Points every reference of the chain and of the final stage into the
    /// current namespace, a reference to `from` following it to `to`, and
    /// queues an order for each reference that changed.
    pub(crate) fn relink_all(&mut self, from: &String, to: &String)
        requires
            old(self).wf(),
        ensures
            final(self).wf(),
            final(self).spec_ids() == old(self).spec_ids(),
            final(self).spec_config().inputs@ == old(self).spec_config().inputs@,
            same_settings(final(self).spec_config(), old(self).spec_config()),
            namespace(final(self).spec_config()) == namespace(old(self).spec_config()),
            choice_seq(old(self).spec_config()).to_set() == namespace(old(self).spec_config()),
            chain_relinked(
                old(self).chain(),
                final(self).chain(),
                choice_seq(old(self).spec_config()),
                from@,
                to@,
            ),
            final(self).spec_config().final_stage.name == old(self).spec_config().final_stage.name,
            stage_relinked(
                old(self).spec_config().final_stage,
                final(self).spec_config().final_stage,
                choice_seq(old(self).spec_config()),
                from@,
                to@,
            ),
            final(self).spec_outbox() == old(self).spec_outbox() + repair_orders(
                old(self).chain(),
                final(self).chain(),
                old(self).spec_config().final_stage,
                final(self).spec_config().final_stage,
            ),
    {
        let c = choices(&self.config);
        let ghost old_self = *self;
        let ghost old_chain = self.config.render_chain@;
        let mut k: usize = 0;
        while k < self.config.render_chain.len()
            invariant
                old_chain == old_self.config.render_chain@,
                views(c@) == choice_seq(old_self.config),
                self.config.render_chain@.len() == old_chain.len(),
                k <= old_chain.len(),
                forall|i: int| k <= i < old_chain.len() ==> self.config.render_chain@[i] == old_chain[i],
                chain_relinked(
                    old_chain.take(k as int),
                    self.config.render_chain@.take(k as int),
                    views(c@),
                    from@,
                    to@,
                ),
                self.stage_ids@ == old_self.stage_ids@,
                self.config.inputs == old_self.config.inputs,
                self.config.final_stage == old_self.config.final_stage,
                same_settings(self.config, old_self.config),
                self.outbox@ == old_self.outbox@ + chain_orders(
                    old_chain,
                    self.config.render_chain@,
                    k as int,
                ),
            decreases old_chain.len() - k,
        {
            let stage = relink_stage(&self.config.render_chain[k], &c, from, to);
            let before = crate::model::clone_inputs(&self.config.render_chain[k].inputs);
            self.queue_input_changes(Some(k), &before, &stage.inputs);
            let ghost prev = self.config.render_chain@;
            self.config.render_chain.set(k, stage);
            proof {
                lemma_chain_orders_prefix(old_chain, prev, self.config.render_chain@, k as int);
                assert(self.outbox@ =~= old_self.outbox@ + chain_orders(
                    old_chain,
                    self.config.render_chain@,
                    k + 1,
                ));
                let n = self.config.render_chain@;
                assert(n.take(k + 1).len() == k + 1);
                assert forall|i: int| 0 <= i < k + 1 implies {
                    &&& (#[trigger] n.take(k + 1)[i]).name == old_chain.take(k + 1)[i].name
                    &&& stage_relinked(
                        old_chain.take(k + 1)[i],
                        n.take(k + 1)[i],
                        views(c@),
                        from@,
                        to@,
                    )
                } by {
                    if i < k {
                        assert(n[i] == prev[i]);
                        assert(prev.take(k as int)[i] == prev[i]);
                        assert(old_chain.take(k as int)[i] == old_chain[i]);
                    }
                }
            }
            k = k + 1;
        }
        assert(old_chain.take(k as int) =~= old_chain);
        assert(self.config.render_chain@.take(k as int) =~= self.config.render_chain@);
        let final_stage = relink_stage(&self.config.final_stage, &c, from, to);
        let before = crate::model::clone_inputs(&self.config.final_stage.inputs);
        self.queue_input_changes(None, &before, &final_stage.inputs);
        self.config.final_stage = final_stage;
        assert(self.outbox@ =~= old_self.outbox@ + repair_orders(
            old_chain,
            self.config.render_chain@,
            old_self.config.final_stage,
            self.config.final_stage,
        ));
        assert(stage_names(self.config.render_chain@) =~= stage_names(old_chain));
    }

    /// `after` is this project with `template` appended under `id`, its
    /// addition queued and the references repaired.
    pub open spec fn stage_added(&self, after: Project, template: RenderStageConfig, id: u128) -> bool {
        let n = self.spec_outbox().len() as int;
        &&& !self.spec_ids().contains(id)
        &&& after.spec_ids() == self.spec_ids().push(id)
        &&& after.spec_config().inputs@ == self.spec_config().inputs@
        &&& same_settings(after.spec_config(), self.spec_config())
        &&& chain_relinked(
            self.chain().push(template),
            after.chain(),
            choice_seq(after.spec_config()),
            Seq::empty(),
            Seq::empty(),
        )
        &&& stage_relinked(
            self.spec_config().final_stage,
            after.spec_config().final_stage,
            choice_seq(after.spec_config()),
            Seq::empty(),
            Seq::empty(),
        )
        &&& after.spec_outbox().len() > n
        &&& after.spec_outbox().take(n) == self.spec_outbox()
        &&& after.spec_outbox()[n] matches Message::AddRenderStage(s) && s.same_as(&template)
        &&& after.spec_outbox().skip(n + 1) == repair_orders(
            self.chain().push(template),
            after.chain(),
            self.spec_config().final_stage,
            after.spec_config().final_stage,
        )
    }

    /// Appends a stage under the id `id`, queues its addition and repairs the
    /// references, since the stage's name joins the namespace. Fails with
    /// `NameCollision` if a source already has the stage's name, otherwise
    /// with `IdTaken` if a stage already has the id; a failure changes
    /// nothing.
    pub fn add_stage_with_id(&mut self, template: RenderStageConfig, id: u128) -> (r: Result<
        (),
        EditError,
    >)
        requires
            old(self).wf(),
            stage_keyed(template),
        ensures
            final(self).wf(),
            r is Err ==> *final(self) == *old(self),
            r == Err::<(), EditError>(EditError::NameCollision) <==> namespace(
                old(self).spec_config(),
            ).contains(template.name@),
            r == Err::<(), EditError>(EditError::IdTaken) <==> !namespace(
                old(self).spec_config(),
            ).contains(template.name@) && old(self).spec_ids().contains(id),
            r is Err ==> r == Err::<(), EditError>(EditError::NameCollision) || r == Err::<
                (),
                EditError,
            >(EditError::IdTaken),
            r is Ok ==> old(self).stage_added(*final(self), template, id),
    {
        let c = choices(&self.config);
        if contains_name(&c, &template.name) {
            assert(views(c@).to_set().contains(template.name@));
            return Err(EditError::NameCollision);
        }
        assert(!namespace(self.config).contains(template.name@));
        if let Some(k) = self.stage_index(id) {
            assert(self.spec_ids()[k as int] == id);
            return Err(EditError::IdTaken);
        }
        assert(!self.spec_ids().contains(id));
        let ghost old_ids = self.stage_ids@;
        self.outbox.push(Message::AddRenderStage(template.clone()));
        self.config.render_chain.push(template);
        self.stage_ids.push(id);
        assert forall|a: int, b: int|
            0 <= a < b < self.stage_ids@.len() implies #[trigger] self.stage_ids@[a]
            != #[trigger] self.stage_ids@[b] by {
            if b == old_ids.len() {
                assert(old_ids[a] == self.stage_ids@[a]);
            }
        }
        let none = String::new();
        let ghost mid = self.outbox@;
        self.relink_all(&none, &none);
        proof {
            let n = old(self).outbox@.len() as int;
            assert(self.outbox@.take(n) =~= old(self).outbox@);
            assert(self.outbox@[n] == mid[n]);
            assert(self.outbox@.skip(n + 1) =~= repair_orders(
                old(self).chain().push(template),
                self.chain(),
                old(self).spec_config().final_stage,
                self.spec_config().final_stage,
            ));
            assert(!old(self).spec_ids().contains(id));
            assert(self.spec_ids() == old(self).spec_ids().push(id));
            assert(chain_relinked(
                old(self).chain().push(template),
                self.chain(),
                choice_seq(self.spec_config()),
                Seq::empty(),
                Seq::empty(),
            ));
        }
        Ok(())
    }

    /// Appends a stage under a random id that it returns; see
    /// `add_stage_with_id`. `IdTaken`, in the unlikely case that the id drawn
    /// is in use, means that a second call will almost surely succeed.
    pub fn add_stage(&mut self, template: RenderStageConfig) -> (r: Result<u128, EditError>)
        requires
            old(self).wf(),
            stage_keyed(template),
        ensures
            final(self).wf(),
            r is Err ==> *final(self) == *old(self),
            r == Err::<u128, EditError>(EditError::NameCollision) <==> namespace(
                old(self).spec_config(),
            ).contains(template.name@),
            r is Err ==> r == Err::<u128, EditError>(EditError::NameCollision) || r == Err::<
                u128,
                EditError,
            >(EditError::IdTaken),
            !namespace(old(self).spec_config()).contains(template.name@) && old(self).spec_ids().len() == 0 ==> r is Ok,
            r matches Ok(id) ==> old(self).stage_added(*final(self), template, id),
    {
        let id = random_id();
        match self.add_stage_with_id(template, id) {
            Ok(()) => Ok(id),
            Err(e) => Err(e),
        }
    }

    /// Deletes the stage `id`, queues its removal by position and repairs
    /// the references that named it. An unknown id changes nothing.
    pub fn remove_stage(&mut self, id: u128)
        requires
            old(self).wf(),
        ensures
            final(self).wf(),
            old(self).index_of(id) is None ==> *final(self) == *old(self),
            old(self).index_of(id) matches Some(k) ==> {
                &&& final(self).spec_ids() == old(self).spec_ids().remove(k)
                &&& final(self).spec_config().inputs@ == old(self).spec_config().inputs@
                &&& same_settings(final(self).spec_config(), old(self).spec_config())
                &&& chain_relinked(
                    old(self).chain().remove(k),
                    final(self).chain(),
                    choice_seq(final(self).spec_config()),
                    Seq::empty(),
                    Seq::empty(),
                )
                &&& stage_relinked(
                    old(self).spec_config().final_stage,
                    final(self).spec_config().final_stage,
                    choice_seq(final(self).spec_config()),
                    Seq::empty(),
                    Seq::empty(),
                )
                &&& final(self).spec_outbox() == old(self).spec_outbox().push(
                    Message::RemoveRenderStage(k as usize),
                ) + repair_orders(
                    old(self).chain().remove(k),
                    final(self).chain(),
                    old(self).spec_config().final_stage,
                    final(self).spec_config().final_stage,
                )
            },
    {
        if let Some(k) = self.stage_index(id) {
            self.outbox.push(Message::RemoveRenderStage(k));
            self.config.render_chain.remove(k);
            let ghost old_ids = self.stage_ids@;
            self.stage_ids.remove(k);
            assert forall|a: int, b: int|
                0 <= a < b < self.stage_ids@.len() implies #[trigger] self.stage_ids@[a]
                != #[trigger] self.stage_ids@[b] by {
                if a >= k {
                    assert(self.stage_ids@[a] == old_ids[a + 1]);
                } else {
                    assert(self.stage_ids@[a] == old_ids[a]);
                }
                if b >= k {
                    assert(self.stage_ids@[b] == old_ids[b + 1]);
                } else {
                    assert(self.stage_ids@[b] == old_ids[b]);
                }
            }
            let none = String::new();
            self.relink_all(&none, &none);
        }
    }

    /// Moves the stage `id` to position `target` (at most the last one) and
    /// queues the move by positions. The namespace is unchanged, so no
    /// reference is touched. An unknown id changes nothing.
    pub fn move_stage(&mut self, id: u128, target: usize)
        requires
            old(self).wf(),
        ensures
            final(self).wf(),
            old(self).index_of(id) is None ==> *final(self) == *old(self),
            old(self).index_of(id) matches Some(k) ==> {
                let to = if target < old(self).chain().len() {
                    target as int
                } else {
                    old(self).chain().len() - 1
                };
                &&& final(self).spec_ids() == moved(old(self).spec_ids(), k, to)
                &&& final(self).chain() == moved(old(self).chain(), k, to)
                &&& final(self).spec_config().inputs == old(self).spec_config().inputs
                &&& final(self).spec_config().final_stage == old(self).spec_config().final_stage
                &&& same_settings(final(self).spec_config(), old(self).spec_config())
                &&& final(self).spec_outbox() == old(self).spec_outbox().push(
                    Message::MoveRenderStage(k as usize, to as usize),
                )
                &&& namespace(final(self).spec_config()) == namespace(old(self).spec_config())
            },
    {
        if let Some(k) = self.stage_index(id) {
            let last = self.stage_ids.len() - 1;
            let to = if target < self.stage_ids.len() {
                target
            } else {
                last
            };
            let ghost old_ids = self.stage_ids@;
            let stage = self.config.render_chain.remove(k);
            self.config.render_chain.insert(to, stage);
            let moving = self.stage_ids.remove(k);
            self.stage_ids.insert(to, moving);
            self.outbox.push(Message::MoveRenderStage(k, to));
            proof {
                lemma_reorder_keeps_namespace(old(self).config, self.config, k as int, to as int);
                let r = old_ids.remove(k as int);
                assert forall|a: int, b: int|
                    0 <= a < b < self.stage_ids@.len() implies #[trigger] self.stage_ids@[a]
                    != #[trigger] self.stage_ids@[b] by {
                    assert forall|x: int, y: int| 0 <= x < y < r.len() implies r[x] != r[y] by {
                        let ox = if x < k { x } else { x + 1 };
                        let oy = if y < k { y } else { y + 1 };
                        assert(r[x] == old_ids[ox] && r[y] == old_ids[oy]);
                    }
                    assert forall|x: int| 0 <= x < r.len() implies r[x] != old_ids[k as int] by {
                        let ox = if x < k { x } else { x + 1 };
                        assert(r[x] == old_ids[ox]);
                    }
                    let ra = if a < to { r[a] } else if a == to { old_ids[k as int] } else { r[a - 1] };
                    let rb = if b < to { r[b] } else if b == to { old_ids[k as int] } else { r[b - 1] };
                    assert(self.stage_ids@[a] == ra && self.stage_ids@[b] == rb);
                }
            }
        }
    }

    /// Renames the stage `id`. Fails with `NameCollision`, changing nothing,
    /// if another source already has the name. Otherwise queues the new name
    /// and relinks every reference: those that named the stage follow it.
    /// An unknown id, or the stage's own name, changes nothing.
    pub fn rename_stage(&mut self, id: u128, new_name: String) -> (r: Result<(), EditError>)
        requires
            old(self).wf(),
        ensures
            final(self).wf(),
            final(self).spec_ids() == old(self).spec_ids(),
            old(self).index_of(id) is None ==> r is Ok && *final(self) == *old(self),
            old(self).index_of(id) matches Some(k) ==> {
                let old_name = old(self).chain()[k].name@;
                &&& r is Err <==> (new_name@ != old_name && namespace(
                    old(self).spec_config(),
                ).contains(new_name@))
                &&& r is Err ==> r == Err::<(), EditError>(EditError::NameCollision) && *final(self) == *old(self)
                &&& (r is Ok && new_name@ == old_name) ==> *final(self) == *old(self)
                &&& (r is Ok && new_name@ != old_name) ==> {
                    &&& final(self).chain().len() == old(self).chain().len()
                    &&& final(self).chain()[k].name == new_name
                    &&& forall|i: int|
                        0 <= i < old(self).chain().len() && i != k ==> (#[trigger] final(self).chain()[i]).name == old(self).chain()[i].name
                    &&& forall|i: int|
                        0 <= i < old(self).chain().len() ==> stage_relinked(
                            old(self).chain()[i],
                            #[trigger] final(self).chain()[i],
                            choice_seq(final(self).spec_config()),
                            old_name,
                            new_name@,
                        )
                    &&& stage_relinked(
                        old(self).spec_config().final_stage,
                        final(self).spec_config().final_stage,
                        choice_seq(final(self).spec_config()),
                        old_name,
                        new_name@,
                    )
                    &&& final(self).spec_config().inputs@ == old(self).spec_config().inputs@
                    &&& same_settings(final(self).spec_config(), old(self).spec_config())
                    &&& final(self).spec_outbox() == old(self).spec_outbox().push(
                        Message::UpdateRenderStage(k as usize, StageUpdate::Name(new_name)),
                    ) + repair_orders(
                        old(self).chain(),
                        final(self).chain(),
                        old(self).spec_config().final_stage,
                        final(self).spec_config().final_stage,
                    )
                    &&& renamed_references_follow(*old(self), *final(self), old_name, new_name@)
                }
            },
    {
        let k = match self.stage_index(id) {
            Some(k) => k,
            None => {
                return Ok(());
            },
        };
        if self.config.render_chain[k].name == new_name {
            return Ok(());
        }
        let c = choices(&self.config);
        if contains_name(&c, &new_name) {
            return Err(EditError::NameCollision);
        }
        let old_name = self.config.render_chain[k].name.clone();
        let mut stage = self.config.render_chain[k].clone();
        stage.name = new_name.clone();
        let ghost before = self.config.render_chain@;
        self.config.render_chain.set(k, stage);
        self.outbox.push(Message::UpdateRenderStage(k, StageUpdate::Name(new_name.clone())));
        let ghost mid_chain = self.config.render_chain@;
        assert(stage_names(self.config.render_chain@)[k as int] == new_name@);
        assert(namespace(self.config).contains(new_name@));
        let ghost renamed = *self;
        self.relink_all(&old_name, &new_name);
        proof {
            Self::lemma_relink_follows(renamed, *self, old_name@, new_name@);
            assert forall|i: int| 0 <= i < renamed.chain().len() implies (#[trigger] renamed.chain()[i]).inputs@
                == old(self).chain()[i].inputs@ by {}
            lemma_chain_orders_same_inputs(
                renamed.chain(),
                old(self).chain(),
                self.chain(),
                self.chain().len() as int,
            );
        }
        assert forall|i: int| 0 <= i < before.len() && i != k implies mid_chain[i] == before[i] by {}
        Ok(())
    }

    /// Queues the source of each input of stage `k`.
    fn queue_inputs(&mut self, k: usize, slots: &Vec<InputSlot>)
        ensures
            final(self).spec_config() == old(self).spec_config(),
            final(self).spec_ids() == old(self).spec_ids(),
            final(self).spec_outbox() == old(self).spec_outbox() + input_orders(k, slots@),
    {
        let mut j: usize = 0;
        while j < slots.len()
            invariant
                j <= slots.len(),
                self.config == old(self).config,
                self.stage_ids == old(self).stage_ids,
                self.outbox@ == old(self).outbox@ + input_orders(k, slots@.take(j as int)),
            decreases slots.len() - j,
        {
            let update = StageUpdate::Input(slots[j].uniform.clone(), slots[j].source.clone());
            self.outbox.push(Message::UpdateRenderStage(k, update));
            j = j + 1;
            assert(input_orders(k, slots@.take(j as int)) =~= input_orders(
                k,
                slots@.take(j - 1),
            ).push(Message::UpdateRenderStage(k, update)));
        }
        assert(slots@.take(j as int) =~= slots@);
    }

    /// Queues the value of each variable of stage `k`.
    fn queue_variables(&mut self, k: usize, slots: &Vec<VariableSlot>)
        ensures
            final(self).spec_config() == old(self).spec_config(),
            final(self).spec_ids() == old(self).spec_ids(),
            final(self).spec_outbox() == old(self).spec_outbox() + variable_orders(k, slots@),
    {
        let mut j: usize = 0;
        while j < slots.len()
            invariant
                j <= slots.len(),
                self.config == old(self).config,
                self.stage_ids == old(self).stage_ids,
                self.outbox@ == old(self).outbox@ + variable_orders(k, slots@.take(j as int)),
            decreases slots.len() - j,
        {
            let update = StageUpdate::Variable(slots[j].name.clone(), slots[j].value);
            self.outbox.push(Message::UpdateRenderStage(k, update));
            j = j + 1;
            assert(variable_orders(k, slots@.take(j as int)) =~= variable_orders(
                k,
                slots@.take(j - 1),
            ).push(Message::UpdateRenderStage(k, update)));
        }
        assert(slots@.take(j as int) =~= slots@);
    }

    /// The filter hot-swap: sets the filter of stage `id` to `filter`. If the
    /// catalog resolves it, the stage takes the filter's geometry and its
    /// inputs and variables become exactly the declared ones: a field the
    /// stage already had keeps its value (and automation), a new input
    /// samples the first choice of the namespace linearly, a new variable
    /// takes its default without automation, and the others are dropped with
    /// their automation. Queues the filter, then each input, then each
    /// variable. An unresolved filter is recorded and queued alone; an
    /// unknown id changes nothing.
    pub fn set_filter(&mut self, id: u128, filter: String, catalog: &FilterCatalog)
        requires
            old(self).wf(),
            catalog.wf(),
        ensures
            final(self).wf(),
            final(self).spec_ids() == old(self).spec_ids(),
            old(self).index_of(id) is None ==> *final(self) == *old(self),
            old(self).index_of(id) matches Some(k) ==> {
                let o = old(self).chain()[k];
                let n = final(self).chain()[k];
                let filter_order = Message::UpdateRenderStage(k as usize, StageUpdate::Filter(filter));
                &&& final(self).chain() == old(self).chain().update(k, n)
                &&& final(self).spec_config().inputs == old(self).spec_config().inputs
                &&& final(self).spec_config().final_stage == old(self).spec_config().final_stage
                &&& same_settings(final(self).spec_config(), old(self).spec_config())
                &&& n.name == o.name
                &&& n.filter == filter
                &&& n.precision == o.precision
                &&& match resolved_index(catalog.entries@, filter@) {
                    None => {
                        &&& n.filter_mode_params == o.filter_mode_params
                        &&& n.inputs@ == o.inputs@
                        &&& n.variables@ == o.variables@
                        &&& final(self).spec_outbox() == old(self).spec_outbox().push(filter_order)
                    },
                    Some(e) => {
                        let schema = catalog.entries@[e].schema;
                        &&& n.filter_mode_params == schema.mode
                        &&& inputs_reconciled(
                            o.inputs@,
                            schema.inputs@,
                            default_source(old(self).spec_config()),
                            n.inputs@,
                        )
                        &&& variables_reconciled(o.variables@, schema.variables@, n.variables@)
                        &&& final(self).spec_outbox() == old(self).spec_outbox().push(filter_order)
                            + input_orders(k as usize, n.inputs@) + variable_orders(
                            k as usize,
                            n.variables@,
                        )
                    },
                }
            },
    {
        let k = match self.stage_index(id) {
            Some(k) => k,
            None => {
                return ;
            },
        };
        let c = choices(&self.config);
        let default = if c.len() > 0 {
            c[0].clone()
        } else {
            String::new()
        };
        let resolved = catalog.resolve(&filter);
        let old_stage = &self.config.render_chain[k];
        let stage = match resolved {
            Some(schema) => RenderStageConfig {
                name: old_stage.name.clone(),
                filter: filter.clone(),
                filter_mode_params: schema.mode,
                inputs: reconcile_inputs(&old_stage.inputs, &schema.inputs, &default),
                variables: reconcile_variables(&old_stage.variables, &schema.variables),
                precision: old_stage.precision,
            },
            None => RenderStageConfig {
                name: old_stage.name.clone(),
                filter: filter.clone(),
                filter_mode_params: old_stage.filter_mode_params,
                inputs: clone_inputs(&old_stage.inputs),
                variables: clone_variables(&old_stage.variables),
                precision: old_stage.precision,
            },
        };
        self.outbox.push(Message::UpdateRenderStage(k, StageUpdate::Filter(filter)));
        if resolved.is_some() {
            self.queue_inputs(k, &stage.inputs);
            self.queue_variables(k, &stage.variables);
        }
        self.config.render_chain.set(k, stage);
    }

    /// Writes the literal value of variable `name` of stage `id`, keeping its
    /// automation, and queues it. An unknown stage or variable changes
    /// nothing.
    pub fn set_variable(&mut self, id: u128, name: &String, value: DataHolder)
        requires
            old(self).wf(),
        ensures
            final(self).wf(),
            final(self).spec_ids() == old(self).spec_ids(),
            (old(self).index_of(id) is None || find_variable(
                old(self).chain()[old(self).index_of(id).unwrap()].variables@,
                name@,
            ) is None) ==> *final(self) == *old(self),
            old(self).index_of(id) matches Some(k) ==> (find_variable(
                old(self).chain()[k].variables@,
                name@,
            ) matches Some(j) ==> {
                let o = old(self).chain()[k];
                let n = final(self).chain()[k];
                &&& final(self).chain() == old(self).chain().update(k, n)
                &&& final(self).spec_config().inputs == old(self).spec_config().inputs
                &&& final(self).spec_config().final_stage == old(self).spec_config().final_stage
                &&& same_settings(final(self).spec_config(), old(self).spec_config())
                &&& n.name == o.name && n.filter == o.filter && n.precision == o.precision
                &&& n.filter_mode_params == o.filter_mode_params && n.inputs@ == o.inputs@
                &&& n.variables@ == o.variables@.update(
                    j,
                    VariableSlot { value, ..o.variables@[j] },
                )
                &&& final(self).spec_outbox() == old(self).spec_outbox().push(
                    Message::UpdateRenderStage(k as usize, StageUpdate::Variable(*name, value)),
                )
            }),
    {
        let k = match self.stage_index(id) {
            Some(k) => k,
            None => {
                return ;
            },
        };
        let j = match variable_position(&self.config.render_chain[k].variables, name) {
            Some(j) => j,
            None => {
                return ;
            },
        };
        let mut stage = self.config.render_chain[k].clone();
        let slot = VariableSlot {
            name: stage.variables[j].name.clone(),
            value,
            automation: stage.variables[j].automation,
        };
        stage.variables.set(j, slot);
        self.config.render_chain.set(k, stage);
        self.outbox.push(Message::UpdateRenderStage(k, StageUpdate::Variable(name.clone(), value)));
    }

    /// Attaches `automation` to variable `name` of stage `id` and queues it.
    /// Fails with `AutomationArityMismatch`, changing nothing, unless the
    /// automation is `Off` or has one oscillator per component of the
    /// variable's value. An unknown stage or variable changes nothing.
    pub fn set_variable_automation(&mut self, id: u128, name: &String, automation: Automation) -> (r:
        Result<(), EditError>)
        requires
            old(self).wf(),
        ensures
            final(self).wf(),
            final(self).spec_ids() == old(self).spec_ids(),
            (old(self).index_of(id) is None || find_variable(
                old(self).chain()[old(self).index_of(id).unwrap()].variables@,
                name@,
            ) is None) ==> r is Ok && *final(self) == *old(self),
            old(self).index_of(id) matches Some(k) ==> (find_variable(
                old(self).chain()[k].variables@,
                name@,
            ) matches Some(j) ==> {
                let o = old(self).chain()[k];
                let n = final(self).chain()[k];
                &&& r is Err <==> !automation.spec_fits(o.variables@[j].value)
                &&& r is Err ==> r == Err::<(), EditError>(EditError::AutomationArityMismatch)
                    && *final(self) == *old(self)
                &&& r is Ok ==> {
                    &&& final(self).chain() == old(self).chain().update(k, n)
                    &&& final(self).spec_config().inputs == old(self).spec_config().inputs
                    &&& final(self).spec_config().final_stage == old(self).spec_config().final_stage
                    &&& same_settings(final(self).spec_config(), old(self).spec_config())
                    &&& n.name == o.name && n.filter == o.filter && n.precision == o.precision
                    &&& n.filter_mode_params == o.filter_mode_params && n.inputs@ == o.inputs@
                    &&& n.variables@ == o.variables@.update(
                        j,
                        VariableSlot { automation, ..o.variables@[j] },
                    )
                    &&& final(self).spec_outbox() == old(self).spec_outbox().push(
                        Message::UpdateRenderStage(
                            k as usize,
                            StageUpdate::Automation(*name, automation),
                        ),
                    )
                }
            }),
    {
        let k = match self.stage_index(id) {
            Some(k) => k,
            None => {
                return Ok(());
            },
        };
        let j = match variable_position(&self.config.render_chain[k].variables, name) {
            Some(j) => j,
            None => {
                return Ok(());
            },
        };
        if !automation.fits(&self.config.render_chain[k].variables[j].value) {
            return Err(EditError::AutomationArityMismatch);
        }
        let mut stage = self.config.render_chain[k].clone();
        let slot = VariableSlot {
            name: stage.variables[j].name.clone(),
            value: stage.variables[j].value,
            automation,
        };
        stage.variables.set(j, slot);
        self.config.render_chain.set(k, stage);
        self.outbox.push(
            Message::UpdateRenderStage(k, StageUpdate::Automation(name.clone(), automation)),
        );
        Ok(())
    }

    /// Points input `uniform` of stage `id` at `source` and queues it. An
    /// unknown stage or input changes nothing.
    pub fn set_stage_input(&mut self, id: u128, uniform: &String, source: SampledInput)
        requires
            old(self).wf(),
        ensures
            final(self).wf(),
            final(self).spec_ids() == old(self).spec_ids(),
            (old(self).index_of(id) is None || find_input(
                old(self).chain()[old(self).index_of(id).unwrap()].inputs@,
                uniform@,
            ) is None) ==> *final(self) == *old(self),
            old(self).index_of(id) matches Some(k) ==> (find_input(
                old(self).chain()[k].inputs@,
                uniform@,
            ) matches Some(j) ==> {
                let o = old(self).chain()[k];
                let n = final(self).chain()[k];
                &&& final(self).chain() == old(self).chain().update(k, n)
                &&& final(self).spec_config().inputs == old(self).spec_config().inputs
                &&& final(self).spec_config().final_stage == old(self).spec_config().final_stage
                &&& same_settings(final(self).spec_config(), old(self).spec_config())
                &&& n.name == o.name && n.filter == o.filter && n.precision == o.precision
                &&& n.filter_mode_params == o.filter_mode_params && n.variables@ == o.variables@
                &&& n.inputs@ == o.inputs@.update(j, InputSlot { source, ..o.inputs@[j] })
                &&& final(self).spec_outbox() == old(self).spec_outbox().push(
                    Message::UpdateRenderStage(k as usize, StageUpdate::Input(*uniform, source)),
                )
            }),
    {
        let k = match self.stage_index(id) {
            Some(k) => k,
            None => {
                return ;
            },
        };
        let j = match input_position(&self.config.render_chain[k].inputs, uniform) {
            Some(j) => j,
            None => {
                return ;
            },
        };
        let mut stage = self.config.render_chain[k].clone();
        let slot = InputSlot { uniform: stage.inputs[j].uniform.clone(), source: source.clone() };
        stage.inputs.set(j, slot);
        self.config.render_chain.set(k, stage);
        self.outbox.push(
            Message::UpdateRenderStage(k, StageUpdate::Input(uniform.clone(), source)),
        );
    }

    /// Points the final stage's input `uniform` (the displayed source is
    /// its `iChannel0`) at `source`, adding the input if the final stage has
    /// none of that name, and queues it.
    pub fn set_final_input(&mut self, uniform: &String, source: SampledInput)
        requires
            old(self).wf(),
        ensures
            final(self).wf(),
            final(self).spec_ids() == old(self).spec_ids(),
            final(self).chain() == old(self).chain(),
            final(self).spec_config().inputs == old(self).spec_config().inputs,
            same_settings(final(self).spec_config(), old(self).spec_config()),
            ({
                let o = old(self).spec_config().final_stage;
                let n = final(self).spec_config().final_stage;
                &&& n.name == o.name && n.filter == o.filter && n.precision == o.precision
                &&& n.filter_mode_params == o.filter_mode_params && n.variables@ == o.variables@
                &&& n.inputs@ == match find_input(o.inputs@, uniform@) {
                    Some(j) => o.inputs@.update(j, InputSlot { source, ..o.inputs@[j] }),
                    None => o.inputs@.push(InputSlot { uniform: *uniform, source }),
                }
            }),
            final(self).spec_outbox() == old(self).spec_outbox().push(
                Message::UpdateFinalStage(StageUpdate::Input(*uniform, source)),
            ),
    {
        let mut stage = self.config.final_stage.clone();
        match input_position(&stage.inputs, uniform) {
            Some(j) => {
                let slot = InputSlot {
                    uniform: stage.inputs[j].uniform.clone(),
                    source: source.clone(),
                };
                stage.inputs.set(j, slot);
            },
            None => {
                stage.inputs.push(InputSlot { uniform: uniform.clone(), source: source.clone() });
            },
        }
        self.config.final_stage = stage;
        self.outbox.push(Message::UpdateFinalStage(StageUpdate::Input(uniform.clone(), source)));
    }


    pub(crate) proof fn lemma_relink_follows(a: Project, b: Project, from: Seq<char>, to: Seq<char>)
        requires
            namespace(a.spec_config()).contains(to),
            choice_seq(a.spec_config()).to_set() == namespace(a.spec_config()),
            chain_relinked(a.chain(), b.chain(), choice_seq(a.spec_config()), from, to),
            stage_relinked(
                a.spec_config().final_stage,
                b.spec_config().final_stage,
                choice_seq(a.spec_config()),
                from,
                to,
            ),
        ensures
            renamed_references_follow(a, b, from, to),
    {
        let c = choice_seq(a.spec_config());
        assert(c.to_set().contains(to));
        assert forall|k: int, j: int|
            0 <= k < a.chain().len() && 0 <= j < a.chain()[k].inputs@.len()
                && (#[trigger] a.chain()[k].inputs@[j]).source.source() == from
                implies b.chain()[k].inputs@[j].source.source() == to by {
            lemma_rename_propagates(c, from, to, from);
            assert(stage_relinked(a.chain()[k], b.chain()[k], c, from, to));
        }
        assert forall|j: int|
            0 <= j < a.spec_config().final_stage.inputs@.len()
                && (#[trigger] a.spec_config().final_stage.inputs@[j]).source.source() == from
                implies b.spec_config().final_stage.inputs@[j].source.source() == to by {
            lemma_rename_propagates(c, from, to, from);
        }
    }

    /// Sets the tempo (bits of an `f32`) and queues it.
    pub fn set_bpm(&mut self, bpm: u32)
        requires
            old(self).wf(),
        ensures
            final(self).wf(),
            final(self).spec_ids() == old(self).spec_ids(),
            final(self).spec_config() == (ProjectConfig { bpm, ..old(self).spec_config() }),
            final(self).spec_outbox() == old(self).spec_outbox().push(Message::SetBpm(bpm)),
    {
        self.config.bpm = bpm;
        self.outbox.push(Message::SetBpm(bpm));
    }

    /// Sets the output width and queues it.
    pub fn set_width(&mut self, value: usize)
        requires
            old(self).wf(),
        ensures
            final(self).wf(),
            final(self).spec_ids() == old(self).spec_ids(),
            final(self).spec_config() == (ProjectConfig {
                view: ViewConfig { width: value, ..old(self).spec_config().view },
                ..old(self).spec_config()
            }),
            final(self).spec_outbox() == old(self).spec_outbox().push(Message::SetWidth(value)),
    {
        self.config.view.width = value;
        self.outbox.push(Message::SetWidth(value));
    }

    /// Sets the output height and queues it.
    pub fn set_height(&mut self, value: usize)
        requires
            old(self).wf(),
        ensures
            final(self).wf(),
            final(self).spec_ids() == old(self).spec_ids(),
            final(self).spec_config() == (ProjectConfig {
                view: ViewConfig { height: value, ..old(self).spec_config().view },
                ..old(self).spec_config()
            }),
            final(self).spec_outbox() == old(self).spec_outbox().push(Message::SetHeight(value)),
    {
        self.config.view.height = value;
        self.outbox.push(Message::SetHeight(value));
    }

    /// Sets the target frame rate (bits of an `f32`) and queues it.
    pub fn set_target_fps(&mut self, value: u32)
        requires
            old(self).wf(),
        ensures
            final(self).wf(),
            final(self).spec_ids() == old(self).spec_ids(),
            final(self).spec_config() == (ProjectConfig {
                view: ViewConfig { target_fps: value, ..old(self).spec_config().view },
                ..old(self).spec_config()
            }),
            final(self).spec_outbox() == old(self).spec_outbox().push(Message::SetTargetFps(value)),
    {
        self.config.view.target_fps = value;
        self.outbox.push(Message::SetTargetFps(value));
    }

    /// Sets whether the resolution follows the window and queues it.
    pub fn set_dynamic_resolution(&mut self, value: bool)
        requires
            old(self).wf(),
        ensures
            final(self).wf(),
            final(self).spec_ids() == old(self).spec_ids(),
            final(self).spec_config() == (ProjectConfig {
                view: ViewConfig { dynamic: value, ..old(self).spec_config().view },
                ..old(self).spec_config()
            }),
            final(self).spec_outbox() == old(self).spec_outbox().push(Message::SetDynamicResolution(value)),
    {
        self.config.view.dynamic = value;
        self.outbox.push(Message::SetDynamicResolution(value));
    }

    /// Sets vertical synchronisation and queues it.
    pub fn set_vsync(&mut self, value: bool)
        requires
            old(self).wf(),
        ensures
            final(self).wf(),
            final(self).spec_ids() == old(self).spec_ids(),
            final(self).spec_config() == (ProjectConfig {
                view: ViewConfig { vsync: value, ..old(self).spec_config().view },
                ..old(self).spec_config()
            }),
            final(self).spec_outbox() == old(self).spec_outbox().push(Message::SetVSync(value)),
    {
        self.config.view.vsync = value;
        self.outbox.push(Message::SetVSync(value));
    }

    /// Sets whether frames are captured and queues it.
    pub fn set_screenshot(&mut self, value: bool)
        requires
            old(self).wf(),
        ensures
            final(self).wf(),
            final(self).spec_ids() == old(self).spec_ids(),
            final(self).spec_config() == (ProjectConfig {
                view: ViewConfig { screenshot: value, ..old(self).spec_config().view },
                ..old(self).spec_config()
            }),
            final(self).spec_outbox() == old(self).spec_outbox().push(Message::SetScreenshot(value)),
    {
        self.config.view.screenshot = value;
        self.outbox.push(Message::SetScreenshot(value));
    }

    /// Sets fullscreen display and queues it.
    pub fn set_fullscreen(&mut self, value: bool)
        requires
            old(self).wf(),
        ensures
            final(self).wf(),
            final(self).spec_ids() == old(self).spec_ids(),
            final(self).spec_config() == (ProjectConfig {
                view: ViewConfig { fullscreen: value, ..old(self).spec_config().view },
                ..old(self).spec_config()
            }),
            final(self).spec_outbox() == old(self).spec_outbox().push(Message::SetFullscreen(value)),
    {
        self.config.view.fullscreen = value;
        self.outbox.push(Message::SetFullscreen(value));
    }

    /// Sets whether playback speed is locked to the tempo and queues it.
    pub fn set_locked_speed(&mut self, value: bool)
        requires
            old(self).wf(),
        ensures
            final(self).wf(),
            final(self).spec_ids() == old(self).spec_ids(),
            final(self).spec_config() == (ProjectConfig {
                view: ViewConfig { locked_speed: value, ..old(self).spec_config().view },
                ..old(self).spec_config()
            }),
            final(self).spec_outbox() == old(self).spec_outbox().push(Message::SetLockedSpeed(value)),
    {
        self.config.view.locked_speed = value;
        self.outbox.push(Message::SetLockedSpeed(value));
    }

    /// Sets the address of the render process's server.
    pub fn set_server_ip(&mut self, ip: String)
        requires
            old(self).wf(),
        ensures
            final(self).wf(),
            final(self).spec_ids() == old(self).spec_ids(),
            final(self).spec_outbox() == old(self).spec_outbox(),
            final(self).spec_config().server.ip == ip,
            final(self).spec_config().server.port == old(self).spec_config().server.port,
            final(self).spec_config().server.enable == old(self).spec_config().server.enable,
            final(self).spec_config().inputs == old(self).spec_config().inputs,
            final(self).spec_config().render_chain == old(self).spec_config().render_chain,
            final(self).spec_config().final_stage == old(self).spec_config().final_stage,
            final(self).spec_config().bpm == old(self).spec_config().bpm,
            final(self).spec_config().view == old(self).spec_config().view,
    {
        self.config.server.ip = ip;
    }

    /// Sets the port of the render process's server.
    pub fn set_server_port(&mut self, port: usize)
        requires
            old(self).wf(),
        ensures
            final(self).wf(),
            final(self).spec_ids() == old(self).spec_ids(),
            final(self).spec_outbox() == old(self).spec_outbox(),
            final(self).spec_config() == (ProjectConfig {
                server: crate::model::ServerConfig { port, ..old(self).spec_config().server },
                ..old(self).spec_config()
            }),
    {
        self.config.server.port = port;
    }

    /// Sets whether the render process runs as a server.
    pub fn set_server_enabled(&mut self, enable: bool)
        requires
            old(self).wf(),
        ensures
            final(self).wf(),
            final(self).spec_ids() == old(self).spec_ids(),
            final(self).spec_outbox() == old(self).spec_outbox(),
            final(self).spec_config() == (ProjectConfig {
                server: crate::model::ServerConfig { enable, ..old(self).spec_config().server },
                ..old(self).spec_config()
            }),
    {
        self.config.server.enable = enable;
    }

    /// Queues the order to start rendering.
    pub fn start(&mut self)
        requires
            old(self).wf(),
        ensures
            final(self).wf(),
            final(self).spec_ids() == old(self).spec_ids(),
            final(self).spec_config() == old(self).spec_config(),
            final(self).spec_outbox() == old(self).spec_outbox().push(Message::Start),
    {
        self.outbox.push(Message::Start);
    }

    /// Points every reference of the chain and of the final stage into the
    /// namespace: a reference to a name that is there is kept, a stale one
    /// goes to the nearest name, or is cleared when the namespace is empty.
    /// Queues an order for each reference that changed.
    pub fn repair_references(&mut self)
        requires
            old(self).wf(),
        ensures
            final(self).wf(),
            final(self).spec_ids() == old(self).spec_ids(),
            final(self).spec_config().inputs@ == old(self).spec_config().inputs@,
            same_settings(final(self).spec_config(), old(self).spec_config()),
            chain_relinked(
                old(self).chain(),
                final(self).chain(),
                choice_seq(old(self).spec_config()),
                Seq::empty(),
                Seq::empty(),
            ),
            final(self).spec_config().final_stage.name == old(self).spec_config().final_stage.name,
            stage_relinked(
                old(self).spec_config().final_stage,
                final(self).spec_config().final_stage,
                choice_seq(old(self).spec_config()),
                Seq::empty(),
                Seq::empty(),
            ),
            final(self).spec_outbox() == old(self).spec_outbox() + repair_orders(
                old(self).chain(),
                final(self).chain(),
                old(self).spec_config().final_stage,
                final(self).spec_config().final_stage,
            ),
    {
        let none = String::new();
        self.relink_all(&none, &none);
    }

    /// Gives up the project, handing back its configuration.
    pub fn into_config(self) -> (r: ProjectConfig)
        ensures
            r == self.spec_config(),
    {
        self.config
    }

    /// The name that a new stage gets: `"Layer #"` and the number of stages
    /// already there.
    pub fn conventional_stage_name(&self) -> (r: String)
        ensures
            r@ == "Layer #"@ + decimal(self.chain().len()),
    {
        let mut name = String::from_str("Layer #");
        push_decimal(&mut name, self.config.render_chain.len() as u128);
        name
    }

    /// A new stage named `name` for the filter `filter`, shaped by the
    /// filter's schema as a filter swap on an empty stage would shape it:
    /// the declared geometry, each declared input sampling the first choice
    /// of the namespace linearly, each declared variable at its default with
    /// no automation, and 8-bit precision. None if the catalog does not know
    /// the filter.
    pub fn stage_from_catalog(&self, name: String, filter: String, catalog: &FilterCatalog) -> (r:
        Option<RenderStageConfig>)
        requires
            catalog.wf(),
        ensures
            r matches Some(s) ==> stage_keyed(s),
            r is Some <==> resolved_index(catalog.entries@, filter@) is Some,
            r matches Some(s) ==> {
                let schema = catalog.entries@[resolved_index(
                    catalog.entries@,
                    filter@,
                ).unwrap()].schema;
                &&& s.name == name
                &&& s.filter == filter
                &&& s.filter_mode_params == schema.mode
                &&& s.precision == Precision::U8
                &&& inputs_reconciled(
                    Seq::empty(),
                    schema.inputs@,
                    default_source(self.spec_config()),
                    s.inputs@,
                )
                &&& variables_reconciled(Seq::empty(), schema.variables@, s.variables@)
            },
    {
        let schema = match catalog.resolve(&filter) {
            Some(schema) => schema,
            None => {
                return None;
            },
        };
        let c = choices(&self.config);
        let default = if c.len() > 0 {
            c[0].clone()
        } else {
            String::new()
        };
        let no_inputs: Vec<InputSlot> = Vec::new();
        let no_variables: Vec<VariableSlot> = Vec::new();
        let inputs = reconcile_inputs(&no_inputs, &schema.inputs, &default);
        let variables = reconcile_variables(&no_variables, &schema.variables);
        assert(no_inputs@ =~= Seq::empty());
        assert(no_variables@ =~= Seq::empty());
        Some(
            RenderStageConfig {
                name,
                filter,
                filter_mode_params: schema.mode,
                inputs,
                variables,
                precision: Precision::U8,
            },
        )
    }

    /// Sets the geometry parameters of stage `id` and queues them. An unknown
    /// id changes nothing.
    pub fn set_filter_mode_params(&mut self, id: u128, params: FilterMode)
        requires
            old(self).wf(),
        ensures
            final(self).wf(),
            final(self).spec_ids() == old(self).spec_ids(),
            old(self).index_of(id) is None ==> *final(self) == *old(self),
            old(self).index_of(id) matches Some(k) ==> {
                let o = old(self).chain()[k];
                let n = final(self).chain()[k];
                &&& final(self).chain() == old(self).chain().update(k, n)
                &&& final(self).spec_config().inputs == old(self).spec_config().inputs
                &&& final(self).spec_config().final_stage == old(self).spec_config().final_stage
                &&& same_settings(final(self).spec_config(), old(self).spec_config())
                &&& n.name == o.name && n.filter == o.filter && n.precision == o.precision
                &&& n.inputs@ == o.inputs@ && n.variables@ == o.variables@
                &&& n.filter_mode_params == params
                &&& final(self).spec_outbox() == old(self).spec_outbox().push(
                    Message::UpdateRenderStage(k as usize, StageUpdate::FilterModeParams(params)),
                )
            },
    {
        if let Some(k) = self.stage_index(id) {
            let mut stage = self.config.render_chain[k].clone();
            stage.filter_mode_params = params;
            self.config.render_chain.set(k, stage);
            self.outbox.push(Message::UpdateRenderStage(k, StageUpdate::FilterModeParams(params)));
        }
    }

    /// Sets the precision of stage `id` and queues it. An unknown id changes
    /// nothing.
    pub fn set_precision(&mut self, id: u128, precision: Precision)
        requires
            old(self).wf(),
        ensures
            final(self).wf(),
            final(self).spec_ids() == old(self).spec_ids(),
            old(self).index_of(id) is None ==> *final(self) == *old(self),
            old(self).index_of(id) matches Some(k) ==> {
                let o = old(self).chain()[k];
                let n = final(self).chain()[k];
                &&& final(self).chain() == old(self).chain().update(k, n)
                &&& final(self).spec_config().inputs == old(self).spec_config().inputs
                &&& final(self).spec_config().final_stage == old(self).spec_config().final_stage
                &&& same_settings(final(self).spec_config(), old(self).spec_config())
                &&& n.name == o.name && n.filter == o.filter
                &&& n.filter_mode_params == o.filter_mode_params
                &&& n.inputs@ == o.inputs@ && n.variables@ == o.variables@
                &&& n.precision == precision
                &&& final(self).spec_outbox() == old(self).spec_outbox().push(
                    Message::UpdateRenderStage(k as usize, StageUpdate::Precision(precision)),
                )
            },
    {
        if let Some(k) = self.stage_index(id) {
            let mut stage = self.config.render_chain[k].clone();
            stage.precision = precision;
            self.config.render_chain.set(k, stage);
            self.outbox.push(Message::UpdateRenderStage(k, StageUpdate::Precision(precision)));
        }
    }

    /// Position of the stage `id` in the render chain.
    pub fn stage_index(&self, id: u128) -> (r: Option<usize>)
        requires
            self.wf(),
        ensures
            r matches Some(k) ==> self.index_of(id) == Some(k as int),
            r is None ==> self.index_of(id) is None,
    {
        let mut i: usize = 0;
        while i < self.stage_ids.len()
            invariant
                self.wf(),
                i <= self.stage_ids.len(),
                forall|j: int| 0 <= j < i ==> self.stage_ids@[j] != id,
            decreases self.stage_ids.len() - i,
        {
            if self.stage_ids[i] == id {
                proof {
                    assert(self.spec_ids()[i as int] == id);
                    let k = choose|k: int|
                        0 <= k < self.spec_ids().len() && self.spec_ids()[k] == id;
                    if k < i {
                        assert(self.spec_ids()[k] != self.spec_ids()[i as int]);
                    } else if k > i {
                        assert(self.spec_ids()[i as int] != self.spec_ids()[k]);
                    }
                }
                return Some(i);
            }
            i = i + 1;
        }
        None
    }
}

} // verus!
