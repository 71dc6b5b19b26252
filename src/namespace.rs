//! The namespace of selectable sources and the repair of references to it.
use vstd::prelude::*;

use crate::model::{InputSlot, NamedInput, ProjectConfig, RenderStageConfig, SampledInput};
use crate::text::{
    lemma_lex_lt_asymmetric, lemma_lex_lt_irreflexive, lemma_lex_lt_total,
    lemma_lex_lt_transitive, lex_less, lex_lt,
};

verus! {

/// The views of a list of strings.
pub open spec fn views(v: Seq<String>) -> Seq<Seq<char>> {
    v.map_values(|s: String| s@)
}

/// Whether each name comes strictly before every later one.
pub open spec fn strictly_sorted(s: Seq<Seq<char>>) -> bool {
    forall|i: int, j: int| 0 <= i < j < s.len() ==> lex_lt(#[trigger] s[i], #[trigger] s[j])
}

pub open spec fn input_names(inputs: Seq<NamedInput>) -> Seq<Seq<char>> {
    inputs.map_values(|i: NamedInput| i.name@)
}

pub open spec fn stage_names(stages: Seq<RenderStageConfig>) -> Seq<Seq<char>> {
    stages.map_values(|s: RenderStageConfig| s.name@)
}

/// The namespace: every input name and every stage name.
pub open spec fn namespace(c: ProjectConfig) -> Set<Seq<char>> {
    input_names(c.inputs@).to_set() + stage_names(c.render_chain@).to_set()
}

/// A set of names as the strictly sorted sequence of its elements.
pub open spec fn sorted_names(ns: Set<Seq<char>>) -> Seq<Seq<char>> {
    choose|s: Seq<Seq<char>>| strictly_sorted(s) && s.to_set() == ns
}

/// The namespace as the sorted sequence of its names.
pub open spec fn choice_seq(c: ProjectConfig) -> Seq<Seq<char>> {
    sorted_names(namespace(c))
}

/// A strictly sorted sequence is fixed by the set of its elements.
pub proof fn lemma_sorted_unique(s1: Seq<Seq<char>>, s2: Seq<Seq<char>>)
    requires
        strictly_sorted(s1),
        strictly_sorted(s2),
        s1.to_set() == s2.to_set(),
    ensures
        s1 == s2,
    decreases s1.len(),
{
    if s1.len() == 0 {
        if s2.len() > 0 {
            assert(s2.to_set().contains(s2[0]));
        }
        assert(s1 =~= s2);
    } else {
        assert(s1.to_set().contains(s1[0]));
        assert(s2.len() > 0);
        assert(s2.to_set().contains(s2[0]));
        let j = choose|j: int| 0 <= j < s2.len() && s2[j] == s1[0];
        let i = choose|i: int| 0 <= i < s1.len() && s1[i] == s2[0];
        if j > 0 {
            if i > 0 {
                lemma_lex_lt_asymmetric(s1[0], s1[i]);
            } else {
                lemma_lex_lt_irreflexive(s2[0]);
            }
        }
        assert(s1[0] == s2[0]);
        let t1 = s1.drop_first();
        let t2 = s2.drop_first();
        assert(strictly_sorted(t1)) by {
            assert forall|a: int, b: int| 0 <= a < b < t1.len() implies lex_lt(
                #[trigger] t1[a],
                #[trigger] t1[b],
            ) by {
                assert(t1[a] == s1[a + 1] && t1[b] == s1[b + 1]);
            }
        }
        assert(strictly_sorted(t2)) by {
            assert forall|a: int, b: int| 0 <= a < b < t2.len() implies lex_lt(
                #[trigger] t2[a],
                #[trigger] t2[b],
            ) by {
                assert(t2[a] == s2[a + 1] && t2[b] == s2[b + 1]);
            }
        }
        assert forall|x: Seq<char>| t1.to_set().contains(x) <==> t2.to_set().contains(x) by {
            if t1.to_set().contains(x) {
                let k = choose|k: int| 0 <= k < t1.len() && t1[k] == x;
                assert(s1[k + 1] == x);
                assert(s1.to_set().contains(x));
                let m = choose|m: int| 0 <= m < s2.len() && s2[m] == x;
                if m == 0 {
                    lemma_lex_lt_asymmetric(s1[0], s1[k + 1]);
                }
                assert(t2[m - 1] == x);
            }
            if t2.to_set().contains(x) {
                let k = choose|k: int| 0 <= k < t2.len() && t2[k] == x;
                assert(s2[k + 1] == x);
                assert(s2.to_set().contains(x));
                let m = choose|m: int| 0 <= m < s1.len() && s1[m] == x;
                if m == 0 {
                    lemma_lex_lt_asymmetric(s2[0], s2[k + 1]);
                }
                assert(t1[m - 1] == x);
            }
        }
        assert(t1.to_set() =~= t2.to_set());
        lemma_sorted_unique(t1, t2);
        assert(s1 =~= seq![s1[0]] + t1);
        assert(s2 =~= seq![s2[0]] + t2);
    }
}

/// The Levenshtein distance between two texts: the fewest insertions,
/// deletions and substitutions of single characters that turn `a` into `b`.
pub open spec fn edit_distance(a: Seq<char>, b: Seq<char>) -> nat
    decreases a.len() + b.len(),
{
    if a.len() == 0 {
        b.len()
    } else if b.len() == 0 {
        a.len()
    } else {
        let deletion = edit_distance(a.drop_last(), b) + 1;
        let insertion = edit_distance(a, b.drop_last()) + 1;
        let substitution = edit_distance(a.drop_last(), b.drop_last()) + if a.last() == b.last() {
            0nat
        } else {
            1nat
        };
        if deletion <= insertion && deletion <= substitution {
            deletion
        } else if insertion <= substitution {
            insertion
        } else {
            substitution
        }
    }
}

/// Relies on strsim::levenshtein: the Levenshtein distance between the two
/// strings, counted over their characters.
#[verifier::external_body]
fn levenshtein(a: &str, b: &str) -> (r: usize)
    ensures
        r as nat == edit_distance(a@, b@),
{
    strsim::levenshtein(a, b)
}

/// Index of the first smallest value of `d` (0 when `d` is empty).
pub open spec fn first_minimum(d: Seq<int>) -> int
    decreases d.len(),
{
    if d.len() <= 1 {
        0
    } else {
        let k = first_minimum(d.drop_last());
        if d.last() < d[k] {
            d.len() - 1
        } else {
            k
        }
    }
}

/// The edit distance from `cur` to each candidate of `c`.
pub open spec fn distances(c: Seq<Seq<char>>, cur: Seq<char>) -> Seq<int> {
    Seq::new(c.len(), |i: int| edit_distance(cur, c[i]) as int)
}

/// Index of the first candidate at the smallest distance from `cur`.
pub open spec fn nearest_index(c: Seq<Seq<char>>, cur: Seq<char>) -> int {
    first_minimum(distances(c, cur))
}

/// The first minimum is a minimum, and no earlier value is as small.
pub proof fn lemma_first_minimum(d: Seq<int>)
    requires
        d.len() > 0,
    ensures
        0 <= first_minimum(d) < d.len(),
        forall|i: int| 0 <= i < d.len() ==> d[first_minimum(d)] <= #[trigger] d[i],
        forall|i: int| 0 <= i < first_minimum(d) ==> d[first_minimum(d)] < #[trigger] d[i],
    decreases d.len(),
{
    if d.len() > 1 {
        lemma_first_minimum(d.drop_last());
        assert forall|i: int| 0 <= i < d.len() - 1 implies d[i] == d.drop_last()[i] by {}
    }
}

/// The nearest index is the first of the candidates at the minimum distance.
pub proof fn lemma_nearest_index(c: Seq<Seq<char>>, cur: Seq<char>)
    requires
        c.len() > 0,
    ensures
        0 <= nearest_index(c, cur) < c.len(),
        forall|i: int|
            0 <= i < c.len() ==> edit_distance(cur, c[nearest_index(c, cur)]) <= edit_distance(
                cur,
                #[trigger] c[i],
            ),
        forall|i: int|
            0 <= i < nearest_index(c, cur) ==> edit_distance(cur, c[nearest_index(c, cur)])
                < edit_distance(cur, #[trigger] c[i]),
{
    let d = distances(c, cur);
    lemma_first_minimum(d);
    assert forall|i: int| 0 <= i < c.len() implies edit_distance(cur, c[nearest_index(c, cur)]) <= edit_distance(
        cur,
        #[trigger] c[i],
    ) by {
        assert(d[i] == edit_distance(cur, c[i]) as int);
    }
    assert forall|i: int| 0 <= i < nearest_index(c, cur) implies edit_distance(cur, c[nearest_index(c, cur)])
        < edit_distance(cur, #[trigger] c[i]) by {
        assert(d[i] == edit_distance(cur, c[i]) as int);
    }
}

/// Position of the first smallest of `d`.
pub fn first_minimum_index(d: &Vec<usize>) -> (r: usize)
    requires
        d@.len() > 0,
    ensures
        r as int == first_minimum(d@.map_values(|x: usize| x as int)),
        r < d@.len(),
{
    let ghost v = d@.map_values(|x: usize| x as int);
    let mut best: usize = 0;
    let mut i: usize = 1;
    assert(v.take(1).drop_last() =~= Seq::<int>::empty());
    while i < d.len()
        invariant
            v == d@.map_values(|x: usize| x as int),
            1 <= i <= d.len(),
            best as int == first_minimum(v.take(i as int)),
            best < i,
        decreases d.len() - i,
    {
        let ghost t = v.take(i + 1);
        assert(t.drop_last() =~= v.take(i as int));
        assert(t.last() == d@[i as int] as int);
        assert(t[best as int] == d@[best as int] as int);
        if d[i] < d[best] {
            best = i;
        }
        i = i + 1;
    }
    assert(v.take(d.len() as int) =~= v);
    best
}

/// Where a reference to `cur` points once the namespace is `c`: it stays if
/// `cur` survived, an unbound (empty) reference takes the first candidate,
/// any other goes to the nearest candidate, and it is cleared (empty) if
/// there is no candidate at all.
pub open spec fn retargeted(c: Seq<Seq<char>>, cur: Seq<char>) -> Seq<char> {
    if c.len() == 0 {
        Seq::empty()
    } else if c.contains(cur) {
        cur
    } else if cur.len() == 0 {
        c[0]
    } else {
        c[nearest_index(c, cur)]
    }
}

/// Tells whether `name` is one of `names`.
pub fn contains_name(names: &Vec<String>, name: &String) -> (r: bool)
    ensures
        r == views(names@).contains(name@),
{
    let mut i: usize = 0;
    while i < names.len()
        invariant
            i <= names.len(),
            forall|j: int| 0 <= j < i ==> names@[j]@ != name@,
        decreases names.len() - i,
    {
        if names[i] == *name {
            assert(views(names@)[i as int] == name@);
            return true;
        }
        i = i + 1;
    }
    assert(!views(names@).contains(name@)) by {
        if views(names@).contains(name@) {
            let j = choose|j: int| 0 <= j < names@.len() && views(names@)[j] == name@;
            assert(names@[j]@ == name@);
        }
    }
    false
}

/// Re-points a reference to `current` into the namespace `choices`: kept if
/// it is still there, the first choice if it was unbound (empty), otherwise
/// the first choice at the smallest edit distance; an empty name when there
/// is no choice at all.
pub fn retarget(choices: &Vec<String>, current: &String) -> (r: String)
    ensures
        r@ == retargeted(views(choices@), current@),
{
    let ghost c = views(choices@);
    if choices.len() == 0 {
        return String::new();
    }
    if contains_name(choices, current) {
        return current.clone();
    }
    if current.as_str().is_empty() {
        return choices[0].clone();
    }
    let mut d: Vec<usize> = Vec::new();
    let mut i: usize = 0;
    while i < choices.len()
        invariant
            c == views(choices@),
            i <= choices.len(),
            d@.len() == i,
            forall|j: int| 0 <= j < i ==> d@[j] as int == edit_distance(current@, c[j]),
        decreases choices.len() - i,
    {
        d.push(levenshtein(current.as_str(), choices[i].as_str()));
        i = i + 1;
    }
    assert(d@.map_values(|x: usize| x as int) =~= distances(c, current@));
    let k = first_minimum_index(&d);
    choices[k].clone()
}

/// Where a reference to `x` points once a source named `from` is called `to`
/// and the namespace is `c`: a reference to the renamed source follows it,
/// and any other reference is retargeted. With `from == to` this is plain
/// retargeting.
pub open spec fn relinked(c: Seq<Seq<char>>, from: Seq<char>, to: Seq<char>, x: Seq<char>) -> Seq<
    char,
> {
    retargeted(
        c,
        if x == from {
            to
        } else {
            x
        },
    )
}

/// `new` is `old` with every reference relinked.
pub open spec fn slots_relinked(
    old: Seq<InputSlot>,
    new: Seq<InputSlot>,
    c: Seq<Seq<char>>,
    from: Seq<char>,
    to: Seq<char>,
) -> bool {
    &&& new.len() == old.len()
    &&& forall|j: int|
        0 <= j < new.len() ==> {
            &&& (#[trigger] new[j]).uniform == old[j].uniform
            &&& new[j].source.spec_sampling() == old[j].source.spec_sampling()
            &&& new[j].source.source() == relinked(c, from, to, old[j].source.source())
        }
}

/// `new` is `old` with the references of its inputs relinked and every
/// other field but the name unchanged.
pub open spec fn stage_relinked(
    old: RenderStageConfig,
    new: RenderStageConfig,
    c: Seq<Seq<char>>,
    from: Seq<char>,
    to: Seq<char>,
) -> bool {
    &&& new.filter == old.filter
    &&& new.filter_mode_params == old.filter_mode_params
    &&& new.variables@ == old.variables@
    &&& new.precision == old.precision
    &&& slots_relinked(old.inputs@, new.inputs@, c, from, to)
}

/// Each stage of `new` is the stage of `old` at the same place, with its
/// name kept and its references relinked.
pub open spec fn chain_relinked(
    old: Seq<RenderStageConfig>,
    new: Seq<RenderStageConfig>,
    c: Seq<Seq<char>>,
    from: Seq<char>,
    to: Seq<char>,
) -> bool {
    &&& new.len() == old.len()
    &&& forall|k: int|
        0 <= k < new.len() ==> {
            &&& (#[trigger] new[k]).name == old[k].name
            &&& stage_relinked(old[k], new[k], c, from, to)
        }
}

/// Relinks one reference.
pub fn relink_source(
    source: &SampledInput,
    choices: &Vec<String>,
    from: &String,
    to: &String,
) -> (r: SampledInput)
    ensures
        r.spec_sampling() == source.spec_sampling(),
        r.source() == relinked(views(choices@), from@, to@, source.source()),
{
    let name = source.name();
    let target = if *name == *from {
        to
    } else {
        name
    };
    SampledInput::new(source.sampling(), retarget(choices, target))
}

/// Relinks the references of a list of stage inputs.
pub fn relink_slots(
    slots: &Vec<InputSlot>,
    choices: &Vec<String>,
    from: &String,
    to: &String,
) -> (r: Vec<InputSlot>)
    ensures
        slots_relinked(slots@, r@, views(choices@), from@, to@),
{
    let mut r: Vec<InputSlot> = Vec::new();
    let mut j: usize = 0;
    while j < slots.len()
        invariant
            j <= slots.len(),
            slots_relinked(slots@.take(j as int), r@, views(choices@), from@, to@),
        decreases slots.len() - j,
    {
        let source = relink_source(&slots[j].source, choices, from, to);
        r.push(InputSlot { uniform: slots[j].uniform.clone(), source });
        j = j + 1;
        assert(slots_relinked(slots@.take(j as int), r@, views(choices@), from@, to@)) by {
            assert forall|i: int| 0 <= i < r@.len() implies slots@.take(j as int)[i] == slots@[i] by {}
        }
    }
    assert(slots@.take(j as int) =~= slots@);
    r
}

/// Relinks the references of one stage.
pub fn relink_stage(
    stage: &RenderStageConfig,
    choices: &Vec<String>,
    from: &String,
    to: &String,
) -> (r: RenderStageConfig)
    ensures
        r.name == stage.name,
        stage_relinked(*stage, r, views(choices@), from@, to@),
{
    RenderStageConfig {
        name: stage.name.clone(),
        filter: stage.filter.clone(),
        filter_mode_params: stage.filter_mode_params,
        inputs: relink_slots(&stage.inputs, choices, from, to),
        variables: crate::model::clone_variables(&stage.variables),
        precision: stage.precision,
    }
}

/// Adds `name` to a strictly sorted list of names, unless it is there.
pub fn insert_name(names: &mut Vec<String>, name: &String)
    requires
        strictly_sorted(views(old(names)@)),
    ensures
        strictly_sorted(views(final(names)@)),
        views(final(names)@).to_set() == views(old(names)@).to_set().insert(name@),
{
    let ghost s = views(names@);
    let mut i: usize = 0;
    while i < names.len() && lex_less(names[i].as_str(), name.as_str())
        invariant
            s == views(names@),
            i <= names.len(),
            forall|j: int| 0 <= j < i ==> lex_lt(s[j], name@),
        decreases names.len() - i,
    {
        i = i + 1;
    }
    if i < names.len() && names[i] == *name {
        assert(s[i as int] == name@);
        assert(s.to_set().insert(name@) =~= s.to_set());
        return;
    }
    if i < names.len() {
        assert(!lex_lt(s[i as int], name@));
        assert(s[i as int] != name@);
        proof {
            lemma_lex_lt_total(s[i as int], name@);
        }
    }
    names.insert(i, name.clone());
    let ghost t = views(names@);
    assert(t =~= s.insert(i as int, name@));
    assert forall|a: int, b: int| 0 <= a < b < t.len() implies lex_lt(#[trigger] t[a], #[trigger] t[b]) by {
        if b < i {
        } else if a < i && b == i {
        } else if a < i {
            assert(t[a] == s[a] && t[b] == s[b - 1]);
        } else if a == i {
            if b - 1 > i {
                lemma_lex_lt_transitive(name@, s[i as int], s[b - 1]);
            }
        } else {
        }
    }
    assert forall|x: Seq<char>| t.to_set().contains(x) <==> s.to_set().insert(name@).contains(x) by {
        if t.to_set().contains(x) {
            let k = choose|k: int| 0 <= k < t.len() && t[k] == x;
            if k < i {
                assert(s[k] == x);
            } else if k > i {
                assert(s[k - 1] == x);
            }
        }
        if s.to_set().contains(x) {
            let k = choose|k: int| 0 <= k < s.len() && s[k] == x;
            if k < i {
                assert(t[k] == x);
            } else {
                assert(t[k + 1] == x);
            }
        }
        if x == name@ {
            assert(t[i as int] == x);
        }
    }
    assert(t.to_set() =~= s.to_set().insert(name@));
}

/// The sorted list of selectable source names: every input name and every
/// stage name, each once, in lexicographic order.
pub fn choices(config: &ProjectConfig) -> (r: Vec<String>)
    ensures
        strictly_sorted(views(r@)),
        views(r@).to_set() == namespace(*config),
        views(r@) == choice_seq(*config),
        forall|i: int, j: int| 0 <= i < j < r@.len() ==> r@[i]@ != r@[j]@,
        forall|i: int|
            0 <= i < config.inputs@.len() ==> views(r@).contains(
                (#[trigger] config.inputs@[i]).name@,
            ),
        forall|k: int|
            0 <= k < config.render_chain@.len() ==> views(r@).contains(
                (#[trigger] config.render_chain@[k]).name@,
            ),
{
    let mut r: Vec<String> = Vec::new();
    let ghost ins = input_names(config.inputs@);
    let ghost sts = stage_names(config.render_chain@);
    assert(views(r@).to_set() =~= ins.take(0).to_set());
    let mut i: usize = 0;
    while i < config.inputs.len()
        invariant
            ins == input_names(config.inputs@),
            i <= config.inputs.len(),
            strictly_sorted(views(r@)),
            views(r@).to_set() == ins.take(i as int).to_set(),
        decreases config.inputs.len() - i,
    {
        insert_name(&mut r, &config.inputs[i].name);
        proof {
            assert(ins.take(i + 1) =~= ins.take(i as int).push(ins[i as int]));
            ins.take(i as int).lemma_push_to_set_commute(ins[i as int]);
        }
        i = i + 1;
    }
    assert(ins.take(i as int) =~= ins);
    assert(views(r@).to_set() =~= ins.to_set() + sts.take(0).to_set());
    let mut j: usize = 0;
    while j < config.render_chain.len()
        invariant
            ins == input_names(config.inputs@),
            sts == stage_names(config.render_chain@),
            j <= config.render_chain.len(),
            strictly_sorted(views(r@)),
            views(r@).to_set() == ins.to_set() + sts.take(j as int).to_set(),
        decreases config.render_chain.len() - j,
    {
        insert_name(&mut r, &config.render_chain[j].name);
        proof {
            assert(sts.take(j + 1) =~= sts.take(j as int).push(sts[j as int]));
            sts.take(j as int).lemma_push_to_set_commute(sts[j as int]);
            assert(views(r@).to_set() =~= ins.to_set() + sts.take(j + 1).to_set());
        }
        j = j + 1;
    }
    assert(sts.take(j as int) =~= sts);
    proof {
        let c = sorted_names(namespace(*config));
        lemma_sorted_unique(views(r@), c);
        assert forall|a: int, b: int| 0 <= a < b < r@.len() implies r@[a]@ != r@[b]@ by {
            assert(lex_lt(views(r@)[a], views(r@)[b]));
            lemma_lex_lt_asymmetric(views(r@)[a], views(r@)[b]);
        }
        assert forall|i: int| 0 <= i < config.inputs@.len() implies views(r@).contains(
            (#[trigger] config.inputs@[i]).name@,
        ) by {
            assert(ins[i] == config.inputs@[i].name@);
            assert(ins.to_set().contains(ins[i]));
            assert(namespace(*config).contains(ins[i]));
            assert(views(r@).to_set().contains(ins[i]));
        }
        assert forall|k: int| 0 <= k < config.render_chain@.len() implies views(r@).contains(
            (#[trigger] config.render_chain@[k]).name@,
        ) by {
            assert(sts[k] == config.render_chain@[k].name@);
            assert(sts.to_set().contains(sts[k]));
            assert(namespace(*config).contains(sts[k]));
            assert(views(r@).to_set().contains(sts[k]));
        }
    }
    r
}

/// Any sequence of reorderings leaves the namespace, and the sorted
/// choices, as they were: `cs` lists the configurations one after another,
/// each a single reorder of the one before.
pub proof fn lemma_reorders_keep_namespace(cs: Seq<ProjectConfig>, moves: Seq<(int, int)>)
    requires
        cs.len() == moves.len() + 1,
        forall|i: int|
            0 <= i < moves.len() ==> {
                &&& 0 <= (#[trigger] moves[i]).0 < cs[i].render_chain@.len()
                &&& 0 <= moves[i].1 < cs[i].render_chain@.len()
                &&& cs[i + 1].inputs@ == cs[i].inputs@
                &&& cs[i + 1].render_chain@ == cs[i].render_chain@.remove(moves[i].0).insert(
                    moves[i].1,
                    cs[i].render_chain@[moves[i].0],
                )
            },
    ensures
        namespace(cs.last()) == namespace(cs[0]),
        choice_seq(cs.last()) == choice_seq(cs[0]),
    decreases moves.len(),
{
    if moves.len() > 0 {
        let n = moves.len() - 1;
        assert forall|i: int| 0 <= i < n implies {
            &&& 0 <= (#[trigger] moves.take(n)[i]).0 < cs.take(n + 1)[i].render_chain@.len()
            &&& 0 <= moves.take(n)[i].1 < cs.take(n + 1)[i].render_chain@.len()
            &&& cs.take(n + 1)[i + 1].inputs@ == cs.take(n + 1)[i].inputs@
            &&& cs.take(n + 1)[i + 1].render_chain@ == cs.take(n + 1)[i].render_chain@.remove(
                moves.take(n)[i].0,
            ).insert(moves.take(n)[i].1, cs.take(n + 1)[i].render_chain@[moves.take(n)[i].0])
        } by {
            assert(moves.take(n)[i] == moves[i]);
            assert(moves[i].0 < cs[i].render_chain@.len());
        }
        lemma_reorders_keep_namespace(cs.take(n + 1), moves.take(n));
        assert(moves[n].0 < cs[n].render_chain@.len());
        lemma_reorder_keeps_namespace(cs[n], cs[n + 1], moves[n].0, moves[n].1);
    }
}

/// A reference to a name that survives a change of namespace is kept.
pub proof fn lemma_retarget_stable(c: Seq<Seq<char>>, cur: Seq<char>)
    requires
        c.contains(cur),
    ensures
        retargeted(c, cur) == cur,
{
}

/// Where a source is renamed from `from` to `to` and `to` is in the new
/// namespace `c`, every reference to `from` now names `to`, and every other
/// reference to a name of `c` is unchanged.
pub proof fn lemma_rename_propagates(
    c: Seq<Seq<char>>,
    from: Seq<char>,
    to: Seq<char>,
    x: Seq<char>,
)
    requires
        c.contains(to),
    ensures
        x == from ==> relinked(c, from, to, x) == to,
        x != from && c.contains(x) ==> relinked(c, from, to, x) == x,
{
}

/// Reordering the render chain does not change the namespace, hence not
/// the sorted choices either.
pub proof fn lemma_reorder_keeps_namespace(a: ProjectConfig, b: ProjectConfig, from: int, to: int)
    requires
        0 <= from < a.render_chain@.len(),
        0 <= to < a.render_chain@.len(),
        b.inputs@ == a.inputs@,
        b.render_chain@ == a.render_chain@.remove(from).insert(to, a.render_chain@[from]),
    ensures
        namespace(b) == namespace(a),
        choice_seq(b) == choice_seq(a),
{
    let s = a.render_chain@;
    let r = s.remove(from);
    let t = b.render_chain@;
    assert forall|x: Seq<char>| stage_names(t).to_set().contains(x) <==> stage_names(
        s,
    ).to_set().contains(x) by {
        if stage_names(t).to_set().contains(x) {
            let k = choose|k: int| 0 <= k < t.len() && stage_names(t)[k] == x;
            let o = if k < to {
                if k < from { k } else { k + 1 }
            } else if k == to {
                from
            } else {
                if k - 1 < from { k - 1 } else { k }
            };
            assert(t[k] == s[o]);
            assert(stage_names(s)[o] == x);
        }
        if stage_names(s).to_set().contains(x) {
            let o = choose|o: int| 0 <= o < s.len() && stage_names(s)[o] == x;
            let k = if o == from {
                to
            } else {
                let ri = if o < from { o } else { o - 1 };
                if ri < to { ri } else { ri + 1 }
            };
            assert(t[k] == s[o]);
            assert(stage_names(t)[k] == x);
        }
    }
    assert(stage_names(t).to_set() =~= stage_names(s).to_set());
    assert(namespace(b) =~= namespace(a));
}

} // verus!
